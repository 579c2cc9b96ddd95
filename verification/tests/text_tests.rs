use storyvote::state::normalize_name;
use storyvote::text::{contains_char, eq_ignore_ascii_case, push_decimal, str_eq, trim_end_matches_char, trim_str};

#[test]
fn trim_matches_std_trim() {
    for s in ["", " ", "a", " a ", "\t\na b\r\n", "\u{2003}x\u{2029}", "\u{85}y\u{1680}", "\u{200b}z", "  \u{3000} "] {
        assert_eq!(trim_str(s), s.trim(), "{s:?}");
    }
}

#[test]
fn ascii_case_folding_matches_std() {
    let pairs = [("Alice", "alice"), ("ALICE", "alicE"), ("Ærø", "ærø"), ("Ab", "Abc"), ("a-1", "A-1"), ("", "")];
    for (a, b) in pairs {
        assert_eq!(eq_ignore_ascii_case(a, b), a.eq_ignore_ascii_case(b), "{a} {b}");
    }
}

#[test]
fn small_text_helpers() {
    assert!(str_eq("abc", "abc"));
    assert!(!str_eq("abc", "abd"));
    assert!(contains_char("a.b", '.'));
    assert!(!contains_char("ab", '.'));
    assert_eq!(trim_end_matches_char("a.b..", '.'), "a.b");
    let mut s = String::from("n=");
    push_decimal(&mut s, 1234567890);
    assert_eq!(s, "n=1234567890");
}

#[test]
fn normalizing_twice_is_normalizing_once() {
    for s in ["  Alice  ", "\u{2003}Bob\t", "Cy"] {
        let once = normalize_name(s).unwrap();
        assert_eq!(normalize_name(&once).unwrap(), once);
        assert_eq!(trim_str(&trim_str(s)), trim_str(s));
    }
}
