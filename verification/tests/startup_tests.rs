use storyvote::http::{check_join_query, JoinQuery};
use storyvote::startup::{
    bind_port, build_share_urls, confirm_fqdn, fqdn_candidate, resolve_bind_ip, share_announcement, Args,
    IpAddress, SocketAddress,
};

#[test]
fn localhost_only_uses_loopback_bind() {
    let args = Args { bind: None, port: 8787, random_port: false, localhost_only: true, http_access_log: false };

    assert_eq!(resolve_bind_ip(&args), IpAddress::V4(127, 0, 0, 1));
}

#[test]
fn explicit_bind_takes_precedence() {
    let args = Args {
        bind: Some(IpAddress::V4(192, 168, 1, 50)),
        port: 8787,
        random_port: false,
        localhost_only: true,
        http_access_log: false,
    };

    assert_eq!(resolve_bind_ip(&args), IpAddress::V4(192, 168, 1, 50));
}

#[test]
fn lan_mode_binds_every_interface_and_random_port_binds_zero() {
    let args = Args { bind: None, port: 8787, random_port: true, localhost_only: false, http_access_log: false };
    assert_eq!(resolve_bind_ip(&args), IpAddress::V4(0, 0, 0, 0));
    assert_eq!(bind_port(&args), 0);
    let args = Args { random_port: false, ..args };
    assert_eq!(bind_port(&args), 8787);
}

#[test]
fn build_share_urls_returns_lan_and_localhost_urls() {
    let urls = build_share_urls(
        SocketAddress { ip: IpAddress::V4(0, 0, 0, 0), port: 8787 },
        false,
        Some("10.0.0.5"),
        None,
    )
    .unwrap();

    assert_eq!(urls.0, "http://10.0.0.5:8787");
    assert_eq!(urls.1.as_deref(), Some("http://localhost:8787"));
}

#[test]
fn build_share_urls_returns_localhost_only_when_requested() {
    let urls =
        build_share_urls(SocketAddress { ip: IpAddress::V4(127, 0, 0, 1), port: 8787 }, true, None, None).unwrap();

    assert_eq!(urls.0, "http://localhost:8787");
    assert_eq!(urls.1, None);
}

#[test]
fn build_share_urls_prefers_detected_fqdn_when_available() {
    let urls = build_share_urls(
        SocketAddress { ip: IpAddress::V4(0, 0, 0, 0), port: 8787 },
        false,
        Some("10.0.0.5"),
        Some("storyvote.example.internal"),
    )
    .unwrap();

    assert_eq!(urls.0, "http://storyvote.example.internal:8787");
    assert_eq!(urls.1.as_deref(), Some("http://localhost:8787"));
}

#[test]
fn build_share_urls_fails_without_address_or_name() {
    let err = build_share_urls(SocketAddress { ip: IpAddress::V4(0, 0, 0, 0), port: 8787 }, false, None, None)
        .unwrap_err();
    assert_eq!(err, "local IP unavailable");
}

#[test]
fn ports_are_rendered_in_decimal() {
    for (port, text) in [(0u16, "0"), (9, "9"), (10, "10"), (80, "80"), (65535, "65535"), (1000, "1000")] {
        let urls = build_share_urls(SocketAddress { ip: IpAddress::V4(0, 0, 0, 0), port }, true, None, None).unwrap();
        assert_eq!(urls.0, format!("http://localhost:{text}"));
    }
}

#[test]
fn announcement_lists_local_url_only_when_different() {
    let addr = SocketAddress { ip: IpAddress::V4(0, 0, 0, 0), port: 8787 };
    let (lines, warning) = share_announcement(addr, false, Some("10.0.0.5"), None);
    assert_eq!(lines, vec!["StoryVote ready", "Share URL: http://10.0.0.5:8787", "Local URL: http://localhost:8787"]);
    assert_eq!(warning, None);

    let (lines, warning) = share_announcement(addr, true, Some("10.0.0.5"), None);
    assert_eq!(lines, vec!["StoryVote ready", "Share URL: http://localhost:8787"]);
    assert_eq!(warning, None);
}

#[test]
fn announcement_falls_back_to_localhost_with_warning() {
    let addr = SocketAddress { ip: IpAddress::V4(0, 0, 0, 0), port: 8080 };
    let (lines, warning) = share_announcement(addr, false, None, None);
    assert_eq!(lines, vec!["StoryVote ready", "Share URL: http://localhost:8080"]);
    assert_eq!(warning.as_deref(), Some("Share URL fallback used: local IP unavailable"));
}

#[test]
fn fqdn_needs_a_dot_after_trailing_dots_are_removed() {
    assert_eq!(fqdn_candidate("host.example.com.").as_deref(), Some("host.example.com"));
    assert_eq!(fqdn_candidate("host.example.com").as_deref(), Some("host.example.com"));
    assert_eq!(fqdn_candidate("laptop"), None);
    assert_eq!(fqdn_candidate("laptop..."), None);
    assert_eq!(fqdn_candidate(""), None);
}

#[test]
fn fqdn_is_kept_only_when_forward_lookup_matches() {
    let ip = IpAddress::V4(10, 0, 0, 5);
    let name = "host.example.com".to_string();
    assert_eq!(
        confirm_fqdn(name.clone(), ip, Some(vec![IpAddress::V4(10, 0, 0, 9), ip])).as_deref(),
        Some("host.example.com")
    );
    assert_eq!(confirm_fqdn(name.clone(), ip, Some(vec![IpAddress::V4(10, 0, 0, 9)])), None);
    assert_eq!(confirm_fqdn(name.clone(), ip, Some(vec![])), None);
    assert_eq!(confirm_fqdn(name, ip, None), None);
}

#[test]
fn blank_join_name_is_rejected_before_upgrade() {
    assert_eq!(
        check_join_query(&JoinQuery { name: " \t".to_string() }).unwrap_err(),
        "name query parameter is required"
    );
    assert!(check_join_query(&JoinQuery { name: " x ".to_string() }).is_ok());
}
