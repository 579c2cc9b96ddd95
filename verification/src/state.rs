//! The single estimation session: participants, their votes, the topic,
//! the reveal flag and the host.

use vstd::prelude::*;
use crate::text::{
    ascii_fold, chars_of, eq_ignore_ascii_case, trim, trim_str, utf8_len, str_eq,
    lemma_trim_idempotent,
};
use crate::messages::{ServerEvent, ParticipantView, opt_text, pair_texts, row_texts};

verus! {

// ---------------------------------------------------------------------
// Messages
// ---------------------------------------------------------------------

pub open spec fn msg_name_required() -> Seq<char> {
    "Name is required."@
}

pub open spec fn msg_name_too_long() -> Seq<char> {
    "Name must be 32 characters or less."@
}

pub open spec fn msg_topic_too_long() -> Seq<char> {
    "Topic must be 120 characters or less."@
}

pub open spec fn msg_name_in_use() -> Seq<char> {
    "That name is already in use for this session."@
}

pub open spec fn msg_invalid_card() -> Seq<char> {
    "Invalid card value."@
}

pub open spec fn msg_participant_not_found() -> Seq<char> {
    "Participant not found."@
}

pub open spec fn msg_only_host_reveal() -> Seq<char> {
    "Only the host can reveal votes."@
}

pub open spec fn msg_only_host_topic() -> Seq<char> {
    "Only the host can set the topic."@
}

pub open spec fn msg_only_host_reset() -> Seq<char> {
    "Only the host can reset the round."@
}

/// Longest accepted display name, in UTF-8 bytes.
pub const MAX_NAME_BYTES: usize = 32;

/// Longest accepted topic, in UTF-8 bytes.
pub const MAX_TOPIC_BYTES: usize = 120;

// ---------------------------------------------------------------------
// Names, topics and cards
// ---------------------------------------------------------------------

/// Why a requested display name is refused, if it is.
pub open spec fn name_error(name: Seq<char>) -> Option<Seq<char>> {
    let t = trim(name);
    if t.len() == 0 {
        Some(msg_name_required())
    } else if utf8_len(t) > MAX_NAME_BYTES {
        Some(msg_name_too_long())
    } else {
        None
    }
}

/// Why a requested topic is refused, if it is.
pub open spec fn topic_error(topic: Seq<char>) -> Option<Seq<char>> {
    if utf8_len(trim(topic)) > MAX_TOPIC_BYTES {
        Some(msg_topic_too_long())
    } else {
        None
    }
}

/// The cards of the deck: 0, 1, 2, 3, 5, 8, 13, 21, 34, 55 and `?`.
pub open spec fn is_card(v: Seq<char>) -> bool {
    ||| v == seq!['0']
    ||| v == seq!['1']
    ||| v == seq!['2']
    ||| v == seq!['3']
    ||| v == seq!['5']
    ||| v == seq!['8']
    ||| v == seq!['1', '3']
    ||| v == seq!['2', '1']
    ||| v == seq!['3', '4']
    ||| v == seq!['5', '5']
    ||| v == seq!['?']
}

/// The display name that a join request stands for: the request trimmed.
pub fn normalize_name(name: &str) -> (r: Result<String, String>)
    ensures
        match r {
            Ok(t) => name_error(name@) is None && t@ == trim(name@),
            Err(e) => name_error(name@) == Some(e@),
        },
{
    let trimmed = trim_str(name);
    if trimmed.as_str().is_empty() {
        return Err("Name is required.".to_owned());
    }
    if trimmed.as_str().as_bytes().len() > MAX_NAME_BYTES {
        return Err("Name must be 32 characters or less.".to_owned());
    }
    Ok(trimmed)
}

/// The topic that a request stands for: the request trimmed.
pub fn normalize_topic(value: &str) -> (r: Result<String, String>)
    ensures
        match r {
            Ok(t) => topic_error(value@) is None && t@ == trim(value@),
            Err(e) => topic_error(value@) == Some(e@),
        },
{
    let trimmed = trim_str(value);
    if trimmed.as_str().as_bytes().len() > MAX_TOPIC_BYTES {
        return Err("Topic must be 120 characters or less.".to_owned());
    }
    Ok(trimmed)
}

/// Whether `value` is one of the deck's cards.
pub fn is_allowed_card(value: &str) -> (r: bool)
    ensures
        r == is_card(value@),
{
    let v = chars_of(value);
    if v.len() == 1 {
        let c = v[0];
        assert(v@ =~= seq![c]);
        c == '0' || c == '1' || c == '2' || c == '3' || c == '5' || c == '8' || c == '?'
    } else if v.len() == 2 {
        let c0 = v[0];
        let c1 = v[1];
        assert(v@ =~= seq![c0, c1]);
        (c0 == '1' && c1 == '3') || (c0 == '2' && c1 == '1') || (c0 == '3' && c1 == '4') || (c0
            == '5' && c1 == '5')
    } else {
        false
    }
}


// ---------------------------------------------------------------------
// The session model
// ---------------------------------------------------------------------

/// A participant as the rules see it: session id, display name and the
/// card chosen in the current round, if any.
pub ghost struct Member {
    pub id: Seq<char>,
    pub name: Seq<char>,
    pub vote: Option<Seq<char>>,
}

/// The whole session: participants in the order they joined, whether the
/// votes are revealed, the topic, and the host's session id.
pub ghost struct SessionView {
    pub members: Seq<Member>,
    pub revealed: bool,
    pub topic: Seq<char>,
    pub host: Option<Seq<char>>,
}

/// A display name as it is stored: trimmed, not empty, at most 32 bytes.
pub open spec fn is_stored_name(n: Seq<char>) -> bool {
    &&& trim(n) == n
    &&& n.len() > 0
    &&& utf8_len(n) <= MAX_NAME_BYTES
}

/// A topic as it is stored: trimmed and at most 120 bytes.
pub open spec fn is_stored_topic(t: Seq<char>) -> bool {
    &&& trim(t) == t
    &&& utf8_len(t) <= MAX_TOPIC_BYTES
}

impl SessionView {
    /// The session before anyone joins.
    pub open spec fn initial() -> SessionView {
        SessionView { members: Seq::empty(), revealed: false, topic: Seq::empty(), host: None }
    }

    pub open spec fn has_member(self, id: Seq<char>) -> bool {
        exists|i: int| 0 <= i < self.members.len() && (#[trigger] self.members[i]).id == id
    }

    /// The position of the participant with session id `id`.
    pub open spec fn index_of(self, id: Seq<char>) -> int {
        choose|i: int| 0 <= i < self.members.len() && (#[trigger] self.members[i]).id == id
    }

    /// Whether a participant's name equals `name` ignoring ASCII case.
    pub open spec fn name_taken(self, name: Seq<char>) -> bool {
        exists|i: int|
            0 <= i < self.members.len() && ascii_fold((#[trigger] self.members[i]).name)
                == ascii_fold(name)
    }

    pub open spec fn is_host(self, id: Seq<char>) -> bool {
        self.host == Some(id)
    }

    /// The invariant of the session.
    pub open spec fn wf(self) -> bool {
        // session ids are unique
        &&& forall|i: int, j: int|
            0 <= i < j < self.members.len() ==> (#[trigger] self.members[i]).id
                != (#[trigger] self.members[j]).id
        // names are unique ignoring ASCII case
        &&& forall|i: int, j: int|
            0 <= i < j < self.members.len() ==> ascii_fold((#[trigger] self.members[i]).name)
                != ascii_fold((#[trigger] self.members[j]).name)
        // names are stored normalized, votes are cards
        &&& forall|i: int|
            0 <= i < self.members.len() ==> {
                &&& is_stored_name((#[trigger] self.members[i]).name)
                &&& (self.members[i].vote matches Some(v) ==> is_card(v))
            }
        // there is a host exactly when someone is connected, and the host is connected
        &&& (self.host is None <==> self.members.len() == 0)
        &&& (self.host matches Some(h) ==> self.has_member(h))
        &&& is_stored_topic(self.topic)
    }

    /// The session after a participant with session id `id` and display name
    /// `name` joins. A session id that is already present keeps its place and
    /// its vote and takes the new name.
    pub open spec fn joined(self, id: Seq<char>, name: Seq<char>) -> SessionView {
        SessionView {
            members: if self.has_member(id) {
                let i = self.index_of(id);
                self.members.update(i, Member { id, name, vote: self.members[i].vote })
            } else {
                self.members.push(Member { id, name, vote: None })
            },
            revealed: self.revealed,
            topic: self.topic,
            host: if self.host is None {
                Some(id)
            } else {
                self.host
            },
        }
    }

    /// The session after the participant with session id `id` leaves, taking
    /// its vote along. When the host leaves, the longest-connected remaining
    /// participant becomes host.
    pub open spec fn left(self, id: Seq<char>) -> SessionView {
        if !self.has_member(id) {
            self
        } else {
            let rest = self.members.remove(self.index_of(id));
            SessionView {
                members: rest,
                revealed: self.revealed,
                topic: self.topic,
                host: if self.host == Some(id) {
                    if rest.len() == 0 {
                        None
                    } else {
                        Some(rest[0].id)
                    }
                } else {
                    self.host
                },
            }
        }
    }

    /// The session after the participant `id` picks card `card`.
    pub open spec fn voted(self, id: Seq<char>, card: Seq<char>) -> SessionView {
        let i = self.index_of(id);
        SessionView {
            members: self.members.update(
                i,
                Member { id: self.members[i].id, name: self.members[i].name, vote: Some(card) },
            ),
            ..self
        }
    }

    /// The session with its votes revealed.
    pub open spec fn with_votes_revealed(self) -> SessionView {
        SessionView { revealed: true, ..self }
    }

    /// The session with topic `topic`.
    pub open spec fn with_topic(self, topic: Seq<char>) -> SessionView {
        SessionView { topic, ..self }
    }

    /// The session at the start of a new round: no votes, nothing revealed.
    pub open spec fn round_reset(self) -> SessionView {
        SessionView {
            members: self.members.map_values(|m: Member| Member { id: m.id, name: m.name, vote: None }),
            revealed: false,
            ..self
        }
    }
}

/// The `(name, card)` pairs of the participants who voted, in join order.
pub open spec fn cast_votes(ms: Seq<Member>) -> Seq<(Seq<char>, Seq<char>)>
    decreases ms.len(),
{
    if ms.len() == 0 {
        Seq::empty()
    } else {
        let rest = cast_votes(ms.drop_last());
        match ms.last().vote {
            Some(v) => rest.push((ms.last().name, v)),
            None => rest,
        }
    }
}


/// The row that clients see for member `m`: name, whether it voted in this
/// round, whether it is the host.
pub open spec fn row_of(s: SessionView, m: Member) -> (Seq<char>, bool, bool) {
    (m.name, m.vote is Some, s.host == Some(m.id))
}

/// The participant list that clients see, in join order.
pub open spec fn participant_rows(s: SessionView) -> Seq<(Seq<char>, bool, bool)> {
    s.members.map_values(|m: Member| row_of(s, m))
}

/// The votes that clients see: all cast votes once revealed, none before.
pub open spec fn visible_votes(s: SessionView) -> Seq<(Seq<char>, Seq<char>)> {
    if s.revealed {
        cast_votes(s.members)
    } else {
        Seq::empty()
    }
}

/// Whether `ev` is the state event that describes session `s` to clients.
pub open spec fn describes(ev: ServerEvent, s: SessionView) -> bool {
    ev matches ServerEvent::State { participants, revealed, votes, topic, host_session_id }
        && row_texts(participants@) == participant_rows(s) && revealed == s.revealed && pair_texts(
        votes@,
    ) == visible_votes(s) && topic@ == s.topic && opt_text(host_session_id) == s.host
}

/// Why a join request with display name `name` is refused, if it is.
pub open spec fn join_error(s: SessionView, name: Seq<char>) -> Option<Seq<char>> {
    if name_error(name) is Some {
        name_error(name)
    } else if s.name_taken(trim(name)) {
        Some(msg_name_in_use())
    } else {
        None
    }
}

/// Why a vote for `card` by session id `id` is refused, if it is.
pub open spec fn vote_error(s: SessionView, id: Seq<char>, card: Seq<char>) -> Option<Seq<char>> {
    if !is_card(card) {
        Some(msg_invalid_card())
    } else if !s.has_member(id) {
        Some(msg_participant_not_found())
    } else {
        None
    }
}

/// Why a topic change to `topic` by session id `id` is refused, if it is.
pub open spec fn topic_change_error(s: SessionView, id: Seq<char>, topic: Seq<char>) -> Option<
    Seq<char>,
> {
    if topic_error(topic) is Some {
        topic_error(topic)
    } else if !s.is_host(id) {
        Some(msg_only_host_topic())
    } else {
        None
    }
}

// ---------------------------------------------------------------------
// The executable session
// ---------------------------------------------------------------------

#[derive(Debug)]
struct Participant {
    session_id: String,
    name: String,
    vote: Option<String>,
}

impl View for Participant {
    type V = Member;

    closed spec fn view(&self) -> Member {
        Member { id: self.session_id@, name: self.name@, vote: opt_text(self.vote) }
    }
}

spec fn members_of(ps: Seq<Participant>) -> Seq<Member> {
    ps.map_values(|p: Participant| p@)
}

fn clone_text(o: &Option<String>) -> (r: Option<String>)
    ensures
        opt_text(r) == opt_text(*o),
{
    match o {
        Some(t) => Some(t.clone()),
        None => None,
    }
}

/// A lowercase hexadecimal digit: `0`..`9` or `a`..`f`.
pub open spec fn is_lower_hex_digit(c: char) -> bool {
    let u = c as u32;
    (0x30 <= u <= 0x39) || (0x61 <= u <= 0x66)
}

/// The text of a random (version 4, RFC 4122 variant) UUID in hyphenated
/// lowercase form: 32 hexadecimal digits in groups of 8, 4, 4, 4 and 12
/// separated by hyphens, with version digit `4` and a variant digit among
/// `8`, `9`, `a`, `b`.
pub open spec fn is_v4_uuid_text(s: Seq<char>) -> bool {
    &&& s.len() == 36
    &&& forall|i: int|
        0 <= i < 36 ==> if i == 8 || i == 13 || i == 18 || i == 23 {
            #[trigger] s[i] == '-'
        } else {
            is_lower_hex_digit(s[i])
        }
    &&& s[14] == '4'
    &&& (s[19] == '8' || s[19] == '9' || s[19] == 'a' || s[19] == 'b')
}

/// `uuid::Uuid::new_v4()` rendered with `to_string()`. The value is random,
/// so nothing is said of which id comes back. Its shape is fixed by the
/// crate: `new_v4` masks the random bits so that the version nibble is 4 and
/// the variant nibble is one of 8..b, and `to_string` writes the hyphenated
/// lowercase form.
#[verifier::external_body]
fn new_session_id() -> (id: String)
    ensures
        is_v4_uuid_text(id@),
{
    uuid::Uuid::new_v4().to_string()
}

/// The state of the one shared estimation session.
#[derive(Debug)]
pub struct SharedState {
    participants: Vec<Participant>,
    revealed: bool,
    topic: String,
    host_session_id: Option<String>,
}

impl View for SharedState {
    type V = SessionView;

    closed spec fn view(&self) -> SessionView {
        SessionView {
            members: members_of(self.participants@),
            revealed: self.revealed,
            topic: self.topic@,
            host: opt_text(self.host_session_id),
        }
    }
}

/// In a well-formed session a session id names exactly one position.
pub proof fn lemma_index_of_unique(s: SessionView, id: Seq<char>, i: int)
    requires
        s.wf(),
        0 <= i < s.members.len(),
        s.members[i].id == id,
    ensures
        s.has_member(id),
        s.index_of(id) == i,
{
    assert(s.has_member(id));
    let j = s.index_of(id);
    if j < i {
        assert(s.members[j].id != s.members[i].id);
    } else if i < j {
        assert(s.members[i].id != s.members[j].id);
    }
}

proof fn lemma_empty_topic_stored()
    ensures
        is_stored_topic(Seq::empty()),
{
    assert(trim(Seq::<char>::empty()) =~= Seq::<char>::empty());
    assert(crate::text::utf8_len(Seq::<char>::empty()) == 0) by {
        reveal_with_fuel(vstd::utf8::encode_utf8, 1);
    }
}

impl SharedState {
    /// An empty session: nobody joined, nothing revealed, no topic, no host.
    pub fn new() -> (s: SharedState)
        ensures
            s@ == SessionView::initial(),
            s@.wf(),
    {
        let s = SharedState {
            participants: Vec::new(),
            revealed: false,
            topic: String::new(),
            host_session_id: None,
        };
        proof {
            lemma_empty_topic_stored();
            assert(s@.members =~= Seq::<Member>::empty());
        }
        s
    }

    /// The position of the participant with session id `id`, if connected.
    fn find(&self, id: &str) -> (r: Option<usize>)
        requires
            self@.wf(),
        ensures
            match r {
                Some(i) => {
                    &&& i < self@.members.len()
                    &&& self@.members[i as int].id == id@
                    &&& self@.has_member(id@)
                    &&& self@.index_of(id@) == i
                },
                None => !self@.has_member(id@),
            },
    {
        let n = self.participants.len();
        let mut k: usize = 0;
        while k < n
            invariant
                k <= n == self.participants.len(),
                self@.wf(),
                forall|m: int| 0 <= m < k ==> (#[trigger] self@.members[m]).id != id@,
            decreases n - k,
        {
            if str_eq(self.participants[k].session_id.as_str(), id) {
                proof {
                    lemma_index_of_unique(self@, id@, k as int);
                }
                return Some(k);
            }
            k = k + 1;
        }
        None
    }

    /// Whether some participant's name equals `name` ignoring ASCII case.
    fn name_in_use(&self, name: &str) -> (r: bool)
        ensures
            r == self@.name_taken(name@),
    {
        let n = self.participants.len();
        let mut k: usize = 0;
        while k < n
            invariant
                k <= n == self.participants.len(),
                forall|m: int|
                    0 <= m < k ==> ascii_fold((#[trigger] self@.members[m]).name) != ascii_fold(
                        name@,
                    ),
            decreases n - k,
        {
            if eq_ignore_ascii_case(self.participants[k].name.as_str(), name) {
                assert(ascii_fold(self@.members[k as int].name) == ascii_fold(name@));
                return true;
            }
            k = k + 1;
        }
        false
    }

    /// Joins the participant with session id `session_id` under the display
    /// name `name`. Returns the session id and whether the participant became
    /// host.
    pub fn add_participant_with_session_id(&mut self, name: &str, session_id: String) -> (r:
        Result<(String, bool), String>)
        requires
            old(self)@.wf(),
        ensures
            final(self)@.wf(),
            match r {
                Ok((id, is_host)) => {
                    &&& join_error(old(self)@, name@) is None
                    &&& id@ == session_id@
                    &&& is_host == (old(self)@.host is None)
                    &&& final(self)@ == old(self)@.joined(session_id@, trim(name@))
                    &&& final(self)@.revealed == old(self)@.revealed
                    &&& final(self)@.topic == old(self)@.topic
                },
                Err(e) => {
                    &&& join_error(old(self)@, name@) == Some(e@)
                    &&& final(self)@ == old(self)@
                },
            },
    {
        let normalized = match normalize_name(name) {
            Ok(t) => t,
            Err(e) => return Err(e),
        };
        if self.name_in_use(normalized.as_str()) {
            return Err("That name is already in use for this session.".to_owned());
        }
        let ghost pre = self@;
        proof {
            lemma_trim_idempotent(name@);
        }
        match self.find(session_id.as_str()) {
            Some(i) => {
                let vote = clone_text(&self.participants[i].vote);
                let sid = self.participants[i].session_id.clone();
                self.participants.set(i, Participant { session_id: sid, name: normalized, vote });
                proof {
                    assert(self@.members =~= pre.members.update(
                        i as int,
                        Member { id: session_id@, name: trim(name@), vote: pre.members[i as int].vote },
                    ));
                }
            },
            None => {
                self.participants.push(
                    Participant { session_id: session_id.clone(), name: normalized, vote: None },
                );
                proof {
                    assert(self@.members =~= pre.members.push(
                        Member { id: session_id@, name: trim(name@), vote: None },
                    ));
                }
            },
        }
        let is_host = if self.host_session_id.is_none() {
            self.host_session_id = Some(session_id.clone());
            true
        } else {
            false
        };
        proof {
            let post = self@;
            assert(post == pre.joined(session_id@, trim(name@)));
            assert(post.members.len() > 0);
            if pre.has_member(session_id@) {
                assert(post.members[pre.index_of(session_id@)].id == session_id@);
            } else {
                assert(post.members[pre.members.len() as int].id == session_id@);
            }
            if let Some(h) = pre.host {
                let j = choose|j: int| 0 <= j < pre.members.len() && (#[trigger] pre.members[j]).id == h;
                assert(post.members[j].id == h);
            }
        }
        Ok((session_id, is_host))
    }

    /// Removes the participant with session id `id`, with its vote. When the
    /// host leaves, the longest-connected remaining participant becomes host.
    /// Returns whether someone left (and so whether clients need a new
    /// snapshot).
    pub fn remove_participant(&mut self, id: &str) -> (removed: bool)
        requires
            old(self)@.wf(),
        ensures
            final(self)@.wf(),
            removed == old(self)@.has_member(id@),
            final(self)@ == old(self)@.left(id@),
            !old(self)@.is_host(id@) ==> final(self)@.host == old(self)@.host,
            final(self)@.revealed == old(self)@.revealed,
            final(self)@.topic == old(self)@.topic,
    {
        match self.find(id) {
            None => false,
            Some(i) => {
                let ghost pre = self@;
                let was_host = self.is_host_id(id);
                let _gone = self.participants.remove(i);
                proof {
                    pre.members.remove_ensures(i as int);
                    assert(self@.members =~= pre.members.remove(i as int));
                }
                if was_host {
                    if self.participants.len() > 0 {
                        self.host_session_id = Some(self.participants[0].session_id.clone());
                    } else {
                        self.host_session_id = None;
                    }
                }
                proof {
                    let post = self@;
                    let rest = pre.members.remove(i as int);
                    assert(post == pre.left(id@));
                    assert forall|a: int, b: int| 0 <= a < b < rest.len() implies (#[trigger] rest[a]).id
                        != (#[trigger] rest[b]).id by {
                        let a0 = if a < i { a } else { a + 1 };
                        let b0 = if b < i { b } else { b + 1 };
                        assert(rest[a] == pre.members[a0]);
                        assert(rest[b] == pre.members[b0]);
                    }
                    assert forall|a: int, b: int| 0 <= a < b < rest.len() implies ascii_fold(
                        (#[trigger] rest[a]).name,
                    ) != ascii_fold((#[trigger] rest[b]).name) by {
                        let a0 = if a < i { a } else { a + 1 };
                        let b0 = if b < i { b } else { b + 1 };
                        assert(rest[a] == pre.members[a0]);
                        assert(rest[b] == pre.members[b0]);
                    }
                    assert forall|a: int| 0 <= a < rest.len() implies {
                        &&& is_stored_name((#[trigger] rest[a]).name)
                        &&& (rest[a].vote matches Some(v) ==> is_card(v))
                    } by {
                        let a0 = if a < i { a } else { a + 1 };
                        assert(rest[a] == pre.members[a0]);
                    }
                    if was_host {
                        if rest.len() > 0 {
                            assert(post.members[0].id == rest[0].id);
                        }
                    } else {
                        let h = pre.host->0;
                        let j = choose|j: int|
                            0 <= j < pre.members.len() && (#[trigger] pre.members[j]).id == h;
                        assert(j != i);
                        let j1 = if j < i { j } else { j - 1 };
                        assert(rest[j1] == pre.members[j]);
                        assert(post.has_member(h));
                    }
                }
                true
            },
        }
    }

    /// Records card `value` as the vote of participant `id`, replacing an
    /// earlier vote of the round.
    pub fn set_vote(&mut self, id: &str, value: &str) -> (r: Result<(), String>)
        requires
            old(self)@.wf(),
        ensures
            final(self)@.wf(),
            match r {
                Ok(()) => {
                    &&& vote_error(old(self)@, id@, value@) is None
                    &&& final(self)@ == old(self)@.voted(id@, value@)
                    &&& final(self)@.revealed == old(self)@.revealed
                    &&& final(self)@.topic == old(self)@.topic
                    &&& final(self)@.host == old(self)@.host
                },
                Err(e) => {
                    &&& vote_error(old(self)@, id@, value@) == Some(e@)
                    &&& final(self)@ == old(self)@
                },
            },
    {
        if !is_allowed_card(value) {
            return Err("Invalid card value.".to_owned());
        }
        match self.find(id) {
            None => Err("Participant not found.".to_owned()),
            Some(i) => {
                let ghost pre = self@;
                let sid = self.participants[i].session_id.clone();
                let name = self.participants[i].name.clone();
                self.participants.set(
                    i,
                    Participant { session_id: sid, name, vote: Some(value.to_owned()) },
                );
                proof {
                    let m = pre.members[i as int];
                    assert(self@.members =~= pre.members.update(
                        i as int,
                        Member { id: m.id, name: m.name, vote: Some(value@) },
                    ));
                    assert(self@ == pre.voted(id@, value@));
                    if let Some(h) = pre.host {
                        let j = choose|j: int|
                            0 <= j < pre.members.len() && (#[trigger] pre.members[j]).id == h;
                        assert(self@.members[j].id == h);
                    }
                }
                Ok(())
            },
        }
    }

    /// Reveals the votes of the round; only the host may.
    pub fn reveal_votes(&mut self, id: &str) -> (r: Result<(), String>)
        requires
            old(self)@.wf(),
        ensures
            final(self)@.wf(),
            match r {
                Ok(()) => {
                    &&& old(self)@.is_host(id@)
                    &&& final(self)@ == old(self)@.with_votes_revealed()
                    &&& final(self)@.revealed
                    &&& final(self)@.members == old(self)@.members
                    &&& final(self)@.topic == old(self)@.topic
                    &&& final(self)@.host == old(self)@.host
                },
                Err(e) => {
                    &&& !old(self)@.is_host(id@)
                    &&& e@ == msg_only_host_reveal()
                    &&& final(self)@ == old(self)@
                },
            },
    {
        if !self.is_host_id(id) {
            return Err("Only the host can reveal votes.".to_owned());
        }
        self.revealed = true;
        Ok(())
    }

    /// Sets the topic of the round to `value` trimmed; only the host may.
    pub fn set_topic(&mut self, id: &str, value: &str) -> (r: Result<(), String>)
        requires
            old(self)@.wf(),
        ensures
            final(self)@.wf(),
            match r {
                Ok(()) => {
                    &&& topic_change_error(old(self)@, id@, value@) is None
                    &&& final(self)@ == old(self)@.with_topic(trim(value@))
                    &&& final(self)@.topic == trim(value@)
                    &&& final(self)@.members == old(self)@.members
                    &&& final(self)@.revealed == old(self)@.revealed
                    &&& final(self)@.host == old(self)@.host
                },
                Err(e) => {
                    &&& topic_change_error(old(self)@, id@, value@) == Some(e@)
                    &&& final(self)@ == old(self)@
                },
            },
    {
        let normalized = match normalize_topic(value) {
            Ok(t) => t,
            Err(e) => return Err(e),
        };
        if !self.is_host_id(id) {
            return Err("Only the host can set the topic.".to_owned());
        }
        proof {
            lemma_trim_idempotent(value@);
        }
        self.topic = normalized;
        Ok(())
    }

    /// Starts a new round: clears every vote and hides the votes again; only
    /// the host may.
    pub fn reset(&mut self, id: &str) -> (r: Result<(), String>)
        requires
            old(self)@.wf(),
        ensures
            final(self)@.wf(),
            match r {
                Ok(()) => {
                    &&& old(self)@.is_host(id@)
                    &&& final(self)@ == old(self)@.round_reset()
                },
                Err(e) => {
                    &&& !old(self)@.is_host(id@)
                    &&& e@ == msg_only_host_reset()
                    &&& final(self)@ == old(self)@
                },
            },
    {
        if !self.is_host_id(id) {
            return Err("Only the host can reset the round.".to_owned());
        }
        let ghost pre = self@;
        let n = self.participants.len();
        let mut k: usize = 0;
        while k < n
            invariant
                k <= n == self.participants.len(),
                self.revealed == pre.revealed,
                self.topic@ == pre.topic,
                opt_text(self.host_session_id) == pre.host,
                pre.members.len() == n,
                forall|m: int|
                    0 <= m < k ==> #[trigger] self@.members[m] == (Member {
                        id: pre.members[m].id,
                        name: pre.members[m].name,
                        vote: None,
                    }),
                forall|m: int| k <= m < n ==> #[trigger] self@.members[m] == pre.members[m],
            decreases n - k,
        {
            let ghost before = self@.members;
            let sid = self.participants[k].session_id.clone();
            let name = self.participants[k].name.clone();
            self.participants.set(k, Participant { session_id: sid, name, vote: None });
            proof {
                assert(self@.members =~= before.update(
                    k as int,
                    Member { id: before[k as int].id, name: before[k as int].name, vote: None },
                ));
            }
            k = k + 1;
        }
        self.revealed = false;
        proof {
            assert(self@.members =~= pre.round_reset().members);
            assert(self@ == pre.round_reset());
            if let Some(h) = pre.host {
                let j = choose|j: int| 0 <= j < pre.members.len() && (#[trigger] pre.members[j]).id == h;
                assert(self@.members[j].id == h);
            }
        }
        Ok(())
    }

    /// The display name of the participant with session id `id`.
    pub fn participant_name(&self, id: &str) -> (r: Option<String>)
        requires
            self@.wf(),
        ensures
            opt_text(r) == (if self@.has_member(id@) {
                Some(self@.members[self@.index_of(id@)].name)
            } else {
                None
            }),
    {
        match self.find(id) {
            Some(i) => Some(self.participants[i].name.clone()),
            None => None,
        }
    }

    /// The state event that describes the session to clients: every
    /// participant's row, the reveal flag, the votes once revealed, the topic
    /// and the host's session id.
    pub fn snapshot(&self) -> (ev: ServerEvent)
        ensures
            describes(ev, self@),
    {
        let ghost sv = self@;
        let n = self.participants.len();
        let mut rows: Vec<ParticipantView> = Vec::new();
        let mut votes: Vec<(String, String)> = Vec::new();
        let mut k: usize = 0;
        while k < n
            invariant
                k <= n == self.participants.len(),
                sv == self@,
                row_texts(rows@) == participant_rows(sv).take(k as int),
                pair_texts(votes@) == cast_votes(sv.members.take(k as int)),
            decreases n - k,
        {
            let p = &self.participants[k];
            let is_host = self.is_host_id(p.session_id.as_str());
            let voted = p.vote.is_some();
            let ghost old_rows = rows@;
            rows.push(ParticipantView { name: p.name.clone(), voted, is_host });
            proof {
                let m = sv.members[k as int];
                assert(m == self.participants@[k as int]@);
                assert(row_texts(rows@) =~= row_texts(old_rows).push(row_of(sv, m)));
                assert(participant_rows(sv).take(k + 1) =~= participant_rows(sv).take(
                    k as int,
                ).push(row_of(sv, m)));
                assert(sv.members.take(k + 1).drop_last() =~= sv.members.take(k as int));
            }
            match &p.vote {
                Some(v) => {
                    let ghost old_votes = votes@;
                    votes.push((p.name.clone(), v.clone()));
                    proof {
                        assert(pair_texts(votes@) =~= pair_texts(old_votes).push(
                            (sv.members[k as int].name, sv.members[k as int].vote->0),
                        ));
                        assert(pair_texts(votes@) =~= cast_votes(sv.members.take(k + 1)));
                    }
                },
                None => {},
            }
            k = k + 1;
        }
        proof {
            assert(sv.members.take(n as int) =~= sv.members);
            assert(participant_rows(sv).take(n as int) =~= participant_rows(sv));
        }
        let shown = if self.revealed {
            votes
        } else {
            Vec::new()
        };
        proof {
            assert(pair_texts(shown@) =~= visible_votes(sv));
        }
        ServerEvent::State {
            participants: rows,
            revealed: self.revealed,
            votes: shown,
            topic: self.topic.clone(),
            host_session_id: clone_text(&self.host_session_id),
        }
    }

    /// Joins a participant under the display name `name` with a fresh random
    /// session id. Returns the session id and whether the participant became
    /// host.
    pub fn add_participant(&mut self, name: &str) -> (r: Result<(String, bool), String>)
        requires
            old(self)@.wf(),
        ensures
            final(self)@.wf(),
            match r {
                Ok((id, is_host)) => {
                    &&& join_error(old(self)@, name@) is None
                    &&& is_v4_uuid_text(id@)
                    &&& is_host == (old(self)@.host is None)
                    &&& final(self)@ == old(self)@.joined(id@, trim(name@))
                    &&& final(self)@.revealed == old(self)@.revealed
                    &&& final(self)@.topic == old(self)@.topic
                },
                Err(e) => {
                    &&& join_error(old(self)@, name@) == Some(e@)
                    &&& final(self)@ == old(self)@
                },
            },
    {
        let session_id = new_session_id();
        self.add_participant_with_session_id(name, session_id)
    }

    /// Whether `id` is the host's session id.
    fn is_host_id(&self, id: &str) -> (r: bool)
        ensures
            r == self@.is_host(id@),
    {
        match &self.host_session_id {
            Some(h) => str_eq(h.as_str(), id),
            None => false,
        }
    }
}

} // verus!
