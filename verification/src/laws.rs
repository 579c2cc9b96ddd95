//! Properties of the session rules that span several operations.

use vstd::prelude::*;
use crate::text::{ascii_fold, trim, lemma_trim_idempotent};
use crate::messages::ServerEvent;
use crate::session::{SocketInput, SocketAction, step_effect};
use crate::state::{
    SessionView, Member, cast_votes, visible_votes, join_error, name_error, vote_error,
    is_stored_name, lemma_index_of_unique,
};

verus! {

/// The first participant to join a session becomes its host; anyone who
/// joins later leaves the host unchanged.
pub proof fn lemma_first_joiner_becomes_host(s: SessionView, id: Seq<char>, name: Seq<char>)
    requires
        s.wf(),
    ensures
        s.members.len() == 0 ==> s.joined(id, name).host == Some(id),
        s.members.len() > 0 ==> s.joined(id, name).host == s.host,
{
}

/// When the host leaves and others remain, the host role passes to one of the
/// remaining participants; when nobody remains there is no host.
pub proof fn lemma_host_moves_to_remaining_participant(s: SessionView, id: Seq<char>)
    requires
        s.wf(),
        s.is_host(id),
    ensures
        s.left(id).members.len() == s.members.len() - 1,
        !s.left(id).has_member(id),
        s.left(id).members.len() == 0 ==> s.left(id).host is None,
        s.left(id).members.len() > 0 ==> (s.left(id).host matches Some(h) && h != id
            && s.left(id).has_member(h)),
{
    let i = s.index_of(id);
    let rest = s.members.remove(i);
    s.members.remove_ensures(i);
    assert(s.has_member(id));
    if exists|a: int| 0 <= a < rest.len() && (#[trigger] rest[a]).id == id {
        let a = choose|a: int| 0 <= a < rest.len() && (#[trigger] rest[a]).id == id;
        let a0 = if a < i { a } else { a + 1 };
        assert(rest[a] == s.members[a0]);
        if a0 < i {
            assert(s.members[a0].id != s.members[i].id);
        } else {
            assert(s.members[i].id != s.members[a0].id);
        }
    }
    if rest.len() > 0 {
        assert(rest[0].id != id);
    }
}

/// A display name is free again once its holder has left: the same name can
/// join again.
pub proof fn lemma_name_can_rejoin_after_leaving(s: SessionView, id: Seq<char>)
    requires
        s.wf(),
        s.has_member(id),
    ensures
        join_error(s.left(id), s.members[s.index_of(id)].name) is None,
{
    let i = s.index_of(id);
    let n = s.members[i].name;
    let rest = s.members.remove(i);
    s.members.remove_ensures(i);
    assert(is_stored_name(n));
    assert(name_error(n) is None);
    if s.left(id).name_taken(trim(n)) {
        let a = choose|a: int|
            0 <= a < rest.len() && ascii_fold((#[trigger] rest[a]).name) == ascii_fold(trim(n));
        let a0 = if a < i { a } else { a + 1 };
        assert(rest[a] == s.members[a0]);
        if a0 < i {
            assert(ascii_fold(s.members[a0].name) != ascii_fold(s.members[i].name));
        } else {
            assert(ascii_fold(s.members[i].name) != ascii_fold(s.members[a0].name));
        }
    }
}

proof fn lemma_cast_votes_has_member_vote(ms: Seq<Member>, i: int)
    requires
        0 <= i < ms.len(),
        ms[i].vote is Some,
    ensures
        cast_votes(ms).contains((ms[i].name, ms[i].vote->0)),
    decreases ms.len(),
{
    let rest = cast_votes(ms.drop_last());
    if i == ms.len() - 1 {
        assert(cast_votes(ms) == rest.push((ms[i].name, ms[i].vote->0)));
        assert(cast_votes(ms)[rest.len() as int] == (ms[i].name, ms[i].vote->0));
    } else {
        lemma_cast_votes_has_member_vote(ms.drop_last(), i);
        let k = choose|k: int| 0 <= k < rest.len() && rest[k] == (ms[i].name, ms[i].vote->0);
        match ms.last().vote {
            Some(v) => {
                assert(cast_votes(ms)[k] == rest[k]);
            },
            None => {},
        }
    }
}

/// What a participant votes stays hidden until the votes are revealed, and
/// is shown, under the participant's name, once they are.
pub proof fn lemma_vote_shown_only_after_reveal(s: SessionView, id: Seq<char>, card: Seq<char>)
    requires
        s.wf(),
        vote_error(s, id, card) is None,
    ensures
        !s.revealed ==> visible_votes(s.voted(id, card)) == Seq::<(Seq<char>, Seq<char>)>::empty(),
        visible_votes(s.voted(id, card).with_votes_revealed()).contains(
            (s.members[s.index_of(id)].name, card),
        ),
{
    let i = s.index_of(id);
    let t = s.voted(id, card);
    assert(t.members[i].vote == Some(card));
    assert(t.members[i].name == s.members[i].name);
    lemma_cast_votes_has_member_vote(t.members, i);
}

/// A participant who votes again replaces its earlier vote of the round.
pub proof fn lemma_second_vote_replaces_first(
    s: SessionView,
    id: Seq<char>,
    first: Seq<char>,
    second: Seq<char>,
)
    requires
        s.wf(),
        s.has_member(id),
    ensures
        s.voted(id, first).voted(id, second) == s.voted(id, second),
{
    let i = s.index_of(id);
    let t = s.voted(id, first);
    lemma_index_of_unique(s, id, i);
    assert(t.members[i].id == id);
    assert(t.has_member(id));
    let j = t.index_of(id);
    if j != i {
        assert(t.members[j] == s.members[j]);
        if j < i {
            assert(s.members[j].id != s.members[i].id);
        } else {
            assert(s.members[i].id != s.members[j].id);
        }
    }
    assert(t.voted(id, second).members =~= s.voted(id, second).members);
}

/// After a round reset nobody has a vote and nothing is revealed, while the
/// participants, the host and the topic stay as they were.
pub proof fn lemma_reset_clears_every_vote(s: SessionView)
    ensures
        !s.round_reset().revealed,
        visible_votes(s.round_reset()) == Seq::<(Seq<char>, Seq<char>)>::empty(),
        s.round_reset().members.len() == s.members.len(),
        forall|i: int|
            0 <= i < s.members.len() ==> (#[trigger] s.round_reset().members[i]).vote is None
                && s.round_reset().members[i].id == s.members[i].id
                && s.round_reset().members[i].name == s.members[i].name,
        s.round_reset().host == s.host,
        s.round_reset().topic == s.topic,
{
}

/// Normalizing an already normalized name or topic changes nothing.
pub proof fn lemma_normalizing_twice_is_normalizing_once(text: Seq<char>)
    ensures
        trim(trim(text)) == trim(text),
{
    lemma_trim_idempotent(text);
}


/// After a join, looking the new session id up gives the joined participant
/// under the name it joined with.
pub proof fn lemma_joined_participant_is_found(s: SessionView, id: Seq<char>, name: Seq<char>)
    requires
        s.wf(),
    ensures
        s.joined(id, name).has_member(id),
        s.joined(id, name).members[s.joined(id, name).index_of(id)].name == name,
{
    let t = s.joined(id, name);
    let i = if s.has_member(id) {
        s.index_of(id)
    } else {
        s.members.len() as int
    };
    assert(t.members[i].id == id);
    assert(t.members[i].name == name);
    assert(t.has_member(id));
    let j = t.index_of(id);
    if j != i {
        assert(t.members[j] == s.members[j]);
        if s.has_member(id) {
            if j < i {
                assert(s.members[j].id != s.members[i].id);
            } else {
                assert(s.members[i].id != s.members[j].id);
            }
        } else {
            assert(s.members[j].id == id);
        }
    }
}


/// Whether `input` is a broadcast, a ping or a frame that is neither a
/// request nor the end of the stream.
pub open spec fn is_passive_input(input: SocketInput) -> bool {
    ||| input is Broadcast
    ||| input is Ping
    ||| input is OtherFrame
}

/// The events of the broadcasts among `inputs`, in order.
pub open spec fn broadcast_events(inputs: Seq<SocketInput>) -> Seq<ServerEvent>
    decreases inputs.len(),
{
    if inputs.len() == 0 {
        Seq::empty()
    } else {
        let rest = broadcast_events(inputs.drop_last());
        match inputs.last() {
            SocketInput::Broadcast(e) => rest.push(e),
            _ => rest,
        }
    }
}

/// The events that `actions` send to the client, in order.
pub open spec fn sent_events(actions: Seq<SocketAction>) -> Seq<ServerEvent>
    decreases actions.len(),
{
    if actions.len() == 0 {
        Seq::empty()
    } else {
        let rest = sent_events(actions.drop_last());
        match actions.last() {
            SocketAction::Send(e) => rest.push(e),
            _ => rest,
        }
    }
}

/// The payloads of the pings among `inputs`, in order.
pub open spec fn ping_payloads(inputs: Seq<SocketInput>) -> Seq<Seq<u8>>
    decreases inputs.len(),
{
    if inputs.len() == 0 {
        Seq::empty()
    } else {
        let rest = ping_payloads(inputs.drop_last());
        match inputs.last() {
            SocketInput::Ping(p) => rest.push(p@),
            _ => rest,
        }
    }
}

/// The payloads of the pongs among `actions`, in order.
pub open spec fn pong_payloads(actions: Seq<SocketAction>) -> Seq<Seq<u8>>
    decreases actions.len(),
{
    if actions.len() == 0 {
        Seq::empty()
    } else {
        let rest = pong_payloads(actions.drop_last());
        match actions.last() {
            SocketAction::Pong(p) => rest.push(p@),
            _ => rest,
        }
    }
}

/// Over a run of connection steps that receive only broadcasts, pings and
/// other non-request frames, the session does not change, the client is sent
/// exactly the broadcast events in the order they were broadcast, every ping
/// is answered by exactly one pong with the same payload, in order, and
/// nothing else is sent. `states[i]` and `actions[i]` are the session before
/// step `i` and the action of that step.
pub proof fn lemma_broadcasts_forwarded_in_order(
    id: Seq<char>,
    inputs: Seq<SocketInput>,
    states: Seq<SessionView>,
    actions: Seq<SocketAction>,
)
    requires
        states.len() == inputs.len() + 1,
        actions.len() == inputs.len(),
        forall|i: int| 0 <= i < inputs.len() ==> is_passive_input(#[trigger] inputs[i]),
        forall|i: int|
            0 <= i < inputs.len() ==> step_effect(
                states[i],
                id,
                #[trigger] inputs[i],
                states[i + 1],
                actions[i],
            ),
    ensures
        forall|i: int| 0 <= i < states.len() ==> #[trigger] states[i] == states[0],
        sent_events(actions) == broadcast_events(inputs),
        pong_payloads(actions) == ping_payloads(inputs),
        forall|i: int|
            0 <= i < actions.len() ==> (#[trigger] actions[i] is Send || actions[i] is Pong
                || actions[i] is Nothing),
    decreases inputs.len(),
{
    if inputs.len() > 0 {
        let n = inputs.len() - 1;
        let pi = inputs.drop_last();
        let ps = states.drop_last();
        let pa = actions.drop_last();
        assert forall|i: int| 0 <= i < pi.len() implies is_passive_input(#[trigger] pi[i]) by {
            assert(pi[i] == inputs[i]);
        }
        assert forall|i: int| 0 <= i < pi.len() implies step_effect(
            ps[i],
            id,
            #[trigger] pi[i],
            ps[i + 1],
            pa[i],
        ) by {
            assert(pi[i] == inputs[i]);
            assert(ps[i] == states[i]);
            assert(ps[i + 1] == states[i + 1]);
            assert(pa[i] == actions[i]);
        }
        lemma_broadcasts_forwarded_in_order(id, pi, ps, pa);
        assert(is_passive_input(inputs[n]));
        assert(step_effect(states[n], id, inputs[n], states[n + 1], actions[n]));
        assert(ps[n] == states[n]);
        assert forall|i: int| 0 <= i < states.len() implies #[trigger] states[i] == states[0] by {
            if i < states.len() - 1 {
                assert(ps[i] == states[i]);
            }
        }
        assert forall|i: int| 0 <= i < actions.len() implies (#[trigger] actions[i] is Send
            || actions[i] is Pong || actions[i] is Nothing) by {
            if i < n {
                assert(pa[i] == actions[i]);
            }
        }
    }
}


/// Joining adds or renames exactly the joining participant: the reveal flag
/// and the topic stay, everyone else keeps position, name and vote, a new
/// participant comes in without a vote at the end of the list, and the host
/// changes only when there was none.
pub proof fn lemma_join_touches_only_the_joiner(s: SessionView, id: Seq<char>, name: Seq<char>)
    requires
        s.wf(),
    ensures
        s.joined(id, name).revealed == s.revealed,
        s.joined(id, name).topic == s.topic,
        s.host is Some ==> s.joined(id, name).host == s.host,
        s.joined(id, name).members.len() == s.members.len() + (if s.has_member(id) {
            0int
        } else {
            1int
        }),
        forall|j: int|
            0 <= j < s.members.len() && s.members[j].id != id ==> #[trigger] s.joined(
                id,
                name,
            ).members[j] == s.members[j],
        !s.has_member(id) ==> s.joined(id, name).members.last() == (Member {
            id,
            name,
            vote: None,
        }),
        forall|m: Seq<char>| #[trigger]
            s.joined(id, name).has_member(m) <==> (s.has_member(m) || m == id),
{
    let t = s.joined(id, name);
    if s.has_member(id) {
        let i = s.index_of(id);
        assert forall|j: int|
            0 <= j < s.members.len() && s.members[j].id != id implies #[trigger] t.members[j]
            == s.members[j] by {
            assert(j != i);
        }
        assert forall|m: Seq<char>| #[trigger] t.has_member(m) <==> (s.has_member(m) || m == id) by {
            if s.has_member(m) {
                let k = choose|k: int| 0 <= k < s.members.len() && (#[trigger] s.members[k]).id == m;
                assert(t.members[k].id == m);
            }
            if t.has_member(m) {
                let k = choose|k: int| 0 <= k < t.members.len() && (#[trigger] t.members[k]).id == m;
                if k != i {
                    assert(s.members[k].id == m);
                }
            }
            if m == id {
                assert(t.members[i].id == id);
            }
        }
    } else {
        let n = s.members.len() as int;
        assert forall|m: Seq<char>| #[trigger] t.has_member(m) <==> (s.has_member(m) || m == id) by {
            if s.has_member(m) {
                let k = choose|k: int| 0 <= k < s.members.len() && (#[trigger] s.members[k]).id == m;
                assert(t.members[k].id == m);
            }
            if t.has_member(m) {
                let k = choose|k: int| 0 <= k < t.members.len() && (#[trigger] t.members[k]).id == m;
                if k != n {
                    assert(s.members[k].id == m);
                }
            }
            if m == id {
                assert(t.members[n].id == id);
            }
        }
    }
}

/// Leaving removes exactly the leaving participant, with its vote: the
/// others stay, with their names and votes; the reveal
/// flag and the topic stay; and the host stays unless the host is the one
/// who leaves.
pub proof fn lemma_leave_touches_only_the_leaver(s: SessionView, id: Seq<char>)
    requires
        s.wf(),
    ensures
        s.left(id).revealed == s.revealed,
        s.left(id).topic == s.topic,
        !s.is_host(id) ==> s.left(id).host == s.host,
        !s.has_member(id) ==> s.left(id) == s,
        s.has_member(id) ==> s.left(id).members.len() == s.members.len() - 1,
        !s.left(id).has_member(id),
        forall|m: Seq<char>| m != id ==> (#[trigger] s.left(id).has_member(m) <==> s.has_member(m)),
        forall|j: int|
            0 <= j < s.left(id).members.len() ==> s.members.contains(#[trigger] s.left(id).members[j]),
        forall|j: int|
            0 <= j < s.members.len() && s.members[j].id != id ==> s.left(id).members.contains(
                #[trigger] s.members[j],
            ),
{
    if s.has_member(id) {
        let i = s.index_of(id);
        let rest = s.members.remove(i);
        s.members.remove_ensures(i);
        assert(s.left(id).members == rest);
        assert forall|j: int| 0 <= j < rest.len() implies s.members.contains(#[trigger] rest[j]) by {
            let j0 = if j < i { j } else { j + 1 };
            assert(rest[j] == s.members[j0]);
        }
        assert forall|j: int|
            0 <= j < s.members.len() && s.members[j].id != id implies rest.contains(
            #[trigger] s.members[j],
        ) by {
            assert(j != i);
            let j1 = if j < i { j } else { j - 1 };
            assert(rest[j1] == s.members[j]);
        }
        assert forall|m: Seq<char>| #[trigger] s.left(id).has_member(m) implies m != id by {
            let k = choose|k: int| 0 <= k < rest.len() && (#[trigger] rest[k]).id == m;
            let k0 = if k < i { k } else { k + 1 };
            assert(rest[k] == s.members[k0]);
            if k0 < i {
                assert(s.members[k0].id != s.members[i].id);
            } else {
                assert(s.members[i].id != s.members[k0].id);
            }
        }
        assert forall|m: Seq<char>| m != id implies (#[trigger] s.left(id).has_member(m)
            <==> s.has_member(m)) by {
            if s.has_member(m) {
                let k = choose|k: int| 0 <= k < s.members.len() && (#[trigger] s.members[k]).id == m;
                assert(k != i);
                let k1 = if k < i { k } else { k - 1 };
                assert(rest[k1] == s.members[k]);
            }
            if s.left(id).has_member(m) {
                let k = choose|k: int| 0 <= k < rest.len() && (#[trigger] rest[k]).id == m;
                let k0 = if k < i { k } else { k + 1 };
                assert(rest[k] == s.members[k0]);
            }
        }
    } else {
        let t = s.left(id);
        assert forall|j: int| 0 <= j < t.members.len() implies s.members.contains(#[trigger] t.members[j]) by {
            assert(s.members[j] == t.members[j]);
        }
    }
}

/// A vote changes only the voter's own vote, which becomes the card: every
/// participant keeps id and name, everyone else keeps the vote, and the
/// reveal flag, the topic and the host stay.
pub proof fn lemma_vote_touches_only_the_voter(s: SessionView, id: Seq<char>, card: Seq<char>)
    requires
        s.wf(),
        s.has_member(id),
    ensures
        s.voted(id, card).revealed == s.revealed,
        s.voted(id, card).topic == s.topic,
        s.voted(id, card).host == s.host,
        s.voted(id, card).members.len() == s.members.len(),
        forall|j: int|
            0 <= j < s.members.len() ==> (#[trigger] s.voted(id, card).members[j]).id
                == s.members[j].id && s.voted(id, card).members[j].name == s.members[j].name,
        forall|j: int|
            0 <= j < s.members.len() && s.members[j].id == id ==> (#[trigger] s.voted(
                id,
                card,
            ).members[j]).vote == Some(card),
        forall|j: int|
            0 <= j < s.members.len() && s.members[j].id != id ==> #[trigger] s.voted(
                id,
                card,
            ).members[j] == s.members[j],
{
    let i = s.index_of(id);
    assert forall|j: int|
        0 <= j < s.members.len() && s.members[j].id == id implies (#[trigger] s.voted(
        id,
        card,
    ).members[j]).vote == Some(card) by {
        lemma_index_of_unique(s, id, j);
    }
}

/// A granted topic change sets the topic to the given text and changes
/// nothing else.
pub proof fn lemma_topic_change_sets_topic(s: SessionView, topic: Seq<char>)
    ensures
        s.with_topic(topic).topic == topic,
        s.with_topic(topic).members == s.members,
        s.with_topic(topic).revealed == s.revealed,
        s.with_topic(topic).host == s.host,
{
}

/// Revealing sets the reveal flag and changes nothing else; once revealed,
/// every cast vote is visible.
pub proof fn lemma_reveal_shows_every_cast_vote(s: SessionView)
    ensures
        s.with_votes_revealed().revealed,
        s.with_votes_revealed().members == s.members,
        s.with_votes_revealed().topic == s.topic,
        s.with_votes_revealed().host == s.host,
        visible_votes(s.with_votes_revealed()) == cast_votes(s.members),
{
}

} // verus!
