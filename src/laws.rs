//! What holds of every run of a connection.
use vstd::prelude::*;
use crate::history::{lemma_by_time, time_ordered};
use crate::model::{HistoryMessage, Id, User};
use crate::protocol::{ReceiveError, RequestMessage, ResponseMessage, ResponseView};
use crate::session::{close_now, transition, ActionView, CloseReason, Event, Phase};

verus! {

/// The phases and the work asked for along a sequence of events.
pub open spec fn run(room: Id, p: Phase, evs: Seq<Event>) -> (Phase, Seq<ActionView>)
    decreases evs.len(),
{
    if evs.len() == 0 {
        (p, Seq::empty())
    } else {
        let (q, a) = transition(room, p, evs[0]);
        let (last, rest) = run(room, q, evs.drop_first());
        (last, seq![a] + rest)
    }
}

/// How many membership removals the actions ask for.
pub open spec fn removals(acts: Seq<ActionView>) -> nat
    decreases acts.len(),
{
    if acts.len() == 0 {
        0
    } else {
        (if acts[0] is RemoveMember { 1nat } else { 0nat }) + removals(acts.drop_first())
    }
}

/// How many departures the actions broadcast.
pub open spec fn leave_notices(acts: Seq<ActionView>) -> nat
    decreases acts.len(),
{
    if acts.len() == 0 {
        0
    } else {
        (if acts[0] matches ActionView::Publish(ResponseView::Leave { .. }) {
            1nat
        } else {
            0nat
        }) + leave_notices(acts.drop_first())
    }
}

/// The connection has begun its teardown, or ended.
pub open spec fn tearing_down(p: Phase) -> bool {
    p is Leaving || p is Departing || p is Closed
}

proof fn lemma_removals_bounded(room: Id, p: Phase, evs: Seq<Event>)
    ensures
        removals(run(room, p, evs).1) <= if tearing_down(p) { 0nat } else { 1nat },
    decreases evs.len(),
{
    if evs.len() > 0 {
        let (q, a) = transition(room, p, evs[0]);
        lemma_removals_bounded(room, q, evs.drop_first());
        let acts = run(room, p, evs).1;
        assert(acts.drop_first() =~= run(room, q, evs.drop_first()).1);
    }
}

proof fn lemma_leave_notices_bounded(room: Id, p: Phase, evs: Seq<Event>)
    ensures
        leave_notices(run(room, p, evs).1) <= if p is Departing || p is Closed {
            0nat
        } else {
            1nat
        },
    decreases evs.len(),
{
    if evs.len() > 0 {
        let (q, a) = transition(room, p, evs[0]);
        lemma_leave_notices_bounded(room, q, evs.drop_first());
        let acts = run(room, p, evs).1;
        assert(acts.drop_first() =~= run(room, q, evs.drop_first()).1);
    }
}

/// Whatever events a connection meets, it asks at most once to remove its
/// membership and broadcasts its departure at most once.
pub proof fn law_leave_at_most_once(room: Id, p: Phase, evs: Seq<Event>)
    ensures
        removals(run(room, p, evs).1) <= 1,
        leave_notices(run(room, p, evs).1) <= 1,
{
    lemma_removals_bounded(room, p, evs);
    lemma_leave_notices_bounded(room, p, evs);
}

/// A joined connection whose transport fails asks at once to remove its
/// membership, and over the whole of what follows asks for that exactly once
/// and announces its departure at most once.
pub proof fn law_transport_failure_removes_membership_once(
    room: Id,
    user: User,
    rest: Seq<Event>,
)
    ensures
        ({
            let acts = run(
                room,
                Phase::Active { user },
                seq![Event::Frame(Err(ReceiveError::Transport))] + rest,
            ).1;
            &&& acts[0] == (ActionView::RemoveMember { room, user: user.id })
            &&& removals(acts) == 1
            &&& leave_notices(acts) <= 1
        }),
{
    let evs = seq![Event::Frame(Err(ReceiveError::Transport))] + rest;
    let q = Phase::Leaving { user, reason: CloseReason::Transport };
    assert(evs[0] == Event::Frame(Err(ReceiveError::Transport)));
    assert(evs.drop_first() =~= rest);
    lemma_removals_bounded(room, q, rest);
    lemma_leave_notices_bounded(room, Phase::Active { user }, evs);
    let acts = run(room, Phase::Active { user }, evs).1;
    assert(acts.drop_first() =~= run(room, q, rest).1);
}

/// Removing a membership that was already gone ends the connection with no
/// broadcast: leaving twice announces nothing twice.
pub proof fn law_leave_without_membership_is_silent(room: Id, user: User, reason: CloseReason)
    ensures
        transition(room, Phase::Leaving { user, reason }, Event::Removed(0)) == close_now(reason),
{
}

/// A client message is broadcast only by the step that answers the store's
/// acceptance of that very message, under its author's name.
pub proof fn law_message_persisted_before_broadcast(room: Id, p: Phase, ev: Event)
    requires
        transition(room, p, ev).1 matches ActionView::Publish(ResponseView::Message { .. }),
    ensures
        p matches Phase::Storing { user, content } && ev is Stored && transition(room, p, ev).1
            == ActionView::Publish(ResponseView::Message { username: user.username, content }),
{
}

/// A joined connection stores each client message as received, under its
/// author, before anything else happens to it.
pub proof fn law_message_stored_as_received(room: Id, user: User, content: String)
    ensures
        transition(
            room,
            Phase::Active { user },
            Event::Frame(Ok(RequestMessage::Message { content })),
        ) == (Phase::Storing { user, content }, ActionView::Append {
            room,
            author: user.id,
            content,
        }),
{
}

/// The events of a subscriber that keeps up: each broadcast event, then the
/// success of its send.
pub open spec fn relay_events(ms: Seq<ResponseMessage>) -> Seq<Event>
    decreases ms.len(),
{
    if ms.len() == 0 {
        Seq::empty()
    } else {
        seq![Event::Broadcast(Ok(ms[0])), Event::Sent(true)] + relay_events(ms.drop_first())
    }
}

/// Each event sent on, then a wait for the next.
pub open spec fn relay_actions(ms: Seq<ResponseMessage>) -> Seq<ActionView>
    decreases ms.len(),
{
    if ms.len() == 0 {
        Seq::empty()
    } else {
        seq![ActionView::Send(ms[0]@), ActionView::Wait] + relay_actions(ms.drop_first())
    }
}

/// A joined connection that never lags sends its client every broadcast
/// event it receives, each once, in the order received, and stays joined.
pub proof fn law_relay_in_publish_order(room: Id, user: User, ms: Seq<ResponseMessage>)
    ensures
        run(room, Phase::Active { user }, relay_events(ms)) == (
            Phase::Active { user },
            relay_actions(ms),
        ),
    decreases ms.len(),
{
    if ms.len() > 0 {
        let evs = relay_events(ms);
        let tail = relay_events(ms.drop_first());
        law_relay_in_publish_order(room, user, ms.drop_first());
        assert(evs[0] == Event::Broadcast(Ok(ms[0])));
        assert(evs.drop_first()[0] == Event::Sent(true));
        assert(evs.drop_first().drop_first() =~= tail);
        let inner = run(room, Phase::Forwarding { user }, evs.drop_first());
        assert(inner.1 =~= seq![ActionView::Wait] + relay_actions(ms.drop_first()));
        assert(run(room, Phase::Active { user }, evs).1 =~= relay_actions(ms));
    }
}

/// Before a join is read, no event leads to a store or broadcast call: the
/// connection only resolves a token, waits, or closes.
pub proof fn law_nothing_recorded_before_join(room: Id, ev: Event)
    ensures
        ({
            let a = transition(room, Phase::AwaitingJoin, ev).1;
            a is ResolveToken || a is Wait || a is Close
        }),
{
}

/// The history a joining client is sent is ordered by creation instant and
/// holds exactly the stored entries.
pub proof fn law_history_time_ordered(
    room: Id,
    user: User,
    users: Vec<User>,
    messages: Vec<HistoryMessage>,
)
    ensures
        transition(room, Phase::Loading { user }, Event::Loaded { users, messages }).1 matches ActionView::Send(
            ResponseView::History { messages: sent, .. },
        ) && time_ordered(sent) && sent.to_multiset() == messages@.to_multiset(),
{
    lemma_by_time(messages@);
}

/// The handshake has not yet sent the history.
pub open spec fn before_greeting(p: Phase) -> bool {
    p is AwaitingJoin || p is Authenticating || p is Registering || p is Announcing || p is Loading
}

/// Every send before index `k` is absent.
pub open spec fn no_send_before(acts: Seq<ActionView>, k: int) -> bool {
    forall|j: int| 0 <= j < k ==> !(#[trigger] acts[j] is Send)
}

/// The first send among the actions, if any, is a history.
pub open spec fn first_send_is_history(acts: Seq<ActionView>) -> bool {
    forall|k: int|
        0 <= k < acts.len() && #[trigger] acts[k] is Send && no_send_before(acts, k)
            ==> acts[k] matches ActionView::Send(ResponseView::History { .. })
}

proof fn lemma_first_send_is_history(room: Id, p: Phase, evs: Seq<Event>)
    requires
        before_greeting(p) || tearing_down(p),
    ensures
        first_send_is_history(run(room, p, evs).1),
        tearing_down(p) ==> forall|k: int|
            0 <= k < run(room, p, evs).1.len() ==> !(#[trigger] run(room, p, evs).1[k] is Send),
    decreases evs.len(),
{
    if evs.len() > 0 {
        let (q, a) = transition(room, p, evs[0]);
        let acts = run(room, p, evs).1;
        let tail = run(room, q, evs.drop_first()).1;
        assert(acts =~= seq![a] + tail);
        if before_greeting(q) || tearing_down(q) {
            lemma_first_send_is_history(room, q, evs.drop_first());
            assert forall|k: int|
                0 <= k < acts.len() && #[trigger] acts[k] is Send && no_send_before(acts, k)
                implies acts[k] matches ActionView::Send(ResponseView::History { .. }) by {
                if k > 0 {
                    assert(acts[k] == tail[k - 1]);
                    assert forall|j: int| 0 <= j < k - 1 implies !(#[trigger] tail[j] is Send) by {
                        assert(tail[j] == acts[j + 1]);
                    }
                    assert(no_send_before(tail, k - 1));
                }
            }
        } else {
            assert(a matches ActionView::Send(ResponseView::History { .. }));
            assert forall|k: int|
                0 <= k < acts.len() && #[trigger] acts[k] is Send && no_send_before(acts, k)
                implies acts[k] matches ActionView::Send(ResponseView::History { .. }) by {
                if k > 0 {
                    assert(acts[0] is Send);
                }
            }
        }
    }
}

/// From a fresh connection, the first event sent to the client, whatever
/// happens, is the room's history.
pub proof fn law_history_sent_first(room: Id, evs: Seq<Event>)
    ensures
        first_send_is_history(run(room, Phase::AwaitingJoin, evs).1),
{
    lemma_first_send_is_history(room, Phase::AwaitingJoin, evs);
}

} // verus!
