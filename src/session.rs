//! The life of one client connection: handshake, relay and teardown, as a
//! state machine. Each step takes the outcome of the work last asked for and
//! says what to do next; the caller performs that work.
use vstd::prelude::*;
use crate::history::{by_time, order_history};
use crate::model::{HistoryMessage, Id, User};
use crate::protocol::{ReceiveError, RequestMessage, ResponseMessage, ResponseView};

verus! {

/// Why a connection ended.
#[derive(Clone, Copy, Debug, PartialEq, Eq, Structural)]
pub enum CloseReason {
    /// The client closed the stream.
    Finished,
    /// The client broke the protocol: a bad frame, or an event out of turn.
    Protocol,
    /// The session token named no user.
    Auth,
    /// The connection failed under a read or a send.
    Transport,
    /// A store operation failed.
    Store,
    /// The connection fell behind the room broadcast.
    Lag,
    /// The room broadcast could not take or give an event.
    Broadcast,
}

/// Why the room broadcast gave no event.
#[derive(Clone, Copy, Debug, PartialEq, Eq, Structural)]
pub enum BroadcastError {
    /// Events were dropped because this subscriber fell behind.
    Lagged,
    /// The broadcast has no sender left.
    Closed,
}

/// Where a connection stands.
#[derive(Clone, Debug)]
pub enum Phase {
    /// Nothing read yet: only a join is accepted.
    AwaitingJoin,
    /// The join's token is being resolved to a user.
    Authenticating,
    /// The user's room membership is being recorded.
    Registering { user: User },
    /// The user's arrival is being broadcast.
    Announcing { user: User },
    /// The room's members and history are being fetched; the history sent
    /// lists the members other than the joining user.
    Loading { user: User },
    /// The history is being sent to the client.
    Greeting { user: User },
    /// Joined and idle: waiting for a client event or a broadcast event.
    Active { user: User },
    /// A client message is being appended to the history.
    Storing { user: User, content: String },
    /// A stored client message is being broadcast.
    Relaying { user: User },
    /// A broadcast event is being sent to the client.
    Forwarding { user: User },
    /// The user's room membership is being removed.
    Leaving { user: User, reason: CloseReason },
    /// The user's departure is being broadcast.
    Departing { reason: CloseReason },
    /// The connection is over.
    Closed { reason: CloseReason },
}

/// The outcome of the work last asked for, or an event from the client or
/// the room broadcast.
#[derive(Debug)]
pub enum Event {
    /// A read from the client.
    Frame(Result<RequestMessage, ReceiveError>),
    /// The user that a token names, if any.
    Identity(Option<User>),
    /// A store write succeeded.
    Stored,
    /// A store operation failed.
    StoreFailed,
    /// The room's members and history.
    Loaded { users: Vec<User>, messages: Vec<HistoryMessage> },
    /// Whether the broadcast took an event.
    Published(bool),
    /// Whether the client was sent an event.
    Sent(bool),
    /// A receive from the room broadcast.
    Broadcast(Result<ResponseMessage, BroadcastError>),
    /// The number of membership rows that a removal deleted.
    Removed(u64),
}

/// The work that a connection asks for next.
#[derive(Clone, Debug)]
pub enum Action {
    /// Wait for a client event or a broadcast event.
    Wait,
    /// Look up the user that a session token names.
    ResolveToken { token: Id },
    /// Record that a user is in a room.
    AddMember { room: Id, user: Id },
    /// Fetch a room's members and its message history.
    Load { room: Id },
    /// Broadcast an event to the room.
    Publish(ResponseMessage),
    /// Send an event to this client.
    Send(ResponseMessage),
    /// Append a message to a room's history.
    Append { room: Id, author: Id, content: String },
    /// Delete a user's membership of a room.
    RemoveMember { room: Id, user: Id },
    /// Drop the connection.
    Close(CloseReason),
}

/// What an `Action` asks for, with its events as views.
pub enum ActionView {
    Wait,
    ResolveToken { token: Id },
    AddMember { room: Id, user: Id },
    Load { room: Id },
    Publish(ResponseView),
    Send(ResponseView),
    Append { room: Id, author: Id, content: String },
    RemoveMember { room: Id, user: Id },
    Close(CloseReason),
}

impl View for Action {
    type V = ActionView;

    open spec fn view(&self) -> ActionView {
        match self {
            Action::Wait => ActionView::Wait,
            Action::ResolveToken { token } => ActionView::ResolveToken { token: *token },
            Action::AddMember { room, user } => ActionView::AddMember { room: *room, user: *user },
            Action::Load { room } => ActionView::Load { room: *room },
            Action::Publish(m) => ActionView::Publish(m@),
            Action::Send(m) => ActionView::Send(m@),
            Action::Append { room, author, content } => ActionView::Append {
                room: *room,
                author: *author,
                content: *content,
            },
            Action::RemoveMember { room, user } => ActionView::RemoveMember {
                room: *room,
                user: *user,
            },
            Action::Close(reason) => ActionView::Close(*reason),
        }
    }
}

/// The users other than the one identified by `me`, in their given order.
pub open spec fn others(us: Seq<User>, me: Id) -> Seq<User>
    decreases us.len(),
{
    if us.len() == 0 {
        us
    } else if us.last().id == me {
        others(us.drop_last(), me)
    } else {
        others(us.drop_last(), me).push(us.last())
    }
}

/// The users other than the one identified by `me`, in their given order.
pub fn without_user(users: &Vec<User>, me: Id) -> (r: Vec<User>)
    ensures
        r@ == others(users@, me),
{
    let mut out: Vec<User> = Vec::new();
    let mut i: usize = 0;
    while i < users.len()
        invariant
            i <= users.len(),
            out@ == others(users@.take(i as int), me),
        decreases users.len() - i,
    {
        proof {
            let t = users@.take(i + 1);
            assert(t.drop_last() =~= users@.take(i as int));
            assert(t.last() == users@[i as int]);
        }
        if users[i].id != me {
            out.push(users[i].duplicate());
        }
        i = i + 1;
    }
    assert(users@.take(users.len() as int) =~= users@);
    out
}

/// The close reason for a failed read from the client.
pub open spec fn receive_reason(e: ReceiveError) -> CloseReason {
    match e {
        ReceiveError::StreamClosed => CloseReason::Finished,
        ReceiveError::Transport => CloseReason::Transport,
        ReceiveError::Decode(_) => CloseReason::Protocol,
    }
}

/// End the connection at once: nothing was recorded for it.
pub open spec fn close_now(reason: CloseReason) -> (Phase, ActionView) {
    (Phase::Closed { reason }, ActionView::Close(reason))
}

/// Begin the teardown of a joined user: remove the membership first.
pub open spec fn begin_leave(room: Id, user: User, reason: CloseReason) -> (Phase, ActionView) {
    (Phase::Leaving { user, reason }, ActionView::RemoveMember { room, user: user.id })
}

/// The next phase, and the work asked for, when a connection in room `room`
/// and phase `p` meets event `ev`. An event that answers nothing asked for in
/// `p` changes nothing and asks for nothing.
pub open spec fn transition(room: Id, p: Phase, ev: Event) -> (Phase, ActionView) {
    match p {
        Phase::AwaitingJoin => match ev {
            Event::Frame(Ok(RequestMessage::Join { token })) => (
                Phase::Authenticating,
                ActionView::ResolveToken { token },
            ),
            Event::Frame(Ok(RequestMessage::Message { .. })) => close_now(CloseReason::Protocol),
            Event::Frame(Err(e)) => close_now(receive_reason(e)),
            _ => (p, ActionView::Wait),
        },
        Phase::Authenticating => match ev {
            Event::Identity(Some(user)) => (
                Phase::Registering { user },
                ActionView::AddMember { room, user: user.id },
            ),
            Event::Identity(None) => close_now(CloseReason::Auth),
            Event::StoreFailed => close_now(CloseReason::Store),
            _ => (p, ActionView::Wait),
        },
        Phase::Registering { user } => match ev {
            Event::Stored => (
                Phase::Announcing { user },
                ActionView::Publish(ResponseView::Join { user }),
            ),
            Event::StoreFailed => close_now(CloseReason::Store),
            _ => (p, ActionView::Wait),
        },
        Phase::Announcing { user } => match ev {
            Event::Published(true) => (Phase::Loading { user }, ActionView::Load { room }),
            Event::Published(false) => begin_leave(room, user, CloseReason::Broadcast),
            _ => (p, ActionView::Wait),
        },
        Phase::Loading { user } => match ev {
            Event::Loaded { users, messages } => (
                Phase::Greeting { user },
                ActionView::Send(
                    ResponseView::History {
                        messages: by_time(messages@),
                        users: others(users@, user.id),
                    },
                ),
            ),
            Event::StoreFailed => begin_leave(room, user, CloseReason::Store),
            _ => (p, ActionView::Wait),
        },
        Phase::Greeting { user } => match ev {
            Event::Sent(true) => (Phase::Active { user }, ActionView::Wait),
            Event::Sent(false) => begin_leave(room, user, CloseReason::Transport),
            _ => (p, ActionView::Wait),
        },
        Phase::Active { user } => match ev {
            Event::Frame(Ok(RequestMessage::Message { content })) => (
                Phase::Storing { user, content },
                ActionView::Append { room, author: user.id, content },
            ),
            Event::Frame(Ok(RequestMessage::Join { .. })) => begin_leave(
                room,
                user,
                CloseReason::Protocol,
            ),
            Event::Frame(Err(e)) => begin_leave(room, user, receive_reason(e)),
            Event::Broadcast(Ok(m)) => (Phase::Forwarding { user }, ActionView::Send(m@)),
            Event::Broadcast(Err(BroadcastError::Lagged)) => begin_leave(
                room,
                user,
                CloseReason::Lag,
            ),
            Event::Broadcast(Err(BroadcastError::Closed)) => begin_leave(
                room,
                user,
                CloseReason::Broadcast,
            ),
            _ => (p, ActionView::Wait),
        },
        Phase::Storing { user, content } => match ev {
            Event::Stored => (
                Phase::Relaying { user },
                ActionView::Publish(ResponseView::Message { username: user.username, content }),
            ),
            Event::StoreFailed => begin_leave(room, user, CloseReason::Store),
            _ => (p, ActionView::Wait),
        },
        Phase::Relaying { user } => match ev {
            Event::Published(true) => (Phase::Active { user }, ActionView::Wait),
            Event::Published(false) => begin_leave(room, user, CloseReason::Broadcast),
            _ => (p, ActionView::Wait),
        },
        Phase::Forwarding { user } => match ev {
            Event::Sent(true) => (Phase::Active { user }, ActionView::Wait),
            Event::Sent(false) => begin_leave(room, user, CloseReason::Transport),
            _ => (p, ActionView::Wait),
        },
        Phase::Leaving { user, reason } => match ev {
            Event::Removed(n) => if n > 0 {
                (Phase::Departing { reason }, ActionView::Publish(ResponseView::Leave { user }))
            } else {
                close_now(reason)
            },
            Event::StoreFailed => close_now(reason),
            _ => (p, ActionView::Wait),
        },
        Phase::Departing { reason } => match ev {
            Event::Published(_) => close_now(reason),
            _ => (p, ActionView::Wait),
        },
        Phase::Closed { reason } => (p, ActionView::Close(reason)),
    }
}

/// One client connection to one room.
#[derive(Clone, Debug)]
pub struct Session {
    pub room: Id,
    pub phase: Phase,
}

impl Session {
    /// A connection to `room` that has read nothing yet.
    pub fn new(room: Id) -> (r: Session)
        ensures
            r.room == room,
            r.phase == Phase::AwaitingJoin,
    {
        Session { room, phase: Phase::AwaitingJoin }
    }

    /// Whether the connection is over.
    pub fn is_closed(&self) -> (r: bool)
        ensures
            r == self.phase is Closed,
    {
        match self.phase {
            Phase::Closed { .. } => true,
            _ => false,
        }
    }

    /// Takes one event and returns the work to do next.
    pub fn step(&mut self, ev: Event) -> (r: Action)
        ensures
            final(self).room == old(self).room,
            (final(self).phase, r@) == transition(old(self).room, old(self).phase, ev),
    {
        let room = self.room;
        let mut phase = Phase::AwaitingJoin;
        std::mem::swap(&mut phase, &mut self.phase);
        let (next, action) = match phase {
            Phase::AwaitingJoin => match ev {
                Event::Frame(Ok(RequestMessage::Join { token })) => (
                    Phase::Authenticating,
                    Action::ResolveToken { token },
                ),
                Event::Frame(Ok(RequestMessage::Message { .. })) => close(CloseReason::Protocol),
                Event::Frame(Err(e)) => close(reason_of(e)),
                _ => (Phase::AwaitingJoin, Action::Wait),
            },
            Phase::Authenticating => match ev {
                Event::Identity(Some(user)) => {
                    let id = user.id;
                    (Phase::Registering { user }, Action::AddMember { room, user: id })
                },
                Event::Identity(None) => close(CloseReason::Auth),
                Event::StoreFailed => close(CloseReason::Store),
                _ => (Phase::Authenticating, Action::Wait),
            },
            Phase::Registering { user } => match ev {
                Event::Stored => {
                    let joined = user.duplicate();
                    (
                        Phase::Announcing { user },
                        Action::Publish(ResponseMessage::Join { user: joined }),
                    )
                },
                Event::StoreFailed => close(CloseReason::Store),
                _ => (Phase::Registering { user }, Action::Wait),
            },
            Phase::Announcing { user } => match ev {
                Event::Published(true) => (Phase::Loading { user }, Action::Load { room }),
                Event::Published(false) => leave(room, user, CloseReason::Broadcast),
                _ => (Phase::Announcing { user }, Action::Wait),
            },
            Phase::Loading { user } => match ev {
                Event::Loaded { users, messages } => {
                    let ordered = order_history(messages);
                    let present = without_user(&users, user.id);
                    (
                        Phase::Greeting { user },
                        Action::Send(
                            ResponseMessage::History { messages: ordered, users: present },
                        ),
                    )
                },
                Event::StoreFailed => leave(room, user, CloseReason::Store),
                _ => (Phase::Loading { user }, Action::Wait),
            },
            Phase::Greeting { user } => match ev {
                Event::Sent(true) => (Phase::Active { user }, Action::Wait),
                Event::Sent(false) => leave(room, user, CloseReason::Transport),
                _ => (Phase::Greeting { user }, Action::Wait),
            },
            Phase::Active { user } => match ev {
                Event::Frame(Ok(RequestMessage::Message { content })) => {
                    let author = user.id;
                    let text = content.clone();
                    (
                        Phase::Storing { user, content },
                        Action::Append { room, author, content: text },
                    )
                },
                Event::Frame(Ok(RequestMessage::Join { .. })) => leave(
                    room,
                    user,
                    CloseReason::Protocol,
                ),
                Event::Frame(Err(e)) => leave(room, user, reason_of(e)),
                Event::Broadcast(Ok(m)) => (Phase::Forwarding { user }, Action::Send(m)),
                Event::Broadcast(Err(BroadcastError::Lagged)) => leave(
                    room,
                    user,
                    CloseReason::Lag,
                ),
                Event::Broadcast(Err(BroadcastError::Closed)) => leave(
                    room,
                    user,
                    CloseReason::Broadcast,
                ),
                _ => (Phase::Active { user }, Action::Wait),
            },
            Phase::Storing { user, content } => match ev {
                Event::Stored => {
                    let username = user.username.clone();
                    (
                        Phase::Relaying { user },
                        Action::Publish(ResponseMessage::Message { username, content }),
                    )
                },
                Event::StoreFailed => leave(room, user, CloseReason::Store),
                _ => (Phase::Storing { user, content }, Action::Wait),
            },
            Phase::Relaying { user } => match ev {
                Event::Published(true) => (Phase::Active { user }, Action::Wait),
                Event::Published(false) => leave(room, user, CloseReason::Broadcast),
                _ => (Phase::Relaying { user }, Action::Wait),
            },
            Phase::Forwarding { user } => match ev {
                Event::Sent(true) => (Phase::Active { user }, Action::Wait),
                Event::Sent(false) => leave(room, user, CloseReason::Transport),
                _ => (Phase::Forwarding { user }, Action::Wait),
            },
            Phase::Leaving { user, reason } => match ev {
                Event::Removed(n) => if n > 0 {
                    (Phase::Departing { reason }, Action::Publish(ResponseMessage::Leave { user }))
                } else {
                    close(reason)
                },
                Event::StoreFailed => close(reason),
                _ => (Phase::Leaving { user, reason }, Action::Wait),
            },
            Phase::Departing { reason } => match ev {
                Event::Published(_) => close(reason),
                _ => (Phase::Departing { reason }, Action::Wait),
            },
            Phase::Closed { reason } => (Phase::Closed { reason }, Action::Close(reason)),
        };
        self.phase = next;
        action
    }
}

fn reason_of(e: ReceiveError) -> (r: CloseReason)
    ensures
        r == receive_reason(e),
{
    match e {
        ReceiveError::StreamClosed => CloseReason::Finished,
        ReceiveError::Transport => CloseReason::Transport,
        ReceiveError::Decode(_) => CloseReason::Protocol,
    }
}

fn close(reason: CloseReason) -> (r: (Phase, Action))
    ensures
        (r.0, r.1@) == close_now(reason),
{
    (Phase::Closed { reason }, Action::Close(reason))
}

fn leave(room: Id, user: User, reason: CloseReason) -> (r: (Phase, Action))
    ensures
        (r.0, r.1@) == begin_leave(room, user, reason),
{
    let id = user.id;
    (Phase::Leaving { user, reason }, Action::RemoveMember { room, user: id })
}

} // verus!
