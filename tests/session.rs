use chat_relay::codec::encode;
use chat_relay::model::{HistoryMessage, Id, Timestamp, User};
use chat_relay::protocol::{ReceiveError, RequestMessage, ResponseMessage};
use chat_relay::session::{Action, BroadcastError, CloseReason, Event, Phase, Session};
use std::collections::VecDeque;

const ROOM: Id = Id { bits: 77 };

/// A room store and a broadcast, in memory, with the frames each connection was sent.
struct World {
    accounts: Vec<(Id, User)>,
    members: Vec<(Id, Id)>,
    history: Vec<(Id, HistoryMessage)>,
    clock: i64,
    queues: Vec<VecDeque<ResponseMessage>>,
    outbox: Vec<Vec<String>>,
    calls: usize,
    fail_sends: bool,
}

impl World {
    fn new() -> World {
        World {
            accounts: vec![
                (Id { bits: 101 }, user(1, "alice")),
                (Id { bits: 102 }, user(2, "bob")),
            ],
            members: vec![],
            history: vec![],
            clock: 1_000,
            queues: vec![],
            outbox: vec![],
            calls: 0,
            fail_sends: false,
        }
    }

    /// A new connection, subscribed to the broadcast.
    fn connect(&mut self) -> usize {
        self.queues.push(VecDeque::new());
        self.outbox.push(vec![]);
        self.queues.len() - 1
    }

    /// Feeds an event and performs what the session asks for until it waits
    /// or closes.
    fn drive(&mut self, c: usize, s: &mut Session, first: Event) -> Option<CloseReason> {
        let mut ev = first;
        loop {
            let action = s.step(ev);
            ev = match action {
                Action::Wait => return None,
                Action::Close(r) => return Some(r),
                Action::ResolveToken { token } => {
                    Event::Identity(self.accounts.iter().find(|a| a.0 == token).map(|a| a.1.clone()))
                }
                Action::AddMember { room, user } => {
                    self.calls += 1;
                    if self.members.contains(&(room, user)) {
                        Event::StoreFailed
                    } else {
                        self.members.push((room, user));
                        Event::Stored
                    }
                }
                Action::Load { room } => {
                    self.calls += 1;
                    let users = self
                        .members
                        .iter()
                        .filter(|m| m.0 == room)
                        .filter_map(|m| self.accounts.iter().find(|a| a.1.id == m.1))
                        .map(|a| a.1.clone())
                        .collect();
                    let messages =
                        self.history.iter().filter(|h| h.0 == room).map(|h| h.1.clone()).collect();
                    Event::Loaded { users, messages }
                }
                Action::Publish(m) => {
                    self.calls += 1;
                    for q in self.queues.iter_mut() {
                        q.push_back(m.clone());
                    }
                    Event::Published(true)
                }
                Action::Send(m) => {
                    if self.fail_sends {
                        Event::Sent(false)
                    } else {
                        self.outbox[c].push(encode(&m).unwrap());
                        Event::Sent(true)
                    }
                }
                Action::Append { room, author, content } => {
                    self.calls += 1;
                    let username = self.accounts.iter().find(|a| a.1.id == author).unwrap().1.username.clone();
                    self.clock += 1;
                    self.history.push((
                        room,
                        HistoryMessage { user_id: author, username, content, created_at: Timestamp { micros: self.clock } },
                    ));
                    Event::Stored
                }
                Action::RemoveMember { room, user } => {
                    self.calls += 1;
                    let before = self.members.len();
                    self.members.retain(|m| *m != (room, user));
                    Event::Removed((before - self.members.len()) as u64)
                }
            };
        }
    }

    /// Hands the connection every broadcast event queued for it.
    fn pump(&mut self, c: usize, s: &mut Session) {
        while let Some(m) = self.queues[c].pop_front() {
            if self.drive(c, s, Event::Broadcast(Ok(m))).is_some() {
                return;
            }
        }
    }
}

fn user(bits: u128, name: &str) -> User {
    User { id: Id { bits }, username: name.to_string() }
}

fn join(token: u128) -> Event {
    Event::Frame(Ok(RequestMessage::Join { token: Id { bits: token } }))
}

fn say(content: &str) -> Event {
    Event::Frame(Ok(RequestMessage::Message { content: content.to_string() }))
}

const ALICE: &str = r#"{"id":"00000000-0000-0000-0000-000000000001","username":"alice"}"#;
const BOB: &str = r#"{"id":"00000000-0000-0000-0000-000000000002","username":"bob"}"#;

#[test]
fn two_users_join_and_chat() {
    let mut w = World::new();
    let a = w.connect();
    let mut sa = Session::new(ROOM);
    assert_eq!(w.drive(a, &mut sa, join(101)), None);
    assert!(matches!(sa.phase, Phase::Active { ref user } if user.username == "alice"));
    assert_eq!(w.outbox[a], vec![r#"{"type":"History","messages":[],"users":[]}"#.to_string()]);
    w.pump(a, &mut sa);

    let b = w.connect();
    let mut sb = Session::new(ROOM);
    assert_eq!(w.drive(b, &mut sb, join(102)), None);
    w.pump(a, &mut sa);
    w.pump(b, &mut sb);
    let bob_joined = format!(r#"{{"type":"Join","user":{}}}"#, BOB);
    assert_eq!(w.outbox[a].last().unwrap(), &bob_joined);
    assert_eq!(
        w.outbox[b][0],
        format!(r#"{{"type":"History","messages":[],"users":[{}]}}"#, ALICE)
    );

    assert_eq!(w.drive(a, &mut sa, say("hi")), None);
    w.pump(a, &mut sa);
    w.pump(b, &mut sb);
    let hi = r#"{"type":"Message","username":"alice","content":"hi"}"#.to_string();
    assert_eq!(w.outbox[a].last().unwrap(), &hi);
    assert_eq!(w.outbox[b].last().unwrap(), &hi);

    let stored: Vec<&HistoryMessage> = w.history.iter().filter(|h| h.0 == ROOM).map(|h| &h.1).collect();
    assert_eq!(stored.len(), 1);
    assert_eq!(stored[0].content, "hi");
    assert_eq!(stored[0].user_id, Id { bits: 1 });
}

#[test]
fn message_before_join_is_a_protocol_error() {
    let mut w = World::new();
    let c = w.connect();
    let mut s = Session::new(ROOM);
    assert_eq!(w.drive(c, &mut s, say("hello?")), Some(CloseReason::Protocol));
    assert!(s.is_closed());
    assert!(w.members.is_empty());
    assert!(w.queues[c].is_empty());
    assert_eq!(w.calls, 0);
}

#[test]
fn unknown_token_is_an_auth_error() {
    let mut w = World::new();
    let c = w.connect();
    let mut s = Session::new(ROOM);
    assert_eq!(w.drive(c, &mut s, join(999)), Some(CloseReason::Auth));
    assert!(s.is_closed());
    assert_eq!(w.calls, 0);
    assert!(w.members.is_empty());
}

#[test]
fn bad_frame_or_closure_before_join_leaves_no_trace() {
    let mut w = World::new();
    let c = w.connect();
    let mut s = Session::new(ROOM);
    let bad = Event::Frame(Err(ReceiveError::Decode(chat_relay::protocol::DecodeError::MalformedPayload)));
    assert_eq!(w.drive(c, &mut s, bad), Some(CloseReason::Protocol));
    let mut s2 = Session::new(ROOM);
    assert_eq!(w.drive(c, &mut s2, Event::Frame(Err(ReceiveError::StreamClosed))), Some(CloseReason::Finished));
    assert_eq!(w.calls, 0);
}

#[test]
fn transport_failure_removes_membership_once() {
    let mut w = World::new();
    let a = w.connect();
    let b = w.connect();
    let mut sa = Session::new(ROOM);
    let mut sb = Session::new(ROOM);
    w.drive(a, &mut sa, join(101));
    w.drive(b, &mut sb, join(102));
    assert_eq!(w.members.len(), 2);
    w.queues[b].clear();
    assert_eq!(w.drive(a, &mut sa, Event::Frame(Err(ReceiveError::Transport))), Some(CloseReason::Transport));
    assert_eq!(w.members, vec![(ROOM, Id { bits: 2 })]);
    let leaves: Vec<_> = w.queues[b].iter().filter(|m| matches!(m, ResponseMessage::Leave { .. })).collect();
    assert_eq!(leaves.len(), 1);
    let calls = w.calls;
    assert_eq!(w.drive(a, &mut sa, Event::Frame(Err(ReceiveError::Transport))), Some(CloseReason::Transport));
    assert_eq!(w.drive(a, &mut sa, Event::Removed(1)), Some(CloseReason::Transport));
    assert_eq!(w.calls, calls);
    assert_eq!(w.queues[b].len(), 1);
}

#[test]
fn leaving_without_membership_broadcasts_nothing() {
    let mut s = Session {
        room: ROOM,
        phase: Phase::Leaving { user: user(1, "alice"), reason: CloseReason::Finished },
    };
    assert!(matches!(s.step(Event::Removed(0)), Action::Close(CloseReason::Finished)));
    assert!(s.is_closed());
}

#[test]
fn joined_user_leaving_is_announced() {
    let mut s = Session {
        room: ROOM,
        phase: Phase::Active { user: user(1, "alice") },
    };
    assert!(matches!(
        s.step(Event::Frame(Err(ReceiveError::StreamClosed))),
        Action::RemoveMember { room, user } if room == ROOM && user == Id { bits: 1 }
    ));
    assert!(matches!(
        s.step(Event::Removed(1)),
        Action::Publish(ResponseMessage::Leave { user }) if user.username == "alice"
    ));
    assert!(matches!(s.step(Event::Published(true)), Action::Close(CloseReason::Finished)));
}

#[test]
fn relayed_events_keep_publish_order() {
    let mut w = World::new();
    let c = w.connect();
    let mut s = Session::new(ROOM);
    w.drive(c, &mut s, join(101));
    w.queues[c].clear();
    let sent_before = w.outbox[c].len();
    for i in 0..5 {
        let m = ResponseMessage::Message { username: "x".to_string(), content: format!("m{}", i) };
        assert_eq!(w.drive(c, &mut s, Event::Broadcast(Ok(m))), None);
    }
    let got: Vec<String> = w.outbox[c][sent_before..].to_vec();
    let want: Vec<String> = (0..5)
        .map(|i| format!(r#"{{"type":"Message","username":"x","content":"m{}"}}"#, i))
        .collect();
    assert_eq!(got, want);
}

#[test]
fn lagging_subscriber_is_closed_with_lag() {
    let mut w = World::new();
    let c = w.connect();
    let mut s = Session::new(ROOM);
    w.drive(c, &mut s, join(101));
    assert_eq!(w.drive(c, &mut s, Event::Broadcast(Err(BroadcastError::Lagged))), Some(CloseReason::Lag));
    assert!(w.members.is_empty());
}

#[test]
fn message_is_stored_before_it_is_broadcast() {
    let mut s = Session { room: ROOM, phase: Phase::Active { user: user(1, "alice") } };
    assert!(matches!(
        s.step(say("persist me")),
        Action::Append { room, author, ref content } if room == ROOM && author == Id { bits: 1 } && content == "persist me"
    ));
    assert!(matches!(s.step(Event::Published(true)), Action::Wait));
    assert!(matches!(s.phase, Phase::Storing { .. }));
    assert!(matches!(
        s.step(Event::Stored),
        Action::Publish(ResponseMessage::Message { ref username, ref content }) if username == "alice" && content == "persist me"
    ));
    assert!(matches!(s.step(Event::Published(true)), Action::Wait));
    assert!(matches!(s.phase, Phase::Active { .. }));
}

#[test]
fn failed_store_of_message_tears_down() {
    let mut s = Session { room: ROOM, phase: Phase::Active { user: user(1, "alice") } };
    s.step(say("lost"));
    assert!(matches!(s.step(Event::StoreFailed), Action::RemoveMember { .. }));
    assert!(matches!(s.phase, Phase::Leaving { reason: CloseReason::Store, .. }));
}

#[test]
fn second_join_is_a_protocol_error() {
    let mut w = World::new();
    let c = w.connect();
    let mut s = Session::new(ROOM);
    w.drive(c, &mut s, join(101));
    assert_eq!(w.drive(c, &mut s, join(101)), Some(CloseReason::Protocol));
    assert!(w.members.is_empty());
}

#[test]
fn history_sent_on_join_is_time_ordered() {
    let mut w = World::new();
    for (content, micros) in [("third", 30), ("first", 10), ("second", 20)] {
        w.history.push((
            ROOM,
            HistoryMessage { user_id: Id { bits: 2 }, username: "bob".to_string(), content: content.to_string(), created_at: Timestamp { micros } },
        ));
    }
    let c = w.connect();
    let mut s = Session::new(ROOM);
    w.drive(c, &mut s, join(101));
    let h = &w.outbox[c][0];
    let p1 = h.find("first").unwrap();
    let p2 = h.find("second").unwrap();
    let p3 = h.find("third").unwrap();
    assert!(p1 < p2 && p2 < p3);
}

#[test]
fn failed_history_send_tears_down() {
    let mut w = World::new();
    w.fail_sends = true;
    let c = w.connect();
    let mut s = Session::new(ROOM);
    assert_eq!(w.drive(c, &mut s, join(101)), Some(CloseReason::Transport));
    assert!(w.members.is_empty());
}

#[test]
fn store_failure_at_join_publishes_nothing() {
    let mut w = World::new();
    w.members.push((ROOM, Id { bits: 1 }));
    let c = w.connect();
    let mut s = Session::new(ROOM);
    assert_eq!(w.drive(c, &mut s, join(101)), Some(CloseReason::Store));
    assert!(w.queues[c].is_empty());
    assert_eq!(w.members.len(), 1);
}
