//! The wire form of the relay's events: JSON objects tagged by a `type` member.
use vstd::prelude::*;
use vstd::string::*;
use crate::model::{print_uuid, parse_uuid, uuid_text, uuid_value, HistoryMessage, Id, Timestamp, User};
use crate::protocol::{
    DecodeError, Frame, Incoming, ReceiveError, RequestMessage, RequestView, ResponseMessage,
    ResponseView,
};

verus! {

/// The quoted and escaped JSON string literal that serde_json writes for a text.
pub uninterp spec fn json_string(text: Seq<char>) -> Seq<char>;

/// The members of a JSON text that serde_json reads as an object whose
/// members are all strings, in key order; `None` where it reads no such object.
pub uninterp spec fn json_string_members(text: Seq<char>) -> Option<Seq<(Seq<char>, Seq<char>)>>;

/// The same reading, of JSON held as bytes.
pub uninterp spec fn json_string_members_of_bytes(bytes: Seq<u8>) -> Option<Seq<(Seq<char>, Seq<char>)>>;

/// The RFC 3339 form, in UTC with a `Z`, that chrono writes for an instant
/// given in microseconds; `None` outside the instants chrono represents.
pub uninterp spec fn rfc3339_text(micros: i64) -> Option<Seq<char>>;

/// Members as text pairs.
pub open spec fn members_view(v: Seq<(String, String)>) -> Seq<(Seq<char>, Seq<char>)> {
    v.map_values(|p: (String, String)| (p.0@, p.1@))
}

/// Relies on serde_json's `Display` for `Value::String`: it writes the quoted,
/// escaped JSON form of the text.
#[verifier::external_body]
fn quote(text: &str) -> (r: String)
    ensures
        r@ == json_string(text@),
{
    serde_json::Value::String(text.to_string()).to_string()
}

/// Relies on `serde_json::from_str` into a `BTreeMap<String, String>`: it
/// reads an object of string members, or fails, from the text alone.
#[verifier::external_body]
fn parse_members(text: &str) -> (r: Option<Vec<(String, String)>>)
    ensures
        match r {
            Some(v) => json_string_members(text@) == Some(members_view(v@)),
            None => json_string_members(text@) is None,
        },
{
    match serde_json::from_str::<std::collections::BTreeMap<String, String>>(text) {
        Ok(m) => Some(m.into_iter().collect()),
        Err(_) => None,
    }
}

/// Relies on `serde_json::from_slice` into a `BTreeMap<String, String>`: it
/// reads an object of string members, or fails, from the bytes alone.
#[verifier::external_body]
fn parse_members_of_bytes(bytes: &[u8]) -> (r: Option<Vec<(String, String)>>)
    ensures
        match r {
            Some(v) => json_string_members_of_bytes(bytes@) == Some(members_view(v@)),
            None => json_string_members_of_bytes(bytes@) is None,
        },
{
    match serde_json::from_slice::<std::collections::BTreeMap<String, String>>(bytes) {
        Ok(m) => Some(m.into_iter().collect()),
        Err(_) => None,
    }
}

/// Relies on chrono's `DateTime::<Utc>::from_timestamp_micros`, which has no
/// value outside chrono's range, and `to_rfc3339_opts(SecondsFormat::AutoSi, true)`,
/// the form that chrono's serde support writes.
#[verifier::external_body]
fn print_instant(t: Timestamp) -> (r: Option<String>)
    ensures
        match r {
            Some(s) => rfc3339_text(t.micros) == Some(s@),
            None => rfc3339_text(t.micros) is None,
        },
{
    match chrono::DateTime::<chrono::Utc>::from_timestamp_micros(t.micros) {
        Some(d) => Some(d.to_rfc3339_opts(chrono::SecondsFormat::AutoSi, true)),
        None => None,
    }
}

// ----- encoding -----

/// `{"id":…,"username":…}`
pub open spec fn user_json(u: User) -> Seq<char> {
    "{\"id\":"@ + json_string(uuid_text(u.id.bits)) + ",\"username\":"@ + json_string(u.username@)
        + "}"@
}

/// The users' objects, separated by commas.
pub open spec fn users_json(us: Seq<User>) -> Seq<char>
    decreases us.len(),
{
    if us.len() == 0 {
        Seq::empty()
    } else if us.len() == 1 {
        user_json(us[0])
    } else {
        users_json(us.drop_last()) + ","@ + user_json(us.last())
    }
}

/// Whether chrono can write the instant of every entry.
pub open spec fn instants_printable(ms: Seq<HistoryMessage>) -> bool {
    forall|i: int| 0 <= i < ms.len() ==> (#[trigger] rfc3339_text(ms[i].created_at.micros)) is Some
}

/// `{"user_id":…,"username":…,"content":…,"timestamp":…}`, for an entry whose instant chrono can write.
pub open spec fn entry_json(m: HistoryMessage) -> Seq<char> {
    let ts = match rfc3339_text(m.created_at.micros) {
        Some(t) => t,
        None => Seq::empty(),
    };
    "{\"user_id\":"@ + json_string(uuid_text(m.user_id.bits)) + ",\"username\":"@ + json_string(
        m.username@,
    ) + ",\"content\":"@ + json_string(m.content@) + ",\"timestamp\":"@ + json_string(ts) + "}"@
}

/// The entries' objects, separated by commas.
pub open spec fn entries_json(ms: Seq<HistoryMessage>) -> Seq<char>
    decreases ms.len(),
{
    if ms.len() == 0 {
        Seq::empty()
    } else if ms.len() == 1 {
        entry_json(ms[0])
    } else {
        entries_json(ms.drop_last()) + ","@ + entry_json(ms.last())
    }
}

/// The wire form of an event for clients; `None` for a history holding an
/// instant that chrono cannot write.
pub open spec fn response_json(m: ResponseView) -> Option<Seq<char>> {
    match m {
        ResponseView::Join { user } => Some("{\"type\":\"Join\",\"user\":"@ + user_json(user) + "}"@),
        ResponseView::Leave { user } => Some(
            "{\"type\":\"Leave\",\"user\":"@ + user_json(user) + "}"@,
        ),
        ResponseView::Message { username, content } => Some(
            "{\"type\":\"Message\",\"username\":"@ + json_string(username@) + ",\"content\":"@
                + json_string(content@) + "}"@,
        ),
        ResponseView::History { messages, users } => if instants_printable(messages) {
            Some(
                "{\"type\":\"History\",\"messages\":["@ + entries_json(messages) + "],\"users\":["@
                    + users_json(users) + "]}"@,
            )
        } else {
            None
        },
    }
}

fn append_quoted(out: &mut String, text: &str)
    ensures
        final(out)@ == old(out)@ + json_string(text@),
{
    let q = quote(text);
    out.append(q.as_str());
}

fn append_user(out: &mut String, u: &User)
    ensures
        final(out)@ == old(out)@ + user_json(*u),
{
    let ghost start = out@;
    out.append("{\"id\":");
    let id = print_uuid(u.id);
    append_quoted(out, id.as_str());
    out.append(",\"username\":");
    append_quoted(out, u.username.as_str());
    out.append("}");
    assert(out@ =~= start + user_json(*u));
}

fn append_users(out: &mut String, users: &Vec<User>)
    ensures
        final(out)@ == old(out)@ + users_json(users@),
{
    let ghost start = out@;
    let mut i: usize = 0;
    while i < users.len()
        invariant
            i <= users.len(),
            out@ == start + users_json(users@.take(i as int)),
        decreases users.len() - i,
    {
        if i > 0 {
            out.append(",");
        }
        append_user(out, &users[i]);
        proof {
            let t = users@.take(i + 1);
            assert(t.drop_last() =~= users@.take(i as int));
            assert(t.last() == users@[i as int]);
            if i == 0 {
                assert(users@.take(0) =~= Seq::<User>::empty());
                assert(start + Seq::<char>::empty() =~= start);
            } else {
                assert(out@ =~= start + (users_json(users@.take(i as int)) + ","@ + user_json(users@[i as int])));
            }
        }
        i = i + 1;
    }
    assert(users@.take(users.len() as int) =~= users@);
}

/// Appends the entries; `false`, with `out` in an unspecified state, where an
/// instant cannot be written.
fn append_entries(out: &mut String, ms: &Vec<HistoryMessage>) -> (ok: bool)
    ensures
        ok == instants_printable(ms@),
        ok ==> final(out)@ == old(out)@ + entries_json(ms@),
{
    let ghost start = out@;
    let mut i: usize = 0;
    while i < ms.len()
        invariant
            i <= ms.len(),
            instants_printable(ms@.take(i as int)),
            out@ == start + entries_json(ms@.take(i as int)),
        decreases ms.len() - i,
    {
        let m = &ms[i];
        let ts = match print_instant(m.created_at) {
            Some(ts) => ts,
            None => {
                assert(rfc3339_text(ms@[i as int].created_at.micros) is None);
                return false;
            },
        };
        let ghost before = out@;
        if i > 0 {
            out.append(",");
        }
        out.append("{\"user_id\":");
        let id = print_uuid(m.user_id);
        append_quoted(out, id.as_str());
        out.append(",\"username\":");
        append_quoted(out, m.username.as_str());
        out.append(",\"content\":");
        append_quoted(out, m.content.as_str());
        out.append(",\"timestamp\":");
        append_quoted(out, ts.as_str());
        out.append("}");
        proof {
            let t = ms@.take(i + 1);
            assert(t.drop_last() =~= ms@.take(i as int));
            assert(t.last() == ms@[i as int]);
            let ghost sep: Seq<char> = if i > 0 { ","@ } else { Seq::empty() };
            assert(out@ =~= before + sep + entry_json(ms@[i as int]));
            if i == 0 {
                assert(ms@.take(0) =~= Seq::<HistoryMessage>::empty());
                assert(start + Seq::<char>::empty() =~= start);
                assert(out@ =~= start + entries_json(t));
            } else {
                assert(out@ =~= start + (entries_json(ms@.take(i as int)) + ","@ + entry_json(ms@[i as int])));
            }
            assert forall|j: int| 0 <= j < t.len() implies (#[trigger] rfc3339_text(t[j].created_at.micros)) is Some by {
                if j < i {
                    assert(t[j] == ms@.take(i as int)[j]);
                }
            }
        }
        i = i + 1;
    }
    assert(ms@.take(ms.len() as int) =~= ms@);
    true
}

/// The wire form of an event for clients; `None` only for a history holding
/// an instant that chrono cannot write.
pub fn encode(m: &ResponseMessage) -> (r: Option<String>)
    ensures
        match r {
            Some(s) => response_json(m@) == Some(s@),
            None => response_json(m@) is None,
        },
{
    match m {
        ResponseMessage::Join { user } => {
            let mut out = String::from_str("{\"type\":\"Join\",\"user\":");
            append_user(&mut out, user);
            out.append("}");
            Some(out)
        },
        ResponseMessage::Leave { user } => {
            let mut out = String::from_str("{\"type\":\"Leave\",\"user\":");
            append_user(&mut out, user);
            out.append("}");
            Some(out)
        },
        ResponseMessage::Message { username, content } => {
            let mut out = String::from_str("{\"type\":\"Message\",\"username\":");
            append_quoted(&mut out, username.as_str());
            out.append(",\"content\":");
            append_quoted(&mut out, content.as_str());
            out.append("}");
            Some(out)
        },
        ResponseMessage::History { messages, users } => {
            let mut out = String::from_str("{\"type\":\"History\",\"messages\":[");
            if !append_entries(&mut out, messages) {
                return None;
            }
            out.append("],\"users\":[");
            append_users(&mut out, users);
            out.append("]}");
            Some(out)
        },
    }
}

// ----- decoding -----

/// The first value held under `key`.
pub open spec fn member(ms: Seq<(Seq<char>, Seq<char>)>, key: Seq<char>) -> Option<Seq<char>>
    decreases ms.len(),
{
    if ms.len() == 0 {
        None
    } else if ms[0].0 == key {
        Some(ms[0].1)
    } else {
        member(ms.drop_first(), key)
    }
}

/// The client event that string members spell: `type` is `Join` with a
/// `token` that reads as a UUID, or `Message` with a `content`; other
/// members are ignored.
pub open spec fn request_of(ms: Seq<(Seq<char>, Seq<char>)>) -> Option<RequestView> {
    match member(ms, "type"@) {
        Some(t) => if t == "Join"@ {
            match member(ms, "token"@) {
                Some(tok) => match uuid_value(tok) {
                    Some(v) => Some(RequestView::Join { token: Id { bits: v } }),
                    None => None,
                },
                None => None,
            }
        } else if t == "Message"@ {
            match member(ms, "content"@) {
                Some(c) => Some(RequestView::Message { content: c }),
                None => None,
            }
        } else {
            None
        },
        None => None,
    }
}

/// The decoding of a frame's members, where its payload read as string members.
pub open spec fn decoded(ms: Option<Seq<(Seq<char>, Seq<char>)>>) -> Result<RequestView, DecodeError> {
    match ms {
        Some(ms) => match request_of(ms) {
            Some(r) => Ok(r),
            None => Err(DecodeError::MalformedPayload),
        },
        None => Err(DecodeError::MalformedPayload),
    }
}

/// The client event that a frame holds: text and binary frames carry JSON,
/// any other frame is refused.
pub open spec fn frame_request(f: Frame) -> Result<RequestView, DecodeError> {
    match f {
        Frame::Text(t) => decoded(json_string_members(t@)),
        Frame::Binary(b) => decoded(json_string_members_of_bytes(b@)),
        Frame::Control => Err(DecodeError::UnexpectedFrameKind),
    }
}

/// What one read from the transport yields.
pub open spec fn incoming_request(i: Incoming) -> Result<RequestView, ReceiveError> {
    match i {
        Incoming::Frame(f) => match frame_request(f) {
            Ok(r) => Ok(r),
            Err(e) => Err(ReceiveError::Decode(e)),
        },
        Incoming::Failed => Err(ReceiveError::Transport),
        Incoming::Ended => Err(ReceiveError::StreamClosed),
    }
}

/// Members as text pairs, where there are any.
pub open spec fn members_opt(ms: Option<Vec<(String, String)>>) -> Option<Seq<(Seq<char>, Seq<char>)>> {
    match ms {
        Some(v) => Some(members_view(v@)),
        None => None,
    }
}

fn find_member(ms: &Vec<(String, String)>, key: &str) -> (r: Option<String>)
    ensures
        match r {
            Some(v) => member(members_view(ms@), key@) == Some(v@),
            None => member(members_view(ms@), key@) is None,
        },
{
    let ghost mv = members_view(ms@);
    let wanted = String::from_str(key);
    let mut i: usize = 0;
    assert(mv.subrange(0, mv.len() as int) =~= mv);
    while i < ms.len()
        invariant
            i <= ms.len(),
            mv == members_view(ms@),
            wanted@ == key@,
            member(mv, key@) == member(mv.subrange(i as int, mv.len() as int), key@),
        decreases ms.len() - i,
    {
        let ghost rest = mv.subrange(i as int, mv.len() as int);
        assert(rest[0] == mv[i as int]);
        if ms[i].0 == wanted {
            return Some(ms[i].1.clone());
        }
        assert(rest.drop_first() =~= mv.subrange(i + 1, mv.len() as int));
        i = i + 1;
    }
    assert(mv.subrange(i as int, mv.len() as int) =~= Seq::<(Seq<char>, Seq<char>)>::empty());
    None
}

/// The client event that string members spell.
pub fn request_from_members(ms: Option<Vec<(String, String)>>) -> (r: Result<RequestMessage, DecodeError>)
    ensures
        match r {
            Ok(m) => decoded(members_opt(ms)) == Ok::<RequestView, DecodeError>(m@),
            Err(e) => decoded(members_opt(ms)) == Err::<RequestView, DecodeError>(e),
        },
{
    let v = match ms {
        Some(v) => v,
        None => return Err(DecodeError::MalformedPayload),
    };
    let kind = match find_member(&v, "type") {
        Some(t) => t,
        None => return Err(DecodeError::MalformedPayload),
    };
    if kind == String::from_str("Join") {
        match find_member(&v, "token") {
            Some(tok) => match parse_uuid(tok.as_str()) {
                Ok(token) => Ok(RequestMessage::Join { token }),
                Err(_) => Err(DecodeError::MalformedPayload),
            },
            None => Err(DecodeError::MalformedPayload),
        }
    } else if kind == String::from_str("Message") {
        match find_member(&v, "content") {
            Some(content) => Ok(RequestMessage::Message { content }),
            None => Err(DecodeError::MalformedPayload),
        }
    } else {
        Err(DecodeError::MalformedPayload)
    }
}

/// The client event that a frame holds.
pub fn decode(f: &Frame) -> (r: Result<RequestMessage, DecodeError>)
    ensures
        match r {
            Ok(m) => frame_request(*f) == Ok::<RequestView, DecodeError>(m@),
            Err(e) => frame_request(*f) == Err::<RequestView, DecodeError>(e),
        },
{
    match f {
        Frame::Text(t) => request_from_members(parse_members(t.as_str())),
        Frame::Binary(b) => request_from_members(parse_members_of_bytes(b.as_slice())),
        Frame::Control => Err(DecodeError::UnexpectedFrameKind),
    }
}

/// The client event that one read from the transport yields, or why there is none.
pub fn read_request(i: &Incoming) -> (r: Result<RequestMessage, ReceiveError>)
    ensures
        match r {
            Ok(m) => incoming_request(*i) == Ok::<RequestView, ReceiveError>(m@),
            Err(e) => incoming_request(*i) == Err::<RequestView, ReceiveError>(e),
        },
{
    match i {
        Incoming::Frame(f) => match decode(f) {
            Ok(m) => Ok(m),
            Err(e) => Err(ReceiveError::Decode(e)),
        },
        Incoming::Failed => Err(ReceiveError::Transport),
        Incoming::Ended => Err(ReceiveError::StreamClosed),
    }
}

} // verus!
