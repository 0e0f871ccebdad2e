//! The relay's data: identifiers, instants, users, stored rows and history entries.
use vstd::prelude::*;

verus! {

/// A 128-bit identifier of a user, a room or a session token.
#[derive(Clone, Copy, Debug, PartialEq, Eq, Structural, Hash)]
pub struct Id {
    pub bits: u128,
}

impl Id {
    /// The all-zero identifier.
    pub fn nil() -> (r: Id)
        ensures
            r.bits == 0,
    {
        Id { bits: 0 }
    }
}

/// An instant, in microseconds since the Unix epoch (UTC).
#[derive(Clone, Copy, Debug, PartialEq, Eq, Structural, Hash)]
pub struct Timestamp {
    pub micros: i64,
}

/// The identity of a chat participant, as the room sees it.
#[derive(Clone, Debug)]
pub struct User {
    pub id: Id,
    pub username: String,
}

impl User {
    /// The room-visible part of a stored user.
    pub fn from_model_user(user: ModelUser) -> (r: User)
        ensures
            r.id == user.id,
            r.username == user.username,
    {
        User { id: user.id, username: user.username }
    }

    /// A field-for-field copy.
    pub fn duplicate(&self) -> (r: User)
        ensures
            r == *self,
    {
        User { id: self.id, username: self.username.clone() }
    }
}

/// A stored user account.
#[derive(Clone, Debug)]
pub struct ModelUser {
    pub id: Id,
    pub username: String,
    pub password: String,
    pub token: Id,
}

/// Credentials offered at login.
#[derive(Clone, Debug)]
pub struct Login {
    pub username: String,
    pub password: String,
}

/// One entry of a room's message history, as sent to a joining client.
#[derive(Clone, Debug)]
pub struct HistoryMessage {
    pub user_id: Id,
    pub username: String,
    pub content: String,
    pub created_at: Timestamp,
}

/// A stored chat message.
#[derive(Clone, Debug)]
pub struct ModelMessage {
    pub id: Id,
    pub chat_id: Id,
    pub user_id: Id,
    pub content: String,
    pub created_at: Timestamp,
}

/// A stored chat room.
#[derive(Clone, Copy, Debug)]
pub struct ModelChat {
    pub id: Id,
}

/// A stored room membership: one row per (room, user) pair.
#[derive(Clone, Copy, Debug)]
pub struct ModelChatUser {
    pub chat_id: Id,
    pub user_id: Id,
}

/// Failure to identify the chat room.
#[derive(Clone, Copy, Debug, PartialEq, Eq, Structural)]
pub enum ChatError {
    ChatNotFound,
}

#[verifier::external_type_specification]
#[verifier::external_body]
pub struct ExUuidError(uuid::Error);

/// The 128-bit value that `uuid::Uuid::parse_str` reads from a text, if it accepts it.
pub uninterp spec fn uuid_value(text: Seq<char>) -> Option<u128>;

/// The hyphenated lower-case form that `uuid::Uuid` prints for a value.
pub uninterp spec fn uuid_text(bits: u128) -> Seq<char>;

/// Relies on `uuid::Uuid::parse_str`: it accepts or refuses a text, and reads
/// its value, from the text alone.
#[verifier::external_body]
pub(crate) fn parse_uuid(text: &str) -> (r: Result<Id, uuid::Error>)
    ensures
        r is Ok <==> uuid_value(text@) is Some,
        r matches Ok(id) ==> uuid_value(text@) == Some(id.bits),
{
    match uuid::Uuid::parse_str(text) {
        Ok(u) => Ok(Id { bits: u.as_u128() }),
        Err(e) => Err(e),
    }
}

/// Relies on `uuid::Uuid`'s `Display`: the printed form depends on the value alone.
#[verifier::external_body]
pub(crate) fn print_uuid(id: Id) -> (r: String)
    ensures
        r@ == uuid_text(id.bits),
{
    uuid::Uuid::from_u128(id.bits).to_string()
}

impl From<uuid::Error> for ChatError {
    fn from(_e: uuid::Error) -> ChatError {
        ChatError::ChatNotFound
    }
}

impl vstd::std_specs::convert::FromSpecImpl<uuid::Error> for ChatError {
    open spec fn obeys_from_spec() -> bool {
        true
    }

    open spec fn from_spec(v: uuid::Error) -> ChatError {
        ChatError::ChatNotFound
    }
}

/// The well-known identifier of the one chat room.
pub const CHAT_ID: &'static str = "d58535ec-fe54-4d30-9808-94af7d6dc1bf";

impl ModelChat {
    /// The identifier of the chat room, read from its well-known text.
    pub fn get_id() -> (r: Result<Id, ChatError>)
        ensures
            match uuid_value(CHAT_ID@) {
                Some(v) => r == Ok::<Id, ChatError>((Id { bits: v })),
                None => r == Err::<Id, ChatError>(ChatError::ChatNotFound),
            },
    {
        match parse_uuid(CHAT_ID) {
            Ok(id) => Ok(id),
            Err(e) => Err(ChatError::from(e)),
        }
    }
}

/// Relies on `chrono::Utc::now`: the current instant, read from the clock;
/// nothing is known of its value.
#[verifier::external_body]
fn now() -> (r: Timestamp) {
    Timestamp { micros: chrono::Utc::now().timestamp_micros() }
}

impl Default for ModelUser {
    fn default() -> (r: ModelUser)
        ensures
            r.id.bits == 0,
            r.username@ == Seq::<char>::empty(),
            r.password@ == Seq::<char>::empty(),
            r.token.bits == 0,
    {
        ModelUser { id: Id::nil(), username: String::new(), password: String::new(), token: Id::nil() }
    }
}

impl Default for ModelChatUser {
    fn default() -> (r: ModelChatUser)
        ensures
            r.chat_id.bits == 0,
            r.user_id.bits == 0,
    {
        ModelChatUser { chat_id: Id::nil(), user_id: Id::nil() }
    }
}

impl Default for HistoryMessage {
    /// An empty entry, stamped with the current instant.
    fn default() -> (r: HistoryMessage)
        ensures
            r.user_id.bits == 0,
            r.username@ == Seq::<char>::empty(),
            r.content@ == Seq::<char>::empty(),
    {
        HistoryMessage {
            user_id: Id::nil(),
            username: String::new(),
            content: String::new(),
            created_at: now(),
        }
    }
}

impl Default for ModelMessage {
    /// An empty message, stamped with the current instant.
    fn default() -> (r: ModelMessage)
        ensures
            r.id.bits == 0,
            r.chat_id.bits == 0,
            r.user_id.bits == 0,
            r.content@ == Seq::<char>::empty(),
    {
        ModelMessage {
            id: Id::nil(),
            chat_id: Id::nil(),
            user_id: Id::nil(),
            content: String::new(),
            created_at: now(),
        }
    }
}

} // verus!
