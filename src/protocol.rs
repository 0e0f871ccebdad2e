//! The messages exchanged with a client, and the ways reading one can fail.
use vstd::prelude::*;
use crate::model::{HistoryMessage, Id, User};

verus! {

/// An event sent by a client.
#[derive(Clone, Debug)]
pub enum RequestMessage {
    Join { token: Id },
    Message { content: String },
}

/// What a `RequestMessage` says, with its text as a sequence.
pub enum RequestView {
    Join { token: Id },
    Message { content: Seq<char> },
}

impl View for RequestMessage {
    type V = RequestView;

    open spec fn view(&self) -> RequestView {
        match self {
            RequestMessage::Join { token } => RequestView::Join { token: *token },
            RequestMessage::Message { content } => RequestView::Message { content: content@ },
        }
    }
}

/// An event sent to clients.
#[derive(Clone, Debug)]
pub enum ResponseMessage {
    Join { user: User },
    Leave { user: User },
    Message { username: String, content: String },
    History { messages: Vec<HistoryMessage>, users: Vec<User> },
}

/// What a `ResponseMessage` says, with its lists as sequences.
pub enum ResponseView {
    Join { user: User },
    Leave { user: User },
    Message { username: String, content: String },
    History { messages: Seq<HistoryMessage>, users: Seq<User> },
}

impl View for ResponseMessage {
    type V = ResponseView;

    open spec fn view(&self) -> ResponseView {
        match self {
            ResponseMessage::Join { user } => ResponseView::Join { user: *user },
            ResponseMessage::Leave { user } => ResponseView::Leave { user: *user },
            ResponseMessage::Message { username, content } => ResponseView::Message {
                username: *username,
                content: *content,
            },
            ResponseMessage::History { messages, users } => ResponseView::History {
                messages: messages@,
                users: users@,
            },
        }
    }
}

/// A frame as the transport delivers it.
#[derive(Clone, Debug)]
pub enum Frame {
    Text(String),
    Binary(Vec<u8>),
    /// A ping, pong or close frame.
    Control,
}

/// What one read from the transport gave.
#[derive(Clone, Debug)]
pub enum Incoming {
    Frame(Frame),
    /// The transport failed.
    Failed,
    /// The peer closed the stream.
    Ended,
}

/// Why a frame is not a client event.
#[derive(Clone, Copy, Debug, PartialEq, Eq, Structural)]
pub enum DecodeError {
    MalformedPayload,
    UnexpectedFrameKind,
}

/// Why no client event could be read.
#[derive(Clone, Copy, Debug, PartialEq, Eq, Structural)]
pub enum ReceiveError {
    StreamClosed,
    Transport,
    Decode(DecodeError),
}

} // verus!
