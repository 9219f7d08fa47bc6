//! The answers a request handler gives: an HTTP status and a message,
//! sent as plain text or inside a JSON object.

use vstd::prelude::*;

verus! {

/// HTTP statuses the service answers with.
#[derive(Clone, Copy, Debug, PartialEq, Eq, Structural)]
pub enum Status {
    Success,
    BadRequest,
    Unauthorized,
    Forbidden,
    NotFound,
    InternalServerError,
}

/// How the message travels in the body.
#[derive(Clone, Copy, Debug, PartialEq, Eq, Structural)]
pub enum BodyKind {
    /// The message is the whole body.
    Text,
    /// The body is `{"error": message}`.
    JsonError,
    /// The body is `{"message": message}`.
    JsonMessage,
}

/// A finished answer.
#[derive(Clone, Debug, PartialEq, Eq)]
pub struct Reply {
    pub status: Status,
    pub kind: BodyKind,
    pub message: String,
}

/// The mathematical content of a `Reply`.
pub struct ReplyView {
    pub status: Status,
    pub kind: BodyKind,
    pub message: Seq<char>,
}

impl View for Reply {
    type V = ReplyView;

    open spec fn view(&self) -> ReplyView {
        ReplyView { status: self.status, kind: self.kind, message: self.message@ }
    }
}

/// The answer with the given parts.
pub open spec fn reply_of(status: Status, kind: BodyKind, message: Seq<char>) -> ReplyView {
    ReplyView { status, kind, message }
}

/// Builds an answer from a status, a body kind and a message.
pub fn make_reply(status: Status, kind: BodyKind, message: &str) -> (r: Reply)
    ensures
        r@ == reply_of(status, kind, message@),
{
    Reply { status, kind, message: message.to_owned() }
}

/// Builds an answer that owns an already built message.
pub fn reply_with(status: Status, kind: BodyKind, message: String) -> (r: Reply)
    ensures
        r@ == reply_of(status, kind, message@),
{
    Reply { status, kind, message }
}

} // verus!
