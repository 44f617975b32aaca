//! What a request can come to: a reply, or a failure of one of two kinds.

use vstd::prelude::*;
use vstd::string::*;

verus! {

/// Status of a request that was understood and served.
pub const STATUS_OK: u16 = 200;

/// Status of a request that named no code.
pub const STATUS_BAD_REQUEST: u16 = 400;

/// Status of a request for something that is not there.
pub const STATUS_NOT_FOUND: u16 = 404;

/// Status of a fault on the server's side, real or injected.
pub const STATUS_INTERNAL_SERVER_ERROR: u16 = 500;

/// The two ways in which a request fails.
#[derive(Clone, Copy, Debug, PartialEq, Eq, Structural)]
pub enum FailureKind {
    /// The client asked for something that is not there.
    NotFound,
    /// The server failed, for a real reason or an injected one.
    InternalError,
}

impl FailureKind {
    /// The HTTP status that a failure of this kind is answered with.
    pub open spec fn status_code(self) -> u16 {
        match self {
            FailureKind::NotFound => STATUS_NOT_FOUND,
            FailureKind::InternalError => STATUS_INTERNAL_SERVER_ERROR,
        }
    }

    /// The HTTP status that a failure of this kind is answered with.
    pub fn status(&self) -> (code: u16)
        ensures
            code == self.status_code(),
    {
        match self {
            FailureKind::NotFound => STATUS_NOT_FOUND,
            FailureKind::InternalError => STATUS_INTERNAL_SERVER_ERROR,
        }
    }
}

/// A status and a body, as mathematics sees them.
pub struct ReplyView {
    /// The HTTP status.
    pub status: u16,
    /// The body, character by character.
    pub body: Seq<char>,
}

/// A status and a body: what is handed to the transport.
#[derive(Clone, Debug, PartialEq, Eq)]
pub struct Reply {
    /// The HTTP status.
    pub status: u16,
    /// The body.
    pub body: String,
}

impl View for Reply {
    type V = ReplyView;

    open spec fn view(&self) -> ReplyView {
        ReplyView { status: self.status, body: self.body@ }
    }
}

/// A failure, as mathematics sees it: its kind and its message.
pub struct Failure {
    /// Which of the two kinds the failure is.
    pub kind: FailureKind,
    /// The message that the client is shown.
    pub message: Seq<char>,
}

impl Failure {
    /// The reply that reports this failure: the status of its kind, and the
    /// message as the body, unchanged.
    pub open spec fn reply(self) -> ReplyView {
        ReplyView { status: self.kind.status_code(), body: self.message }
    }
}

/// A failure is reported under 404 exactly when it is of the kind not found,
/// under 500 exactly when it is a server fault, and under no other status;
/// its message is the body.
pub proof fn lemma_failure_reply(failure: Failure)
    ensures
        failure.reply().body == failure.message,
        failure.reply().status == STATUS_NOT_FOUND <==> failure.kind == FailureKind::NotFound,
        failure.reply().status == STATUS_INTERNAL_SERVER_ERROR <==> failure.kind
            == FailureKind::InternalError,
{
}

/// A failure that a request ended in. Each variant carries the message that
/// the client is shown.
#[derive(Clone, Debug, PartialEq, Eq)]
pub enum AppError {
    /// The client asked for something that is not there.
    NotFound(String),
    /// The server failed, for a real reason or an injected one.
    InternalServerError(String),
}

impl View for AppError {
    type V = Failure;

    open spec fn view(&self) -> Failure {
        match self {
            AppError::NotFound(message) => Failure {
                kind: FailureKind::NotFound,
                message: message@,
            },
            AppError::InternalServerError(message) => Failure {
                kind: FailureKind::InternalError,
                message: message@,
            },
        }
    }
}

impl AppError {
    /// A failure of the given kind with the given message.
    pub fn new(kind: FailureKind, message: &str) -> (error: AppError)
        ensures
            error@ == (Failure { kind, message: message@ }),
    {
        match kind {
            FailureKind::NotFound => AppError::NotFound(String::from_str(message)),
            FailureKind::InternalError => AppError::InternalServerError(String::from_str(message)),
        }
    }

    /// Which of the two kinds this failure is.
    pub fn kind(&self) -> (kind: FailureKind)
        ensures
            kind == self@.kind,
    {
        match self {
            AppError::NotFound(_) => FailureKind::NotFound,
            AppError::InternalServerError(_) => FailureKind::InternalError,
        }
    }

    /// The message that the client is shown.
    pub fn message(&self) -> (message: &str)
        ensures
            message@ == self@.message,
    {
        match self {
            AppError::NotFound(message) => message.as_str(),
            AppError::InternalServerError(message) => message.as_str(),
        }
    }

    /// Turns the failure into the reply that reports it: 404 for what was not
    /// found, 500 for a fault of the server, and the message as the body.
    pub fn into_response(self) -> (reply: Reply)
        ensures
            reply@ == self@.reply(),
    {
        match self {
            AppError::NotFound(message) => Reply { status: STATUS_NOT_FOUND, body: message },
            AppError::InternalServerError(message) => Reply {
                status: STATUS_INTERNAL_SERVER_ERROR,
                body: message,
            },
        }
    }
}

/// The result of handling one request, as mathematics sees it. Every request
/// comes to exactly one of the two.
pub enum Outcome {
    /// The request was answered with this status and body.
    Served(ReplyView),
    /// The request failed.
    Failed(Failure),
}

impl Outcome {
    /// The reply that leaves the server for this outcome: a success as it
    /// is, a failure as the reply that reports it.
    pub open spec fn reply(self) -> ReplyView {
        match self {
            Outcome::Served(reply) => reply,
            Outcome::Failed(failure) => failure.reply(),
        }
    }
}

/// The outcome that a result of this library stands for.
pub open spec fn outcome_of(result: Result<Reply, AppError>) -> Outcome {
    match result {
        Ok(reply) => Outcome::Served(reply@),
        Err(error) => Outcome::Failed(error@),
    }
}

/// Turns the result of handling a request into the reply that leaves the
/// server, whichever way the request went.
pub fn finish(result: Result<Reply, AppError>) -> (reply: Reply)
    ensures
        reply@ == outcome_of(result).reply(),
{
    match result {
        Ok(reply) => reply,
        Err(error) => error.into_response(),
    }
}

} // verus!
