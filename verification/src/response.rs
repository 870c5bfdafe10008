//! What a request is answered with: a status code, an outcome label and a
//! payload, and the taxonomy of failures that map onto them.

use vstd::prelude::*;
use crate::model::rows_view;
use crate::model::text_view;
use crate::model::UserModel;
use crate::model::UserView;

verus! {

/// The `status` member of every response body.
#[derive(Debug, Clone, Copy, PartialEq, Eq, Structural)]
pub enum Outcome {
    /// The request was carried out.
    Success,
    /// The request was refused for a reason the client can act on.
    Fail,
    /// The service itself failed.
    Error,
}

impl Outcome {
    /// The label as it is written into a response body.
    pub open spec fn label_text(self) -> Seq<char> {
        match self {
            Outcome::Success => "success"@,
            Outcome::Fail => "fail"@,
            Outcome::Error => "error"@,
        }
    }

    /// The label as it is written into a response body.
    pub fn label(&self) -> (text: &'static str)
        ensures
            text@ == self.label_text(),
    {
        match self {
            Outcome::Success => "success",
            Outcome::Fail => "fail",
            Outcome::Error => "error",
        }
    }
}

/// The members of a response body besides `status`.
#[derive(Debug, PartialEq, Eq)]
pub enum Payload {
    /// No body at all.
    Empty,
    /// A `message` member.
    Message { message: String },
    /// One user under `data.user`, with the note as `message` member where one
    /// is given.
    User { note: Option<String>, user: UserModel },
    /// A page of users under `users`, with their number under `results`.
    Users { users: Vec<UserModel> },
}

/// The mathematical value of a [`Payload`].
pub enum PayloadView {
    Empty,
    Message { message: Seq<char> },
    User { note: Option<Seq<char>>, user: UserView },
    Users { users: Seq<UserView> },
}

impl View for Payload {
    type V = PayloadView;

    open spec fn view(&self) -> PayloadView {
        match *self {
            Payload::Empty => PayloadView::Empty,
            Payload::Message { message } => PayloadView::Message { message: message@ },
            Payload::User { note, user } => PayloadView::User { note: text_view(note), user: user@ },
            Payload::Users { users } => PayloadView::Users { users: rows_view(users@) },
        }
    }
}

/// The answer to one request.
#[derive(Debug, PartialEq, Eq)]
pub struct Response {
    /// The HTTP status code.
    pub status: u16,
    /// The `status` member of the body.
    pub outcome: Outcome,
    /// The rest of the body.
    pub payload: Payload,
}

/// The mathematical value of a [`Response`].
pub struct ResponseView {
    pub status: u16,
    pub outcome: Outcome,
    pub payload: PayloadView,
}

impl View for Response {
    type V = ResponseView;

    open spec fn view(&self) -> ResponseView {
        ResponseView { status: self.status, outcome: self.outcome, payload: self.payload@ }
    }
}

impl ResponseView {
    /// A response whose body is a message.
    pub open spec fn message(status: u16, outcome: Outcome, text: Seq<char>) -> ResponseView {
        ResponseView { status, outcome, payload: PayloadView::Message { message: text } }
    }

    /// A successful response that carries one user.
    pub open spec fn user(status: u16, text: Option<Seq<char>>, user: UserView) -> ResponseView {
        ResponseView {
            status,
            outcome: Outcome::Success,
            payload: PayloadView::User { note: text, user },
        }
    }

    /// The successful response that carries a page of users.
    pub open spec fn users(users: Seq<UserView>) -> ResponseView {
        ResponseView { status: 200, outcome: Outcome::Success, payload: PayloadView::Users { users } }
    }

    /// The response to a request that leaves nothing to report.
    pub open spec fn no_content() -> ResponseView {
        ResponseView { status: 204, outcome: Outcome::Success, payload: PayloadView::Empty }
    }
}

impl Response {
    /// A response whose body is a message.
    pub fn message(status: u16, outcome: Outcome, text: String) -> (response: Response)
        ensures
            response@ == ResponseView::message(status, outcome, text@),
    {
        Response { status, outcome, payload: Payload::Message { message: text } }
    }

    /// A successful response that carries one user.
    pub fn user(status: u16, text: Option<String>, user: UserModel) -> (response: Response)
        ensures
            response@ == ResponseView::user(status, text_view(text), user@),
    {
        Response { status, outcome: Outcome::Success, payload: Payload::User { note: text, user } }
    }

    /// The successful response that carries a page of users.
    pub fn users(users: Vec<UserModel>) -> (response: Response)
        ensures
            response@ == ResponseView::users(rows_view(users@)),
    {
        Response { status: 200, outcome: Outcome::Success, payload: Payload::Users { users } }
    }

    /// The response to a request that leaves nothing to report.
    pub fn no_content() -> (response: Response)
        ensures
            response@ == ResponseView::no_content(),
    {
        Response { status: 204, outcome: Outcome::Success, payload: Payload::Empty }
    }
}

/// Why a request was not carried out.
#[derive(Debug, PartialEq, Eq)]
pub enum ApiError {
    /// The request is malformed.
    Validation(String),
    /// What the request names does not exist.
    NotFound(String),
    /// The request collides with a record that exists.
    Conflict(String),
    /// The record store failed for a reason that has no class of its own.
    Internal(String),
}

/// The mathematical value of an [`ApiError`].
pub enum ApiErrorView {
    Validation(Seq<char>),
    NotFound(Seq<char>),
    Conflict(Seq<char>),
    Internal(Seq<char>),
}

impl View for ApiError {
    type V = ApiErrorView;

    open spec fn view(&self) -> ApiErrorView {
        match *self {
            ApiError::Validation(text) => ApiErrorView::Validation(text@),
            ApiError::NotFound(text) => ApiErrorView::NotFound(text@),
            ApiError::Conflict(text) => ApiErrorView::Conflict(text@),
            ApiError::Internal(text) => ApiErrorView::Internal(text@),
        }
    }
}

impl ApiErrorView {
    /// The response that reports this failure: 400, 404 and 409 are the
    /// client's to mend and carry the outcome `fail`; 500 carries `error`.
    pub open spec fn response(self) -> ResponseView {
        match self {
            ApiErrorView::Validation(text) => ResponseView::message(400, Outcome::Fail, text),
            ApiErrorView::NotFound(text) => ResponseView::message(404, Outcome::Fail, text),
            ApiErrorView::Conflict(text) => ResponseView::message(409, Outcome::Fail, text),
            ApiErrorView::Internal(text) => ResponseView::message(500, Outcome::Error, text),
        }
    }
}

impl ApiError {
    /// The HTTP status code that reports this failure.
    pub fn status_code(&self) -> (status: u16)
        ensures
            status == self@.response().status,
    {
        match self {
            ApiError::Validation(_) => 400,
            ApiError::NotFound(_) => 404,
            ApiError::Conflict(_) => 409,
            ApiError::Internal(_) => 500,
        }
    }

    /// The response that reports this failure.
    pub fn into_response(self) -> (response: Response)
        ensures
            response@ == self@.response(),
    {
        match self {
            ApiError::Validation(text) => Response::message(400, Outcome::Fail, text),
            ApiError::NotFound(text) => Response::message(404, Outcome::Fail, text),
            ApiError::Conflict(text) => Response::message(409, Outcome::Fail, text),
            ApiError::Internal(text) => Response::message(500, Outcome::Error, text),
        }
    }
}

} // verus!
