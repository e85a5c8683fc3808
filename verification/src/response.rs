//! HTTP responses as plain values: a status code and a body.

use vstd::prelude::*;

verus! {

/// The request succeeded.
pub const STATUS_OK: u16 = 200;

/// The request is missing something or asks for what cannot be done.
pub const STATUS_BAD_REQUEST: u16 = 400;

/// The credentials or the token are not accepted.
pub const STATUS_UNAUTHORIZED: u16 = 401;

/// The token is good but the user it names is gone.
pub const STATUS_NOT_FOUND: u16 = 404;

/// Storage, hashing or signing failed.
pub const STATUS_INTERNAL_SERVER_ERROR: u16 = 500;

/// The body of a response.
#[derive(Clone, Debug, PartialEq, Eq)]
pub enum Body {
    /// Plain text.
    Text(String),
    /// The JSON object `{token}`.
    Token { token: String },
    /// The JSON object `{token, user: {id, username}}`.
    Registered { token: String, id: i32, username: String },
    /// The JSON object `{id, username}`.
    Profile { id: i32, username: String },
}

/// The body of a response as plain values.
pub enum BodyView {
    Text(Seq<char>),
    Token { token: Seq<char> },
    Registered { token: Seq<char>, id: i32, username: Seq<char> },
    Profile { id: i32, username: Seq<char> },
}

impl View for Body {
    type V = BodyView;

    open spec fn view(&self) -> BodyView {
        match self {
            Body::Text(text) => BodyView::Text(text@),
            Body::Token { token } => BodyView::Token { token: token@ },
            Body::Registered { token, id, username } => BodyView::Registered {
                token: token@,
                id: *id,
                username: username@,
            },
            Body::Profile { id, username } => BodyView::Profile { id: *id, username: username@ },
        }
    }
}

/// A response: status code and body.
#[derive(Clone, Debug, PartialEq, Eq)]
pub struct Response {
    pub status: u16,
    pub body: Body,
}

/// A response as plain values.
pub struct ResponseView {
    pub status: u16,
    pub body: BodyView,
}

impl View for Response {
    type V = ResponseView;

    open spec fn view(&self) -> ResponseView {
        ResponseView { status: self.status, body: self.body@ }
    }
}

/// The plain-text response with the given status.
pub open spec fn text_response(status: u16, text: Seq<char>) -> ResponseView {
    ResponseView { status, body: BodyView::Text(text) }
}

impl Response {
    /// A plain-text response.
    pub fn text(status: u16, text: String) -> (res: Response)
        ensures
            res@ == text_response(status, text@),
    {
        Response { status, body: Body::Text(text) }
    }

    /// A plain-text response whose text is `prefix` followed by `detail`.
    pub fn text_with_detail(status: u16, prefix: &str, detail: &str) -> (res: Response)
        ensures
            res@ == text_response(status, prefix@ + detail@),
    {
        Response { status, body: Body::Text(String::from_str(prefix).concat(detail)) }
    }
}

} // verus!
