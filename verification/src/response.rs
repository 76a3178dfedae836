//! The uniform shape of every answer: nothing, a value, or an error.

use vstd::prelude::*;

verus! {

/// The kinds of failure that a request can meet.
#[derive(Debug, Clone, Copy, PartialEq, Eq, Structural)]
pub enum ErrorKind {
    /// The body of the request could not be read as the expected record.
    BadRequest,
    /// No token, an unknown token, or a wrong name or credential.
    Unauthorized,
    /// The entity asked for does not exist.
    NotFound,
    /// A field that must be unique is already taken.
    Conflict,
    /// The store refused the operation.
    InternalError,
}

/// The HTTP status that stands for each kind of failure.
pub open spec fn status_of(kind: ErrorKind) -> u16 {
    match kind {
        ErrorKind::BadRequest => 400,
        ErrorKind::Unauthorized => 401,
        ErrorKind::NotFound => 404,
        ErrorKind::Conflict => 409,
        ErrorKind::InternalError => 500,
    }
}

impl ErrorKind {
    /// The HTTP status of this kind of failure.
    pub fn status_code(&self) -> (code: u16)
        ensures
            code == status_of(*self),
    {
        match self {
            ErrorKind::BadRequest => 400,
            ErrorKind::Unauthorized => 401,
            ErrorKind::NotFound => 404,
            ErrorKind::Conflict => 409,
            ErrorKind::InternalError => 500,
        }
    }
}

/// What an error carries to the client: a message, and sometimes details.
#[derive(Debug, PartialEq, Eq)]
pub struct ErrorBody {
    pub error: String,
    pub details: Option<String>,
}

pub struct ErrorBodyView {
    pub error: Seq<char>,
    pub details: Option<Seq<char>>,
}

impl View for ErrorBody {
    type V = ErrorBodyView;

    open spec fn view(&self) -> ErrorBodyView {
        ErrorBodyView {
            error: self.error@,
            details: match self.details {
                Some(d) => Some(d@),
                None => None,
            },
        }
    }
}

/// The answer to a request.
#[derive(Debug, PartialEq, Eq)]
pub enum Response<T> {
    /// The request was carried out and there is nothing to hand back.
    Success(),
    /// The request was carried out and this is its result.
    Return(T),
    /// The request was refused, or failed.
    Error(ErrorKind, ErrorBody),
}

pub enum ResponseView<V> {
    Success,
    Return(V),
    Error(ErrorKind, ErrorBodyView),
}

impl<T: DeepView> View for Response<T> {
    type V = ResponseView<T::V>;

    open spec fn view(&self) -> ResponseView<T::V> {
        match self {
            Response::Success() => ResponseView::Success,
            Response::Return(t) => ResponseView::Return(t.deep_view()),
            Response::Error(kind, body) => ResponseView::Error(*kind, body@),
        }
    }
}

/// An error of kind `kind` with the message `error` and no details.
pub open spec fn plain_error<V>(kind: ErrorKind, error: Seq<char>) -> ResponseView<V> {
    ResponseView::Error(kind, ErrorBodyView { error, details: None })
}

/// The one answer to every request whose token is not admitted.
pub open spec fn unauthorized<V>() -> ResponseView<V> {
    plain_error(ErrorKind::Unauthorized, "Unauthorized"@)
}

/// The answer to a body that could not be read, with the reader's complaint.
pub open spec fn invalid_json<V>(details: Seq<char>) -> ResponseView<V> {
    ResponseView::Error(
        ErrorKind::BadRequest,
        ErrorBodyView { error: "Invalid JSON"@, details: Some(details) },
    )
}

/// The answer when the store refuses a write.
pub open spec fn database_error<V>() -> ResponseView<V> {
    plain_error(ErrorKind::InternalError, "Database error"@)
}

impl<T> Response<T> {
    /// The HTTP status that goes out with this answer.
    pub open spec fn spec_status(self) -> u16 {
        match self {
            Response::Error(kind, _) => status_of(kind),
            _ => 200,
        }
    }

    /// The HTTP status that goes out with this answer: 200 unless it is an error.
    pub fn status(&self) -> (code: u16)
        ensures
            code == self.spec_status(),
    {
        match self {
            Response::Error(kind, _) => kind.status_code(),
            _ => 200,
        }
    }
}

impl<T: DeepView> Response<T> {
    /// An error with a message and no details.
    pub fn error(kind: ErrorKind, message: &str) -> (r: Self)
        ensures
            r@ == plain_error::<T::V>(kind, message@),
    {
        Response::Error(kind, ErrorBody { error: String::from_str(message), details: None })
    }

    /// The answer to every request whose token is not admitted.
    pub fn unauthorized() -> (r: Self)
        ensures
            r@ == unauthorized::<T::V>(),
    {
        Self::error(ErrorKind::Unauthorized, "Unauthorized")
    }

    /// The answer to a body that could not be read.
    pub fn invalid_json(details: String) -> (r: Self)
        ensures
            r@ == invalid_json::<T::V>(details@),
    {
        Response::Error(
            ErrorKind::BadRequest,
            ErrorBody { error: String::from_str("Invalid JSON"), details: Some(details) },
        )
    }

    /// The answer when the store refuses a write.
    pub fn database_error() -> (r: Self)
        ensures
            r@ == database_error::<T::V>(),
    {
        Self::error(ErrorKind::InternalError, "Database error")
    }
}

} // verus!
