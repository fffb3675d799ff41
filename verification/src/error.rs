//! The errors of the client.

use crate::text::decimal;
use crate::text::decimal_of;
use vstd::prelude::*;

verus! {

/// What can go wrong in a call to the service.
#[derive(Debug, Clone, PartialEq, Eq)]
pub enum Error {
    /// The transport failed; the text is the transport's account of it.
    RequestError(String),
    /// The reply was no JSON document, or not of the expected shape; the
    /// text says what was wrong.
    JsonError(String),
    /// The service answered with a status outside the success class.
    ApiError { status: u16, message: String },
    /// Authentication failed.
    AuthError(String),
    /// A parameter was not acceptable.
    InvalidInput(String),
    /// A resource was not found.
    NotFound(String),
    /// Anything else.
    Other(String),
}

/// The mathematical value of an [`Error`]. The account that the transport or
/// the JSON reader gives of a failure is no part of it.
pub enum ErrorKind {
    Request,
    Json,
    Api { status: u16, message: Seq<char> },
    Auth(Seq<char>),
    InvalidInput(Seq<char>),
    NotFound(Seq<char>),
    Other(Seq<char>),
}

impl View for Error {
    type V = ErrorKind;

    open spec fn view(&self) -> ErrorKind {
        match self {
            Error::RequestError(_) => ErrorKind::Request,
            Error::JsonError(_) => ErrorKind::Json,
            Error::ApiError { status, message } => ErrorKind::Api {
                status: *status,
                message: message@,
            },
            Error::AuthError(m) => ErrorKind::Auth(m@),
            Error::InvalidInput(m) => ErrorKind::InvalidInput(m@),
            Error::NotFound(m) => ErrorKind::NotFound(m@),
            Error::Other(m) => ErrorKind::Other(m@),
        }
    }
}

impl ErrorKind {
    /// What every description of an error of this kind begins with.
    pub open spec fn heading(self) -> Seq<char> {
        match self {
            ErrorKind::Request => "Request error: "@,
            ErrorKind::Json => "JSON error: "@,
            ErrorKind::Api { status, message } => "API error ("@ + decimal(status as nat) + "): "@,
            ErrorKind::Auth(_) => "Authentication error: "@,
            ErrorKind::InvalidInput(_) => "Invalid input: "@,
            ErrorKind::NotFound(_) => "Not found: "@,
            ErrorKind::Other(_) => "Error: "@,
        }
    }
}

impl DeepView for Error {
    type V = ErrorKind;

    open spec fn deep_view(&self) -> ErrorKind {
        self@
    }
}

/// The value of a result: that of what was returned, or that of the error.
pub open spec fn outcome<T: DeepView>(r: Result<T, Error>) -> Result<T::V, ErrorKind> {
    match r {
        Ok(value) => Ok(value.deep_view()),
        Err(e) => Err(e@),
    }
}

impl Error {
    /// The message that the error carries.
    pub open spec fn detail(&self) -> Seq<char> {
        match self {
            Error::RequestError(m) => m@,
            Error::JsonError(m) => m@,
            Error::ApiError { status, message } => message@,
            Error::AuthError(m) => m@,
            Error::InvalidInput(m) => m@,
            Error::NotFound(m) => m@,
            Error::Other(m) => m@,
        }
    }

    /// A line of text for the error: the heading of its kind, then its
    /// message.
    pub fn describe(&self) -> (r: String)
        ensures
            r@ == self@.heading() + self.detail(),
    {
        let mut r: String = match self {
            Error::RequestError(_) => "Request error: ".to_owned(),
            Error::JsonError(_) => "JSON error: ".to_owned(),
            Error::ApiError { status, message } => {
                let mut head = "API error (".to_owned();
                head.append(decimal_of(*status as u64).as_str());
                head.append("): ");
                head
            },
            Error::AuthError(_) => "Authentication error: ".to_owned(),
            Error::InvalidInput(_) => "Invalid input: ".to_owned(),
            Error::NotFound(_) => "Not found: ".to_owned(),
            Error::Other(_) => "Error: ".to_owned(),
        };
        let detail: &String = match self {
            Error::RequestError(m) => m,
            Error::JsonError(m) => m,
            Error::ApiError { status, message } => message,
            Error::AuthError(m) => m,
            Error::InvalidInput(m) => m,
            Error::NotFound(m) => m,
            Error::Other(m) => m,
        };
        r.append(detail.as_str());
        r
    }
}

} // verus!
