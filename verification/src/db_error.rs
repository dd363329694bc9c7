//! The typed error model of the client.
//!
//! Every failed operation returns exactly one `DBError`, classified into
//! one of three kinds: a transport-level failure, a key the store does not
//! hold, or a response body that could not be decoded as text.

use vstd::prelude::*;

verus! {

/// How an operation failed.
#[derive(Clone, Copy, PartialEq, Eq, Structural, Debug)]
pub enum DBErrorKind {
    /// The HTTP exchange itself failed (connection, DNS, TLS, timeout).
    Request,
    /// The store answered status 404: the key is not held.
    NotFound,
    /// The response body could not be decoded as text.
    ParseText,
}

/// A classified failure of one key-value operation.
#[derive(Debug)]
pub struct DBError {
    pub kind: DBErrorKind,
    pub message: String,
}

impl DBError {
    /// The error returned when the store answers status 404.
    pub fn not_found_error() -> (e: DBError)
        ensures
            e.kind == DBErrorKind::NotFound,
            e.message@ == "Not Found"@,
    {
        DBError { kind: DBErrorKind::NotFound, message: "Not Found".to_owned() }
    }

    /// The error returned when a response body cannot be decoded as text.
    pub fn parse_text_error() -> (e: DBError)
        ensures
            e.kind == DBErrorKind::ParseText,
            e.message@ == "Unable to parse text"@,
    {
        DBError { kind: DBErrorKind::ParseText, message: "Unable to parse text".to_owned() }
    }

    /// The error returned when the HTTP exchange itself fails; `message`
    /// carries the transport's own description of the failure.
    pub fn request_error(message: String) -> (e: DBError)
        ensures
            e.kind == DBErrorKind::Request,
            e.message@ == message@,
    {
        DBError { kind: DBErrorKind::Request, message }
    }

    /// The short display form: one fixed phrase per kind.
    pub fn display_text(&self) -> (r: String)
        ensures
            self.kind == DBErrorKind::Request ==> r@ == "Error when making request"@,
            self.kind == DBErrorKind::NotFound ==> r@ == "Not Found"@,
            self.kind == DBErrorKind::ParseText ==> r@ == "Unable to parse text"@,
    {
        match self.kind {
            DBErrorKind::Request => "Error when making request".to_owned(),
            DBErrorKind::NotFound => "Not Found".to_owned(),
            DBErrorKind::ParseText => "Unable to parse text".to_owned(),
        }
    }

    /// The verbose form: for a transport failure it appends the wrapped
    /// transport error's detail; the other kinds show their fixed phrase.
    pub fn debug_text(&self) -> (r: String)
        ensures
            self.kind == DBErrorKind::Request ==> r@ == "Error when making request => "@
                + self.message@,
            self.kind == DBErrorKind::NotFound ==> r@ == "Not Found"@,
            self.kind == DBErrorKind::ParseText ==> r@ == "Unable to parse text"@,
    {
        match self.kind {
            DBErrorKind::Request => {
                let mut r = "Error when making request => ".to_owned();
                r.append(self.message.as_str());
                r
            },
            DBErrorKind::NotFound => "Not Found".to_owned(),
            DBErrorKind::ParseText => "Unable to parse text".to_owned(),
        }
    }
}

} // verus!
