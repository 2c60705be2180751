//! The two error kinds of the library: malformed input and failed requests.
//!
//! Both carry a human-readable message; the contracts of the functions that
//! produce them pin that message down exactly, so callers can rely on what
//! an error says.

use vstd::prelude::*;

verus! {

/// Malformed input: wrong argument count, an unreadable or malformed
/// credentials file, or a missing execution token.
#[derive(Debug)]
pub struct ParseError {
    details: String,
}

impl View for ParseError {
    type V = Seq<char>;

    closed spec fn view(&self) -> Seq<char> {
        self.details@
    }
}

impl ParseError {
    pub fn new(msg: &str) -> (e: ParseError)
        ensures
            e@ == msg@,
    {
        ParseError { details: msg.to_owned() }
    }

    /// The message carried by this error.
    pub fn details(&self) -> (r: &str)
        ensures
            r@ == self@,
    {
        self.details.as_str()
    }
}

/// Transport or protocol failure: a connection error, a non-success HTTP
/// status, or an undecodable response body.
#[derive(Debug)]
pub struct RequestError {
    details: String,
}

impl View for RequestError {
    type V = Seq<char>;

    closed spec fn view(&self) -> Seq<char> {
        self.details@
    }
}

impl RequestError {
    pub fn new(msg: &str) -> (e: RequestError)
        ensures
            e@ == msg@,
    {
        RequestError { details: msg.to_owned() }
    }

    /// The message carried by this error.
    pub fn details(&self) -> (r: &str)
        ensures
            r@ == self@,
    {
        self.details.as_str()
    }
}

} // verus!
