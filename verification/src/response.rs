//! What an endpoint answers: a status and a body.

use vstd::prelude::*;

verus! {

/// The three statuses that the service answers with.
#[derive(Clone, Copy, PartialEq, Eq, Structural, Debug)]
pub enum Status {
    /// The operation was carried out.
    Success,
    /// The row that was asked for does not exist.
    NotFound,
    /// The statement failed.
    InternalServerError,
}

impl Status {
    /// The HTTP status code.
    pub open spec fn code_value(self) -> int {
        match self {
            Status::Success => 200,
            Status::NotFound => 404,
            Status::InternalServerError => 500,
        }
    }

    /// The HTTP status code.
    pub fn code(self) -> (code: u16)
        ensures
            code == self.code_value(),
    {
        match self {
            Status::Success => 200,
            Status::NotFound => 404,
            Status::InternalServerError => 500,
        }
    }
}

/// An answer to one request. The body is JSON text, or empty.
#[derive(Debug)]
pub struct Response {
    pub status: Status,
    pub body: String,
}

/// A response as a mathematical value.
pub struct ResponseView {
    pub status: Status,
    pub body: Seq<char>,
}

impl View for Response {
    type V = ResponseView;

    open spec fn view(&self) -> ResponseView {
        ResponseView { status: self.status, body: self.body@ }
    }
}

} // verus!
