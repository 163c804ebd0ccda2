//! One operation as an exchange with the HTTP transport.
//!
//! The library does no I/O. An operation hands the caller a [`Call`]; the
//! caller sends its request and reports what came back, a [`Reply`] or the
//! transport's error; [`Call::respond`] then says what to do with it, as a
//! [`Step`]. Where the step asks for the body, it hands the body back; the
//! caller reads it and gives the reading to [`received`] or to
//! [`Rejection::with_text`], which give the operation's result.

use vstd::prelude::*;
use crate::error::{ClientError, ClientErrorView};
use crate::request::Request;
use crate::status::{BAD_REQUEST, NOT_FOUND, NO_CONTENT, OK};

verus! {

/// The six operations on domains.
#[derive(Debug, Clone, Copy, PartialEq, Eq, Structural)]
pub enum Operation {
    CreateDomain,
    GetDomains,
    GetDomain,
    DeleteDomain,
    GetOwningDomain,
    GetZonefile,
}

/// The shape in which the body of a successful response is read.
#[derive(Debug, Clone, Copy, PartialEq, Eq, Structural)]
pub enum Payload {
    /// JSON: one domain.
    Domain,
    /// JSON: an array of domains, kept in the order in which the server sent them.
    DomainList,
    /// The text as it is, with nothing parsed.
    Text,
}

/// An error status whose response text is part of the error.
#[derive(Debug, Clone, Copy, PartialEq, Eq, Structural)]
pub enum Rejection {
    /// The server refused the data that the caller supplied.
    ApiError(u16),
    /// The operation does not know the status.
    UnexpectedStatus(u16),
}

/// A response as the transport holds it: the status, and the body, not yet
/// read. The library never looks into the body: `B` is whatever the transport
/// reads bodies from.
#[derive(Debug)]
pub struct Reply<B> {
    pub status: u16,
    pub body: B,
}

/// What the caller does with a response.
#[derive(Debug)]
pub enum Step<B> {
    /// The operation succeeded: read the body in this shape and hand the
    /// reading to [`received`].
    Read(Payload, B),
    /// The operation failed and the response text says why: read the body as
    /// text and hand it to [`Rejection::with_text`].
    Explain(Rejection, B),
    /// The operation failed and there is nothing to read.
    Fail(ClientError),
}

/// An operation under way: which one it is, and the request that it sends.
#[derive(Debug, Clone, PartialEq, Eq)]
pub struct Call {
    pub operation: Operation,
    pub request: Request,
}

impl Operation {
    /// The one status on which the operation succeeds.
    pub open spec fn success_status(self) -> u16 {
        match self {
            Operation::DeleteDomain => NO_CONTENT,
            _ => OK,
        }
    }

    /// The shape of what the operation returns.
    pub open spec fn payload(self) -> Payload {
        match self {
            Operation::GetDomains => Payload::DomainList,
            Operation::DeleteDomain | Operation::GetZonefile => Payload::Text,
            _ => Payload::Domain,
        }
    }

    /// Whether the operation asks for one domain that may not exist, so that
    /// 404 is an answer of its own.
    pub open spec fn may_miss(self) -> bool {
        self == Operation::GetDomain || self == Operation::GetOwningDomain
    }

    /// Whether the operation sends data that the server may refuse with 400.
    pub open spec fn may_be_refused(self) -> bool {
        self == Operation::CreateDomain
    }

    /// What the operation makes of the transport's report: `Err` where the
    /// call itself failed, else the status of the response.
    ///
    /// Each operation knows its success status and at most one error status;
    /// every other status is unexpected, whatever it is.
    pub open spec fn step<B>(self, response: Result<Reply<B>, reqwest::Error>) -> Step<B> {
        match response {
            Err(error) => Step::Fail(ClientError::Reqwest(error)),
            Ok(reply) => {
                if reply.status == self.success_status() {
                    Step::Read(self.payload(), reply.body)
                } else if reply.status == BAD_REQUEST && self.may_be_refused() {
                    Step::Explain(Rejection::ApiError(reply.status), reply.body)
                } else if reply.status == NOT_FOUND && self.may_miss() {
                    Step::Fail(ClientError::NotFound)
                } else {
                    Step::Explain(Rejection::UnexpectedStatus(reply.status), reply.body)
                }
            },
        }
    }
}

/// The text of a response that is read for an error: where reading it failed,
/// the error carries the empty text.
pub open spec fn text_or_empty(text: Result<String, reqwest::Error>) -> Seq<char> {
    match text {
        Ok(text) => text@,
        Err(_) => Seq::empty(),
    }
}

impl Rejection {
    /// The error that the rejection becomes once the response text is read.
    pub open spec fn error(self, text: Result<String, reqwest::Error>) -> ClientErrorView {
        match self {
            Rejection::ApiError(status) => ClientErrorView::ApiError(status, text_or_empty(text)),
            Rejection::UnexpectedStatus(status) => ClientErrorView::UnexpectedStatusCode(
                status,
                text_or_empty(text),
            ),
        }
    }

    /// Ends the exchange with the error for this rejection. `text` is what
    /// reading the body as text gave: the text, or the transport's error,
    /// which is dropped.
    pub fn with_text(self, text: Result<String, reqwest::Error>) -> (error: ClientError)
        ensures
            error@ == self.error(text),
    {
        let text = match text {
            Ok(text) => text,
            Err(_) => String::new(),
        };
        match self {
            Rejection::ApiError(status) => ClientError::ApiError(status, text),
            Rejection::UnexpectedStatus(status) => ClientError::UnexpectedStatusCode(status, text),
        }
    }
}

/// What a successful response gives, once its body is read.
pub open spec fn received_spec<T>(body: Result<T, String>) -> Result<T, ClientError> {
    match body {
        Ok(value) => Ok(value),
        Err(reason) => Err(ClientError::InvalidAPIResponse(reason)),
    }
}

/// Ends the exchange after a successful status. `body` is what reading the
/// body in the shape of [`Step::Read`] gave: the value, which is returned as
/// it is, or the description of why the body could not be read so.
pub fn received<T>(body: Result<T, String>) -> (result: Result<T, ClientError>)
    ensures
        result == received_spec(body),
{
    match body {
        Ok(value) => Ok(value),
        Err(reason) => Err(ClientError::InvalidAPIResponse(reason)),
    }
}

impl Call {
    /// Says what to do with the transport's report on this call's request:
    /// `Err` where the call itself failed, else the response.
    pub fn respond<B>(&self, response: Result<Reply<B>, reqwest::Error>) -> (step: Step<B>)
        ensures
            step == self.operation.step(response),
    {
        let reply = match response {
            Ok(reply) => reply,
            Err(error) => {
                return Step::Fail(ClientError::Reqwest(error));
            },
        };
        let status = reply.status;
        match self.operation {
            Operation::CreateDomain => {
                if status == OK {
                    Step::Read(Payload::Domain, reply.body)
                } else if status == BAD_REQUEST {
                    Step::Explain(Rejection::ApiError(status), reply.body)
                } else {
                    Step::Explain(Rejection::UnexpectedStatus(status), reply.body)
                }
            },
            Operation::GetDomains => {
                if status == OK {
                    Step::Read(Payload::DomainList, reply.body)
                } else {
                    Step::Explain(Rejection::UnexpectedStatus(status), reply.body)
                }
            },
            Operation::GetDomain | Operation::GetOwningDomain => {
                if status == OK {
                    Step::Read(Payload::Domain, reply.body)
                } else if status == NOT_FOUND {
                    Step::Fail(ClientError::NotFound)
                } else {
                    Step::Explain(Rejection::UnexpectedStatus(status), reply.body)
                }
            },
            Operation::DeleteDomain => {
                if status == NO_CONTENT {
                    Step::Read(Payload::Text, reply.body)
                } else {
                    Step::Explain(Rejection::UnexpectedStatus(status), reply.body)
                }
            },
            Operation::GetZonefile => {
                if status == OK {
                    Step::Read(Payload::Text, reply.body)
                } else {
                    Step::Explain(Rejection::UnexpectedStatus(status), reply.body)
                }
            },
        }
    }
}

} // verus!
