//! The ways in which an operation fails.

use vstd::prelude::*;

verus! {

/// `reqwest::Error`, the failure that the HTTP transport reports. Nothing is
/// claimed of what it holds: the library only carries it to the caller.
#[verifier::external_type_specification]
#[verifier::external_body]
pub struct ExReqwestError(reqwest::Error);

/// Why an operation did not return a value.
#[derive(Debug)]
pub enum ClientError {
    /// The HTTP call itself failed; the transport's error is passed on as it came.
    Reqwest(reqwest::Error),
    /// The server answered 404 to an operation for which that is an answer.
    NotFound,
    /// The server answered 400 to data that the caller supplied: the status
    /// and the response text.
    ApiError(u16, String),
    /// The server answered with a status that the operation does not know:
    /// the status and the response text.
    UnexpectedStatusCode(u16, String),
    /// The status promised a body that could not be read in the expected
    /// shape: the description of what went wrong.
    InvalidAPIResponse(String),
}

/// A [`ClientError`] with its texts as sequences of characters.
pub enum ClientErrorView {
    Reqwest(reqwest::Error),
    NotFound,
    ApiError(u16, Seq<char>),
    UnexpectedStatusCode(u16, Seq<char>),
    InvalidAPIResponse(Seq<char>),
}

impl View for ClientError {
    type V = ClientErrorView;

    open spec fn view(&self) -> ClientErrorView {
        match *self {
            ClientError::Reqwest(error) => ClientErrorView::Reqwest(error),
            ClientError::NotFound => ClientErrorView::NotFound,
            ClientError::ApiError(status, text) => ClientErrorView::ApiError(status, text@),
            ClientError::UnexpectedStatusCode(status, text) => ClientErrorView::UnexpectedStatusCode(
                status,
                text@,
            ),
            ClientError::InvalidAPIResponse(reason) => ClientErrorView::InvalidAPIResponse(reason@),
        }
    }
}

} // verus!
