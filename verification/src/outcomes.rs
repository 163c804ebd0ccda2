//! What each operation ends in, status by status.
//!
//! Every statement here follows from [`Operation::step`], [`received_spec`]
//! and [`Rejection::error`]; it is written out once for each operation, so
//! that the operation can be read without the others.

use vstd::prelude::*;
use crate::domain::{Domain, DomainList};
use crate::error::{ClientError, ClientErrorView};
use crate::exchange::{received_spec, Operation, Payload, Rejection, Reply, Step};
use crate::status::{BAD_REQUEST, NOT_FOUND, NO_CONTENT, OK};

verus! {

/// The transport's report of a response with this status and this body.
pub open spec fn answered<B>(status: u16, body: B) -> Result<Reply<B>, reqwest::Error> {
    Ok(Reply { status, body })
}

/// Whichever the operation, a call that the transport could not complete ends
/// at once with the transport's own error: no body is asked for, so nothing
/// is decoded.
pub proof fn lemma_transport_failure_ends_exchange<B>(operation: Operation, error: reqwest::Error)
    ensures
        operation.step::<B>(Err(error)) == Step::<B>::Fail(ClientError::Reqwest(error)),
        !(operation.step::<B>(Err(error)) is Read),
        !(operation.step::<B>(Err(error)) is Explain),
{
}

/// Whichever the operation, the body is read in the operation's shape on its
/// success status and on no other, and what was decoded is the result as it
/// is; a body that could not be read so is an invalid response with the
/// reason given.
pub proof fn lemma_success_returns_body<B, T>(
    operation: Operation,
    status: u16,
    body: B,
    value: T,
    reason: String,
)
    ensures
        operation.step(answered(status, body)) is Read <==> status == operation.success_status(),
        status == operation.success_status() ==> operation.step(answered(status, body))
            == Step::Read(operation.payload(), body),
        received_spec::<T>(Ok(value)) == Ok::<T, ClientError>(value),
        received_spec::<T>(Err(reason)) == Err::<T, ClientError>(
            ClientError::InvalidAPIResponse(reason),
        ),
{
}

/// Whichever the operation, a status that it does not know is an
/// unexpected-status error that carries that status and the response text.
pub proof fn lemma_unknown_status_is_unexpected<B>(
    operation: Operation,
    status: u16,
    body: B,
    text: String,
)
    requires
        status != operation.success_status(),
        !(status == BAD_REQUEST && operation.may_be_refused()),
        !(status == NOT_FOUND && operation.may_miss()),
    ensures
        operation.step(answered(status, body)) == Step::Explain(
            Rejection::UnexpectedStatus(status),
            body,
        ),
        Rejection::UnexpectedStatus(status).error(Ok(text)) == ClientErrorView::UnexpectedStatusCode(
            status,
            text@,
        ),
{
}

/// Creating a domain: 200 gives the decoded domain, field for field; 400 gives
/// an API error with exactly the response text; any other status gives an
/// unexpected-status error with that status and the text.
pub proof fn lemma_create_domain_outcomes<B>(status: u16, body: B, domain: Domain, text: String)
    ensures
        Operation::CreateDomain.step(answered(OK, body)) == Step::Read(Payload::Domain, body),
        received_spec::<Domain>(Ok(domain)) == Ok::<Domain, ClientError>(domain),
        Operation::CreateDomain.step(answered(BAD_REQUEST, body)) == Step::Explain(
            Rejection::ApiError(BAD_REQUEST),
            body,
        ),
        Rejection::ApiError(BAD_REQUEST).error(Ok(text)) == ClientErrorView::ApiError(
            BAD_REQUEST,
            text@,
        ),
        status != OK && status != BAD_REQUEST ==> Operation::CreateDomain.step(
            answered(status, body),
        ) == Step::Explain(Rejection::UnexpectedStatus(status), body),
        Rejection::UnexpectedStatus(status).error(Ok(text)) == ClientErrorView::UnexpectedStatusCode(
            status,
            text@,
        ),
{
}

/// Listing the domains: 200 gives the decoded list in the server's order, and
/// an empty array gives the empty list, which is no error; any other status
/// gives an unexpected-status error.
pub proof fn lemma_get_domains_outcomes<B>(status: u16, body: B, domains: DomainList)
    ensures
        Operation::GetDomains.step(answered(OK, body)) == Step::Read(Payload::DomainList, body),
        received_spec::<DomainList>(Ok(domains)) == Ok::<DomainList, ClientError>(domains),
        domains@.len() == 0 ==> (received_spec::<DomainList>(Ok(domains)) matches Ok(list)
            && list@.len() == 0),
        status != OK ==> Operation::GetDomains.step(answered(status, body)) == Step::Explain(
            Rejection::UnexpectedStatus(status),
            body,
        ),
{
}

/// Fetching one domain, by its name or by a record name that it owns: 200
/// gives the decoded domain; 404 gives the not-found error, which carries
/// nothing and reads no body; any other status gives an unexpected-status
/// error.
pub proof fn lemma_get_domain_outcomes<B>(
    operation: Operation,
    status: u16,
    body: B,
    domain: Domain,
)
    requires
        operation == Operation::GetDomain || operation == Operation::GetOwningDomain,
    ensures
        operation.step(answered(OK, body)) == Step::Read(Payload::Domain, body),
        received_spec::<Domain>(Ok(domain)) == Ok::<Domain, ClientError>(domain),
        operation.step(answered(NOT_FOUND, body)) == Step::<B>::Fail(ClientError::NotFound),
        status != OK && status != NOT_FOUND ==> operation.step(answered(status, body))
            == Step::Explain(Rejection::UnexpectedStatus(status), body),
{
}

/// Deleting a domain: 204 gives the response text as it is, the empty text
/// too; any other status, 200 among them, gives an unexpected-status error
/// with that status and the text.
pub proof fn lemma_delete_domain_outcomes<B>(status: u16, body: B, text: String)
    ensures
        Operation::DeleteDomain.step(answered(NO_CONTENT, body)) == Step::Read(
            Payload::Text,
            body,
        ),
        received_spec::<String>(Ok(text)) == Ok::<String, ClientError>(text),
        status != NO_CONTENT ==> Operation::DeleteDomain.step(answered(status, body))
            == Step::Explain(Rejection::UnexpectedStatus(status), body),
        Rejection::UnexpectedStatus(status).error(Ok(text)) == ClientErrorView::UnexpectedStatusCode(
            status,
            text@,
        ),
{
}

/// Fetching a zonefile: 200 gives the response text as it is, nothing parsed;
/// any other status gives an unexpected-status error.
pub proof fn lemma_get_zonefile_outcomes<B>(status: u16, body: B, text: String)
    ensures
        Operation::GetZonefile.step(answered(OK, body)) == Step::Read(Payload::Text, body),
        received_spec::<String>(Ok(text)) == Ok::<String, ClientError>(text),
        status != OK ==> Operation::GetZonefile.step(answered(status, body)) == Step::Explain(
            Rejection::UnexpectedStatus(status),
            body,
        ),
{
}

/// An error status whose text could not be read carries the empty text.
pub proof fn lemma_unread_text_is_empty(rejection: Rejection, error: reqwest::Error)
    ensures
        rejection.error(Err(error)) == match rejection {
            Rejection::ApiError(status) => ClientErrorView::ApiError(status, Seq::empty()),
            Rejection::UnexpectedStatus(status) => ClientErrorView::UnexpectedStatusCode(
                status,
                Seq::empty(),
            ),
        },
{
}

} // verus!
