//! A typed binding for a DNS domain management REST API, written without I/O:
//! the library says which request each operation sends and what each response
//! means; the caller moves the bytes.
//!
//! An operation of [`domain::DomainClient`] gives an [`exchange::Call`]. The
//! caller sends the call's request to the URL that [`Client::url`] gives for
//! its path, and hands the status of the response, or the transport's error,
//! to [`exchange::Call::respond`]. The answer is an [`exchange::Step`]: read
//! the body and pass it to [`exchange::received`], read the text of an error
//! and pass it to [`exchange::Rejection::with_text`], or stop with the error
//! given. No operation is retried and nothing is kept between calls.
//!
//! The one body that the library writes, the name of a new domain, is JSON
//! whatever the name holds: [`json::quote`] writes it. Bodies that come back
//! are decoded by the caller.

pub mod client;
pub mod domain;
pub mod error;
pub mod exchange;
pub mod json;
pub mod outcomes;
pub mod request;
pub mod status;

pub use crate::client::Client;
pub use crate::error::ClientError;
