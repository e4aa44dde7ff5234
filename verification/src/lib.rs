//! A typed client core for a brokerage's REST and streaming interfaces.
//!
//! A caller describes one API operation as an [`endpoint::Endpoint`]
//! implementation, builds a signed request through [`client::Client`], and
//! turns the eventual status code and body into a typed result with
//! [`endpoint::convert_result`]. A persistent feed is described by an
//! [`events::EventStream`] implementation and consumed through an
//! [`events::Subscription`], which yields decoded events strictly in frame
//! order until the connection closes or the consumer cancels.
//!
//! The transport itself (connection pool, TLS, the socket a subscription
//! reads from) is not part of this crate's verified surface: a driver hands
//! plain status codes, bodies and frames in, and receives plain requests and
//! typed results back.

pub mod client;
pub mod endpoint;
pub mod events;
pub mod http;
pub mod mock;

use vstd::prelude::*;

verus! {

/// Errors arising while a client is constructed.
#[derive(Clone, Copy, Debug, PartialEq, Eq, Structural)]
pub enum Error {
    /// The API base address does not parse as an absolute URL that can
    /// serve as a base for path and query edits.
    InvalidBaseUrl,
    /// The API base address is longer than the client accepts.
    BaseUrlTooLong,
}

} // verus!
