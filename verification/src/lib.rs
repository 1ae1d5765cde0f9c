//! A JSON-RPC 2.0 request/response envelope.
//!
//! The crate validates an inbound byte payload into a [`convention::Request`]
//! or a standard [`convention::ErrorData`], and folds a dispatch outcome into
//! a [`convention::Response`] ready for serialization.  The HTTP transport and
//! the dispatched operations themselves are the host application's business.

pub mod codec;
pub mod convention;
pub mod network;
pub mod parse;
pub mod value;
