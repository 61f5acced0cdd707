//! The client side of central management.
//!
//! A client polls its management server for a policy: a set of options that the
//! server fixes, or proposes, for this client. The library makes the request
//! ([`request`]), checks what comes back ([`payload`], [`freshness`], [`sync`]) and
//! says what the host application has to do to apply it ([`apply`], [`maps`],
//! [`policy`]). The host does the input and output: it sends the request, reads and
//! writes JSON, and keeps the options.
pub mod apply;
pub mod crypto;
pub mod error;
pub mod freshness;
pub mod json;
pub mod keys;
pub mod maps;
pub mod options;
pub mod payload;
pub mod policy;
pub mod request;
pub mod sync;
pub mod text;
