//! A minimal gateway-protocol backend: one routing decision and one handler
//! that lists the HTML files of a configured directory as a JSON array.
//!
//! The crate holds the request logic alone. The transport that parses
//! requests and carries responses, and the directory scan itself, live in the
//! surrounding binary; they hand this library plain values and take plain
//! values back.

pub mod json;
pub mod listing;
pub mod response;
pub mod routing;
pub mod text;
