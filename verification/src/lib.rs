//! Core library of a small Gemini-protocol content server.
//!
//! The library covers the pure part of the server: encoding responses in the
//! protocol's wire format, parsing a request line into path and query,
//! routing a path to an upstream wiki API, building the upstream request URL,
//! and rendering a fetched wiki page as a protocol document.  All network and
//! file I/O lives outside the library and hands it plain values.

pub mod encode;
pub mod fetch;
pub mod handler;
pub mod request;
pub mod routes;
pub mod status;
pub mod text;
