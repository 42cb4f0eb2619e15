//! A typed client library for the fyyd podcast-directory REST API.
//!
//! The library is the pure core of the client: it builds the GET requests for
//! the search and episode-listing endpoints, and decodes the JSON response
//! bodies into typed records, with the loosely-typed parts of the wire format
//! (fields that arrive as either a string or a number, optional metadata
//! blocks, nullable page links) modelled explicitly. The HTTP transport is
//! left to the caller: it hands a response body to the decoders here and
//! receives a typed envelope or a typed error.

pub mod addr;
pub mod error;
pub mod json;
pub mod request;
pub mod response;
pub mod decode;
