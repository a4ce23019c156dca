//! A caching, format-converting proxy core for machine-readable RDF documents.
//!
//! A client asks for "resource U in format M"; the resolution engine decides,
//! step by step, whether to serve a cached copy, convert an already-cached
//! copy, or fetch U from its origin and convert the result.  All decision
//! logic lives here and is verified; the surrounding binary performs the
//! network and filesystem work the engine asks for.

pub mod cache;
pub mod error;
pub mod format;
pub mod ont_request;
pub mod resolve;
pub mod response;
