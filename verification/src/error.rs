//! The request-terminal error taxonomy, with the HTTP status code and the
//! human-readable message each error is surfaced with.

use vstd::prelude::*;
use crate::format::Format;

verus! {

/// An error found while interpreting the inbound request.
#[derive(Debug, Clone)]
pub enum NegotiationError {
    /// The required `uri` query parameter is absent.
    MissingUriParam,
    /// The `uri` query parameter does not parse as an absolute URI.
    InvalidUri { given: String },
    /// The `file-ext` query parameter maps to no known format.
    UnsupportedFileExt { given: String },
    /// The `Accept` header maps to no known format.
    UnsupportedAccept { given: String },
    /// The `query-accept` query parameter maps to no known format.
    UnsupportedQueryAccept { given: String },
}

impl NegotiationError {
    /// The HTTP status code the error is surfaced with: 404 for a missing
    /// `uri` parameter, 415 for everything the registry cannot resolve.
    pub open spec fn spec_status_code(self) -> u16 {
        match self {
            NegotiationError::MissingUriParam => 404,
            NegotiationError::InvalidUri { .. } => 415,
            NegotiationError::UnsupportedFileExt { .. } => 415,
            NegotiationError::UnsupportedAccept { .. } => 415,
            NegotiationError::UnsupportedQueryAccept { .. } => 415,
        }
    }

    /// The HTTP status code the error is surfaced with.
    pub fn status_code(&self) -> (r: u16)
        ensures
            r == self.spec_status_code(),
    {
        match self {
            NegotiationError::MissingUriParam => 404,
            NegotiationError::InvalidUri { .. } => 415,
            NegotiationError::UnsupportedFileExt { .. } => 415,
            NegotiationError::UnsupportedAccept { .. } => 415,
            NegotiationError::UnsupportedQueryAccept { .. } => 415,
        }
    }

    /// The human-readable message, distinguishing the failing input.
    pub open spec fn spec_message(self) -> Seq<char> {
        match self {
            NegotiationError::MissingUriParam => "'uri' param missing"@,
            NegotiationError::InvalidUri { given } => "'uri' is invalid: "@ + given@,
            NegotiationError::UnsupportedFileExt { given } =>
                "Failed to parse file extension to be requested '"@ + given@
                    + "' to an RDF MIME type"@,
            NegotiationError::UnsupportedAccept { given } =>
                "Failed to parse requested content-type '"@ + given@
                    + "' to an RDF MIME type"@,
            NegotiationError::UnsupportedQueryAccept { given } =>
                "Failed to parse content-type to be requested '"@ + given@
                    + "' to an RDF MIME type"@,
        }
    }

    /// The human-readable message the error is surfaced with.
    pub fn message(&self) -> (r: String)
        ensures
            r@ == self.spec_message(),
    {
        match self {
            NegotiationError::MissingUriParam => "'uri' param missing".to_owned(),
            NegotiationError::InvalidUri { given } => {
                let mut out = "'uri' is invalid: ".to_owned();
                out.append(given.as_str());
                out
            },
            NegotiationError::UnsupportedFileExt { given } => {
                let mut out = "Failed to parse file extension to be requested '".to_owned();
                out.append(given.as_str());
                out.append("' to an RDF MIME type");
                out
            },
            NegotiationError::UnsupportedAccept { given } => {
                let mut out = "Failed to parse requested content-type '".to_owned();
                out.append(given.as_str());
                out.append("' to an RDF MIME type");
                out
            },
            NegotiationError::UnsupportedQueryAccept { given } => {
                let mut out = "Failed to parse content-type to be requested '".to_owned();
                out.append(given.as_str());
                out.append("' to an RDF MIME type");
                out
            },
        }
    }
}

/// An error found while resolving a negotiated request.
#[derive(Debug, Clone)]
pub enum ResolveError {
    /// The origin fetch failed: network error, timeout, or non-2xx status.
    UpstreamFailure { detail: String },
    /// The origin returned a format that is not machine-readable and
    /// differs from the target, so no conversion path exists.
    NotConvertible { format: Format },
    /// The converter ran on the freshly fetched document and failed.
    ConversionFailure { detail: String },
    /// A cache directory or file could not be created or written.
    StorageFailure { detail: String },
}

impl ResolveError {
    /// The HTTP status code the error is surfaced with: 502 for an
    /// upstream failure, 500 for everything that fails on this side.
    pub open spec fn spec_status_code(self) -> u16 {
        match self {
            ResolveError::UpstreamFailure { .. } => 502,
            ResolveError::NotConvertible { .. } => 500,
            ResolveError::ConversionFailure { .. } => 500,
            ResolveError::StorageFailure { .. } => 500,
        }
    }

    /// The HTTP status code the error is surfaced with.
    pub fn status_code(&self) -> (r: u16)
        ensures
            r == self.spec_status_code(),
    {
        match self {
            ResolveError::UpstreamFailure { .. } => 502,
            ResolveError::NotConvertible { .. } => 500,
            ResolveError::ConversionFailure { .. } => 500,
            ResolveError::StorageFailure { .. } => 500,
        }
    }

    /// The human-readable message, distinguishing the failing stage.
    pub open spec fn spec_message(self) -> Seq<char> {
        match self {
            ResolveError::UpstreamFailure { detail } =>
                "Failed to download the ontology: "@ + detail@,
            ResolveError::NotConvertible { format } =>
                "As the format returned by the server ("@ + format.spec_name()
                    + ") is not machine-readable, it cannot be converted into the requested format."@,
            ResolveError::ConversionFailure { detail } =>
                "Failed to convert the ontology: "@ + detail@,
            ResolveError::StorageFailure { detail } =>
                "Failed to access the cache store: "@ + detail@,
        }
    }

    /// The human-readable message the error is surfaced with.
    pub fn message(&self) -> (r: String)
        ensures
            r@ == self.spec_message(),
    {
        match self {
            ResolveError::UpstreamFailure { detail } => {
                let mut out = "Failed to download the ontology: ".to_owned();
                out.append(detail.as_str());
                out
            },
            ResolveError::NotConvertible { format } => {
                let mut out = "As the format returned by the server (".to_owned();
                out.append(format.name());
                out.append(") is not machine-readable, it cannot be converted into the requested format.");
                out
            },
            ResolveError::ConversionFailure { detail } => {
                let mut out = "Failed to convert the ontology: ".to_owned();
                out.append(detail.as_str());
                out
            },
            ResolveError::StorageFailure { detail } => {
                let mut out = "Failed to access the cache store: ".to_owned();
                out.append(detail.as_str());
                out
            },
        }
    }
}

} // verus!
