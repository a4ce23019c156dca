//! Request interpretation: deriving the negotiated request — source URI,
//! target format, upstream accept format — from the inbound query
//! parameters and the `Accept` header, per the defined precedence.

use vstd::prelude::*;
use crate::error::NegotiationError;
use crate::format::Format;
use crate::format::parse_file_ext;
use crate::format::parse_mime_type;
use crate::format::spec_parse_file_ext;
use crate::format::spec_parse_mime_type;

verus! {

/// If the requested format is not cached yet, which action to prefer to
/// get it: an origin fetch, or a conversion of an already-cached copy.
#[derive(Debug, Copy, Clone, PartialEq, Eq, Structural)]
pub enum DlOrConv {
    Download,
    Convert,
}

/// A fully negotiated inbound request.  Created once per request,
/// immutable afterwards.
#[derive(Debug, Clone)]
pub struct OntRequest {
    /// The original ontology's URI, in normalized serialization.
    pub uri: String,
    /// The format to request from the origin, when fetching; defaults to
    /// the target format.
    pub query_mime_type: Option<Format>,
    /// The format requested by the client: what the response must carry.
    pub mime_type: Format,
    /// Server-wide fallback preference.
    pub pref: DlOrConv,
    /// Time in milliseconds to wait for the origin when fetching.
    pub timeout: u64,
}

/// The normalized serialization of the absolute URL that `url::Url::parse`
/// reads out of a string, if any.  The result depends on the string alone.
pub uninterp spec fn spec_parse_uri(s: Seq<char>) -> Option<Seq<char>>;

/// Relies on `url::Url::parse`: accepts exactly the absolute URLs and
/// returns the parsed URL's normalized serialization.
#[verifier::external_body]
fn parse_uri(s: &str) -> (r: Option<String>)
    ensures
        (r is Some) == (spec_parse_uri(s@) is Some),
        r matches Some(u) ==> spec_parse_uri(s@) == Some(u@),
{
    url::Url::parse(s).ok().map(String::from)
}

/// The format the `file-ext` query parameter selects, if the parameter is
/// present and maps to a known format.
pub fn extract_file_ext(file_ext: Option<&str>) -> (r: Result<Option<Format>, NegotiationError>)
    ensures
        file_ext is None ==> r == Ok::<Option<Format>, NegotiationError>(None),
        (file_ext is Some && spec_parse_file_ext(file_ext.unwrap()@) is Some)
            ==> r == Ok::<Option<Format>, NegotiationError>(
                spec_parse_file_ext(file_ext.unwrap()@)),
        (file_ext is Some && spec_parse_file_ext(file_ext.unwrap()@) is None)
            ==> (r matches Err(NegotiationError::UnsupportedFileExt { given })
                && given@ == file_ext.unwrap()@),
{
    match file_ext {
        None => Ok(None),
        Some(e) => match parse_file_ext(e) {
            Some(f) => Ok(Some(f)),
            None => Err(NegotiationError::UnsupportedFileExt { given: e.to_owned() }),
        },
    }
}

/// The format the `Accept` header selects: the registry default when the
/// header is absent, an error when it maps to no known format.
pub fn extract_requested_content_type(accept: Option<&str>) -> (r: Result<Format, NegotiationError>)
    ensures
        accept is None ==> r == Ok::<Format, NegotiationError>(Format::spec_default()),
        (accept is Some && spec_parse_mime_type(accept.unwrap()@) is Some)
            ==> r == Ok::<Format, NegotiationError>(
                spec_parse_mime_type(accept.unwrap()@).unwrap()),
        (accept is Some && spec_parse_mime_type(accept.unwrap()@) is None)
            ==> (r matches Err(NegotiationError::UnsupportedAccept { given })
                && given@ == accept.unwrap()@),
{
    match accept {
        None => Ok(Format::default_format()),
        Some(a) => match parse_mime_type(a) {
            Some(f) => Ok(f),
            None => Err(NegotiationError::UnsupportedAccept { given: a.to_owned() }),
        },
    }
}

/// The source URI: the required `uri` query parameter, parsed as an
/// absolute URI.  A missing parameter and a parse failure are distinct
/// errors.
pub fn extract_uri(uri: Option<&str>) -> (r: Result<String, NegotiationError>)
    ensures
        uri is None ==> r matches Err(NegotiationError::MissingUriParam),
        (uri is Some && spec_parse_uri(uri.unwrap()@) is None)
            ==> (r matches Err(NegotiationError::InvalidUri { given })
                && given@ == uri.unwrap()@),
        (uri is Some && spec_parse_uri(uri.unwrap()@) is Some)
            ==> (r matches Ok(n) && Some(n@) == spec_parse_uri(uri.unwrap()@)),
{
    match uri {
        None => Err(NegotiationError::MissingUriParam),
        Some(u) => match parse_uri(u) {
            Some(n) => Ok(n),
            None => Err(NegotiationError::InvalidUri { given: u.to_owned() }),
        },
    }
}

/// The upstream accept format: the optional `query-accept` parameter,
/// independently parsed against the registry.
pub fn extract_query_accept(query_accept: Option<&str>) -> (r: Result<Option<Format>, NegotiationError>)
    ensures
        query_accept is None ==> r == Ok::<Option<Format>, NegotiationError>(None),
        (query_accept is Some && spec_parse_mime_type(query_accept.unwrap()@) is Some)
            ==> r == Ok::<Option<Format>, NegotiationError>(
                spec_parse_mime_type(query_accept.unwrap()@)),
        (query_accept is Some && spec_parse_mime_type(query_accept.unwrap()@) is None)
            ==> (r matches Err(NegotiationError::UnsupportedQueryAccept { given })
                && given@ == query_accept.unwrap()@),
{
    match query_accept {
        None => Ok(None),
        Some(q) => match parse_mime_type(q) {
            Some(f) => Ok(Some(f)),
            None => Err(NegotiationError::UnsupportedQueryAccept { given: q.to_owned() }),
        },
    }
}

/// Whether target-format resolution succeeds on these inputs: a present
/// `file-ext` must map to a known format; otherwise a present `Accept`
/// must; with neither present the registry default is used.
pub open spec fn spec_target_ok(fe: Option<Seq<char>>, acc: Option<Seq<char>>) -> bool {
    match fe {
        Some(e) => spec_parse_file_ext(e) is Some,
        None => match acc {
            Some(a) => spec_parse_mime_type(a) is Some,
            None => true,
        },
    }
}

/// The resolved target format, on inputs where resolution succeeds:
/// `file-ext` takes precedence over `Accept`, which takes precedence over
/// the registry default.
pub open spec fn spec_target(fe: Option<Seq<char>>, acc: Option<Seq<char>>) -> Format {
    match fe {
        Some(e) => spec_parse_file_ext(e).unwrap(),
        None => match acc {
            Some(a) => spec_parse_mime_type(a).unwrap(),
            None => Format::spec_default(),
        },
    }
}

/// Format-override precedence: when the `file-ext` parameter is present
/// and maps to a known format, the target format comes from it, whatever
/// the `Accept` header says.
pub proof fn lemma_file_ext_precedence(fe: Seq<char>, acc1: Option<Seq<char>>, acc2: Option<Seq<char>>)
    requires
        spec_parse_file_ext(fe) is Some,
    ensures
        spec_target_ok(Some(fe), acc1),
        spec_target(Some(fe), acc1) == spec_target(Some(fe), acc2),
        spec_target(Some(fe), acc1) == spec_parse_file_ext(fe).unwrap(),
{
}

/// Default format: with neither a `file-ext` parameter nor an `Accept`
/// header, the target format is the registry default.
pub proof fn lemma_default_format()
    ensures
        spec_target_ok(None, None),
        spec_target(None, None) == Format::spec_default(),
{
}

impl OntRequest {
    /// Interprets the inbound request: pure parse-and-validate, per the
    /// defined precedence.  Succeeds exactly on inputs where the target
    /// format resolves, the `uri` parameter is present and parses as an
    /// absolute URI, and the `query-accept` parameter, if present, maps
    /// to a known format.
    pub fn negotiate(
        uri: Option<&str>,
        file_ext: Option<&str>,
        accept: Option<&str>,
        query_accept: Option<&str>,
        pref: DlOrConv,
        timeout: u64,
    ) -> (r: Result<OntRequest, NegotiationError>)
        ensures
            r is Ok <==> {
                &&& spec_target_ok(
                    match file_ext { Some(e) => Some(e@), None => None },
                    match accept { Some(a) => Some(a@), None => None },
                )
                &&& uri is Some
                &&& spec_parse_uri(uri.unwrap()@) is Some
                &&& (query_accept is Some
                    ==> spec_parse_mime_type(query_accept.unwrap()@) is Some)
            },
            r matches Ok(req) ==> {
                &&& req.mime_type == spec_target(
                    match file_ext { Some(e) => Some(e@), None => None },
                    match accept { Some(a) => Some(a@), None => None },
                )
                &&& Some(req.uri@) == spec_parse_uri(uri.unwrap()@)
                &&& req.query_mime_type == (match query_accept {
                    Some(q) => spec_parse_mime_type(q@),
                    None => None::<Format>,
                })
                &&& req.pref == pref
                &&& req.timeout == timeout
            },
            (file_ext is Some && spec_parse_file_ext(file_ext.unwrap()@) is None)
                ==> (r matches Err(NegotiationError::UnsupportedFileExt { given })
                    && given@ == file_ext.unwrap()@),
            (file_ext is None && accept is Some
                && spec_parse_mime_type(accept.unwrap()@) is None)
                ==> (r matches Err(NegotiationError::UnsupportedAccept { given })
                    && given@ == accept.unwrap()@),
            (spec_target_ok(
                match file_ext { Some(e) => Some(e@), None => None },
                match accept { Some(a) => Some(a@), None => None },
            ) && uri is None) ==> r matches Err(NegotiationError::MissingUriParam),
            (spec_target_ok(
                match file_ext { Some(e) => Some(e@), None => None },
                match accept { Some(a) => Some(a@), None => None },
            ) && uri is Some && spec_parse_uri(uri.unwrap()@) is None)
                ==> (r matches Err(NegotiationError::InvalidUri { given })
                    && given@ == uri.unwrap()@),
            (spec_target_ok(
                match file_ext { Some(e) => Some(e@), None => None },
                match accept { Some(a) => Some(a@), None => None },
            ) && uri is Some && spec_parse_uri(uri.unwrap()@) is Some
                && query_accept is Some
                && spec_parse_mime_type(query_accept.unwrap()@) is None)
                ==> (r matches Err(NegotiationError::UnsupportedQueryAccept { given })
                    && given@ == query_accept.unwrap()@),
    {
        let mime_type = match extract_file_ext(file_ext) {
            Ok(Some(f)) => f,
            Ok(None) => match extract_requested_content_type(accept) {
                Ok(f) => f,
                Err(e) => {
                    return Err(e);
                },
            },
            Err(e) => {
                return Err(e);
            },
        };
        let uri_n = match extract_uri(uri) {
            Ok(n) => n,
            Err(e) => {
                return Err(e);
            },
        };
        let query_mime_type = match extract_query_accept(query_accept) {
            Ok(q) => q,
            Err(e) => {
                return Err(e);
            },
        };
        Ok(OntRequest {
            uri: uri_n,
            query_mime_type,
            mime_type,
            pref,
            timeout,
        })
    }

    /// The format sent to the origin in the `Accept` header when
    /// fetching: the upstream accept format, defaulting to the target.
    pub open spec fn spec_upstream_accept(self) -> Format {
        match self.query_mime_type {
            Some(f) => f,
            None => self.mime_type,
        }
    }

    /// The format sent to the origin in the `Accept` header when fetching.
    pub fn upstream_accept(&self) -> (r: Format)
        ensures
            r == self.spec_upstream_accept(),
    {
        match self.query_mime_type {
            Some(f) => f,
            None => self.mime_type,
        }
    }
}

} // verus!
