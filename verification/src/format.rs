//! The closed registry of supported RDF serialization formats.
//!
//! Each format has a canonical content-type string, a file extension and a
//! machine-readable flag.  Lookup by content-type string and by file
//! extension is delegated to the `rdfoothills-mime` crate through trusted
//! wrappers; everything else about the registry is plain verified code.

use vstd::prelude::*;
use std::str::FromStr;

verus! {

/// A supported RDF serialization format.  Equality is by registry identity.
#[derive(Copy, Clone, Debug, PartialEq, Eq, Structural)]
pub enum Format {
    BinaryRdf,
    Csvw,
    Hdt,
    HexTuples,
    Html,
    JsonLd,
    Manchester,
    Microdata,
    N3,
    NdJsonLd,
    NQuads,
    NQuadsStar,
    NTriples,
    NTriplesStar,
    OwlFunctional,
    OwlXml,
    RdfA,
    RdfJson,
    RdfXml,
    TriG,
    TriGStar,
    TriX,
    Tsvw,
    Turtle,
    TurtleStar,
    YamlLd,
}

impl Format {
    /// The registry's default format, used when a request names none.
    pub open spec fn spec_default() -> Format {
        Format::Html
    }

    /// The registry's default format, used when a request names none.
    pub fn default_format() -> (r: Format)
        ensures
            r == Format::spec_default(),
    {
        Format::Html
    }

    /// Every format but HTML can be parsed and transformed by a converter.
    pub open spec fn spec_machine_readable(self) -> bool {
        self != Format::Html
    }

    /// Whether a converter can read this format.
    pub fn is_machine_readable(self) -> (r: bool)
        ensures
            r == self.spec_machine_readable(),
    {
        !(matches!(self, Format::Html))
    }

    /// The canonical content-type string of the format.
    pub open spec fn spec_mime_type(self) -> Seq<char> {
        match self {
            Format::BinaryRdf => "application/x-binary-rdf"@,
            Format::Csvw => "text/csv"@,
            Format::Hdt => "application/rdf+xml"@,
            Format::HexTuples => "application/hex+x-ndjson"@,
            Format::Html => "text/html"@,
            Format::JsonLd => "application/ld+json"@,
            Format::Manchester => "text/owl-manchester"@,
            Format::Microdata => "application/x-microdata"@,
            Format::N3 => "text/rdf+n3"@,
            Format::NdJsonLd => "application/x-ld+ndjson"@,
            Format::NQuads => "application/n-quads"@,
            Format::NQuadsStar => "application/n-quadsstar"@,
            Format::NTriples => "application/n-triples"@,
            Format::NTriplesStar => "application/n-triplesstar"@,
            Format::OwlFunctional => "text/owl-functional"@,
            Format::OwlXml => "application/owl+xml"@,
            Format::RdfA => "text/html"@,
            Format::RdfJson => "application/rdf+json"@,
            Format::RdfXml => "application/rdf+xml"@,
            Format::TriG => "text/trig"@,
            Format::TriGStar => "application/x-trigstar"@,
            Format::TriX => "application/trix"@,
            Format::Tsvw => "text/tab-separated-values"@,
            Format::Turtle => "text/turtle"@,
            Format::TurtleStar => "text/x-turtlestar"@,
            Format::YamlLd => "application/ld+yaml"@,
        }
    }

    /// The canonical content-type string of the format.
    pub fn mime_type(self) -> (r: &'static str)
        ensures
            r@ == self.spec_mime_type(),
    {
        match self {
            Format::BinaryRdf => "application/x-binary-rdf",
            Format::Csvw => "text/csv",
            Format::Hdt => "application/rdf+xml",
            Format::HexTuples => "application/hex+x-ndjson",
            Format::Html => "text/html",
            Format::JsonLd => "application/ld+json",
            Format::Manchester => "text/owl-manchester",
            Format::Microdata => "application/x-microdata",
            Format::N3 => "text/rdf+n3",
            Format::NdJsonLd => "application/x-ld+ndjson",
            Format::NQuads => "application/n-quads",
            Format::NQuadsStar => "application/n-quadsstar",
            Format::NTriples => "application/n-triples",
            Format::NTriplesStar => "application/n-triplesstar",
            Format::OwlFunctional => "text/owl-functional",
            Format::OwlXml => "application/owl+xml",
            Format::RdfA => "text/html",
            Format::RdfJson => "application/rdf+json",
            Format::RdfXml => "application/rdf+xml",
            Format::TriG => "text/trig",
            Format::TriGStar => "application/x-trigstar",
            Format::TriX => "application/trix",
            Format::Tsvw => "text/tab-separated-values",
            Format::Turtle => "text/turtle",
            Format::TurtleStar => "text/x-turtlestar",
            Format::YamlLd => "application/ld+yaml",
        }
    }

    /// The most common file extension for this format.
    pub open spec fn spec_file_ext(self) -> Seq<char> {
        match self {
            Format::BinaryRdf => "brf"@,
            Format::Csvw => "csvw"@,
            Format::Hdt => "hdt"@,
            Format::HexTuples => "hext"@,
            Format::Html => "html"@,
            Format::JsonLd => "jsonld"@,
            Format::Manchester => "omn"@,
            Format::Microdata => "html"@,
            Format::N3 => "n3"@,
            Format::NdJsonLd => "ndjsonld"@,
            Format::NQuads => "nq"@,
            Format::NQuadsStar => "nqs"@,
            Format::NTriples => "nt"@,
            Format::NTriplesStar => "nts"@,
            Format::OwlFunctional => "ofn"@,
            Format::OwlXml => "owx"@,
            Format::RdfA => "html"@,
            Format::RdfJson => "rj"@,
            Format::RdfXml => "rdf"@,
            Format::TriG => "trig"@,
            Format::TriGStar => "trigs"@,
            Format::TriX => "trix"@,
            Format::Tsvw => "tsvw"@,
            Format::Turtle => "ttl"@,
            Format::TurtleStar => "ttls"@,
            Format::YamlLd => "yamlld"@,
        }
    }

    /// The most common file extension for this format.
    pub fn file_ext(self) -> (r: &'static str)
        ensures
            r@ == self.spec_file_ext(),
    {
        match self {
            Format::BinaryRdf => "brf",
            Format::Csvw => "csvw",
            Format::Hdt => "hdt",
            Format::HexTuples => "hext",
            Format::Html => "html",
            Format::JsonLd => "jsonld",
            Format::Manchester => "omn",
            Format::Microdata => "html",
            Format::N3 => "n3",
            Format::NdJsonLd => "ndjsonld",
            Format::NQuads => "nq",
            Format::NQuadsStar => "nqs",
            Format::NTriples => "nt",
            Format::NTriplesStar => "nts",
            Format::OwlFunctional => "ofn",
            Format::OwlXml => "owx",
            Format::RdfA => "html",
            Format::RdfJson => "rj",
            Format::RdfXml => "rdf",
            Format::TriG => "trig",
            Format::TriGStar => "trigs",
            Format::TriX => "trix",
            Format::Tsvw => "tsvw",
            Format::Turtle => "ttl",
            Format::TurtleStar => "ttls",
            Format::YamlLd => "yamlld",
        }
    }

    /// The human-oriented name of the format.
    pub open spec fn spec_name(self) -> Seq<char> {
        match self {
            Format::BinaryRdf => "BinaryRDF"@,
            Format::Csvw => "CSVW"@,
            Format::Hdt => "HDT"@,
            Format::HexTuples => "HexTuples"@,
            Format::Html => "HTML"@,
            Format::JsonLd => "JSON-LD"@,
            Format::Manchester => "OWL-Manchester"@,
            Format::Microdata => "Microdata"@,
            Format::N3 => "N3"@,
            Format::NdJsonLd => "NDJSON-LD"@,
            Format::NQuads => "N-Quads"@,
            Format::NQuadsStar => "N-Quads-star"@,
            Format::NTriples => "N-Triples"@,
            Format::NTriplesStar => "N-Triples-star"@,
            Format::OwlFunctional => "OWL-Functional"@,
            Format::OwlXml => "OWL/XML"@,
            Format::RdfA => "RDFa"@,
            Format::RdfJson => "RDF/JSON"@,
            Format::RdfXml => "RDF/XML"@,
            Format::TriG => "TriG"@,
            Format::TriGStar => "TriG-star"@,
            Format::TriX => "TriX"@,
            Format::Tsvw => "TSVW"@,
            Format::Turtle => "Turtle"@,
            Format::TurtleStar => "Turtle-star"@,
            Format::YamlLd => "YAML-LD"@,
        }
    }

    /// The human-oriented name of the format.
    pub fn name(self) -> (r: &'static str)
        ensures
            r@ == self.spec_name(),
    {
        match self {
            Format::BinaryRdf => "BinaryRDF",
            Format::Csvw => "CSVW",
            Format::Hdt => "HDT",
            Format::HexTuples => "HexTuples",
            Format::Html => "HTML",
            Format::JsonLd => "JSON-LD",
            Format::Manchester => "OWL-Manchester",
            Format::Microdata => "Microdata",
            Format::N3 => "N3",
            Format::NdJsonLd => "NDJSON-LD",
            Format::NQuads => "N-Quads",
            Format::NQuadsStar => "N-Quads-star",
            Format::NTriples => "N-Triples",
            Format::NTriplesStar => "N-Triples-star",
            Format::OwlFunctional => "OWL-Functional",
            Format::OwlXml => "OWL/XML",
            Format::RdfA => "RDFa",
            Format::RdfJson => "RDF/JSON",
            Format::RdfXml => "RDF/XML",
            Format::TriG => "TriG",
            Format::TriGStar => "TriG-star",
            Format::TriX => "TriX",
            Format::Tsvw => "TSVW",
            Format::Turtle => "Turtle",
            Format::TurtleStar => "Turtle-star",
            Format::YamlLd => "YAML-LD",
        }
    }

    /// A stable, filesystem-safe identifier, used as the stem of cache file
    /// names.
    pub open spec fn spec_ident(self) -> Seq<char> {
        match self {
            Format::BinaryRdf => "binaryrdf"@,
            Format::Csvw => "csvw"@,
            Format::Hdt => "hdt"@,
            Format::HexTuples => "hextuples"@,
            Format::Html => "html"@,
            Format::JsonLd => "jsonld"@,
            Format::Manchester => "manchester"@,
            Format::Microdata => "microdata"@,
            Format::N3 => "n3"@,
            Format::NdJsonLd => "ndjsonld"@,
            Format::NQuads => "nquads"@,
            Format::NQuadsStar => "nquadsstar"@,
            Format::NTriples => "ntriples"@,
            Format::NTriplesStar => "ntriplesstar"@,
            Format::OwlFunctional => "owlfunctional"@,
            Format::OwlXml => "owlxml"@,
            Format::RdfA => "rdfa"@,
            Format::RdfJson => "rdfjson"@,
            Format::RdfXml => "rdfxml"@,
            Format::TriG => "trig"@,
            Format::TriGStar => "trigstar"@,
            Format::TriX => "trix"@,
            Format::Tsvw => "tsvw"@,
            Format::Turtle => "turtle"@,
            Format::TurtleStar => "turtlestar"@,
            Format::YamlLd => "yamlld"@,
        }
    }

    /// A stable, filesystem-safe identifier, used as the stem of cache file
    /// names.
    pub fn ident(self) -> (r: &'static str)
        ensures
            r@ == self.spec_ident(),
    {
        match self {
            Format::BinaryRdf => "binaryrdf",
            Format::Csvw => "csvw",
            Format::Hdt => "hdt",
            Format::HexTuples => "hextuples",
            Format::Html => "html",
            Format::JsonLd => "jsonld",
            Format::Manchester => "manchester",
            Format::Microdata => "microdata",
            Format::N3 => "n3",
            Format::NdJsonLd => "ndjsonld",
            Format::NQuads => "nquads",
            Format::NQuadsStar => "nquadsstar",
            Format::NTriples => "ntriples",
            Format::NTriplesStar => "ntriplesstar",
            Format::OwlFunctional => "owlfunctional",
            Format::OwlXml => "owlxml",
            Format::RdfA => "rdfa",
            Format::RdfJson => "rdfjson",
            Format::RdfXml => "rdfxml",
            Format::TriG => "trig",
            Format::TriGStar => "trigstar",
            Format::TriX => "trix",
            Format::Tsvw => "tsvw",
            Format::Turtle => "turtle",
            Format::TurtleStar => "turtlestar",
            Format::YamlLd => "yamlld",
        }
    }

    /// The format that the registry of `rdfoothills-mime` lists at ordinal
    /// `c`, if any; the library's registry keeps the same declaration order.
    pub open spec fn spec_from_code(c: u8) -> Option<Format> {
        if c == 0 { Some(Format::BinaryRdf) }
        else if c == 1 { Some(Format::Csvw) }
        else if c == 2 { Some(Format::Hdt) }
        else if c == 3 { Some(Format::HexTuples) }
        else if c == 4 { Some(Format::Html) }
        else if c == 5 { Some(Format::JsonLd) }
        else if c == 6 { Some(Format::Manchester) }
        else if c == 7 { Some(Format::Microdata) }
        else if c == 8 { Some(Format::N3) }
        else if c == 9 { Some(Format::NdJsonLd) }
        else if c == 10 { Some(Format::NQuads) }
        else if c == 11 { Some(Format::NQuadsStar) }
        else if c == 12 { Some(Format::NTriples) }
        else if c == 13 { Some(Format::NTriplesStar) }
        else if c == 14 { Some(Format::OwlFunctional) }
        else if c == 15 { Some(Format::OwlXml) }
        else if c == 16 { Some(Format::RdfA) }
        else if c == 17 { Some(Format::RdfJson) }
        else if c == 18 { Some(Format::RdfXml) }
        else if c == 19 { Some(Format::TriG) }
        else if c == 20 { Some(Format::TriGStar) }
        else if c == 21 { Some(Format::TriX) }
        else if c == 22 { Some(Format::Tsvw) }
        else if c == 23 { Some(Format::Turtle) }
        else if c == 24 { Some(Format::TurtleStar) }
        else if c == 25 { Some(Format::YamlLd) }
        else { None }
    }

    /// Exec counterpart of [`Format::spec_from_code`].
    pub fn from_code(c: u8) -> (r: Option<Format>)
        ensures
            r == Format::spec_from_code(c),
    {
        if c == 0 { Some(Format::BinaryRdf) }
        else if c == 1 { Some(Format::Csvw) }
        else if c == 2 { Some(Format::Hdt) }
        else if c == 3 { Some(Format::HexTuples) }
        else if c == 4 { Some(Format::Html) }
        else if c == 5 { Some(Format::JsonLd) }
        else if c == 6 { Some(Format::Manchester) }
        else if c == 7 { Some(Format::Microdata) }
        else if c == 8 { Some(Format::N3) }
        else if c == 9 { Some(Format::NdJsonLd) }
        else if c == 10 { Some(Format::NQuads) }
        else if c == 11 { Some(Format::NQuadsStar) }
        else if c == 12 { Some(Format::NTriples) }
        else if c == 13 { Some(Format::NTriplesStar) }
        else if c == 14 { Some(Format::OwlFunctional) }
        else if c == 15 { Some(Format::OwlXml) }
        else if c == 16 { Some(Format::RdfA) }
        else if c == 17 { Some(Format::RdfJson) }
        else if c == 18 { Some(Format::RdfXml) }
        else if c == 19 { Some(Format::TriG) }
        else if c == 20 { Some(Format::TriGStar) }
        else if c == 21 { Some(Format::TriX) }
        else if c == 22 { Some(Format::Tsvw) }
        else if c == 23 { Some(Format::Turtle) }
        else if c == 24 { Some(Format::TurtleStar) }
        else if c == 25 { Some(Format::YamlLd) }
        else { None }
    }
}

/// The ordinal (declaration-order position) of the format that
/// `rdfoothills_mime::Type::from_str` recognizes in a content-type string
/// (or comma-separated accept list), if any.  The result depends on the
/// string alone.
pub uninterp spec fn mime_type_code(s: Seq<char>) -> Option<u8>;

/// The ordinal (declaration-order position) of the format that
/// `rdfoothills_mime::Type::from_file_ext` recognizes in a file extension,
/// if any.  The result depends on the extension string alone.
pub uninterp spec fn file_ext_code(s: Seq<char>) -> Option<u8>;

/// Relies on `rdfoothills_mime::Type::from_str`: parses a content-type
/// string, or a comma-separated accept list, against the registry; the
/// returned ordinal is a function of the string alone, and the registry
/// declares 26 formats.
#[verifier::external_body]
fn parse_mime_type_code(s: &str) -> (r: Option<u8>)
    ensures
        r == mime_type_code(s@),
        r matches Some(c) ==> c < 26,
{
    rdfoothills_mime::Type::from_str(s).ok().map(|t| t as u8)
}

/// Relies on `rdfoothills_mime::Type::from_file_ext`: looks a file extension
/// up in the registry; the returned ordinal is a function of the extension
/// alone, and the registry declares 26 formats.
#[verifier::external_body]
fn parse_file_ext_code(s: &str) -> (r: Option<u8>)
    ensures
        r == file_ext_code(s@),
        r matches Some(c) ==> c < 26,
{
    rdfoothills_mime::Type::from_file_ext(s).ok().map(|t| t as u8)
}

/// The format named by a content-type string (or accept list), if any.
pub open spec fn spec_parse_mime_type(s: Seq<char>) -> Option<Format> {
    match mime_type_code(s) {
        Some(c) => Format::spec_from_code(c),
        None => None,
    }
}

/// Looks a content-type string (or comma-separated accept list) up in the
/// registry.
pub fn parse_mime_type(s: &str) -> (r: Option<Format>)
    ensures
        r == spec_parse_mime_type(s@),
{
    match parse_mime_type_code(s) {
        Some(c) => Format::from_code(c),
        None => None,
    }
}

/// The format named by a file extension, if any.
pub open spec fn spec_parse_file_ext(s: Seq<char>) -> Option<Format> {
    match file_ext_code(s) {
        Some(c) => Format::spec_from_code(c),
        None => None,
    }
}

/// Looks a file extension up in the registry.
pub fn parse_file_ext(s: &str) -> (r: Option<Format>)
    ensures
        r == spec_parse_file_ext(s@),
{
    match parse_file_ext_code(s) {
        Some(c) => Format::from_code(c),
        None => None,
    }
}

/// The format a fetched document declares: its `Content-Type` response
/// header looked up in the registry, with the registry default as the
/// fallback when the header is absent or names no known format.
pub open spec fn spec_classify_fetched(content_type: Option<Seq<char>>) -> Format {
    match content_type {
        Some(s) => match spec_parse_mime_type(s) {
            Some(f) => f,
            None => Format::spec_default(),
        },
        None => Format::spec_default(),
    }
}

/// Classifies a fetched document by its declared `Content-Type` header,
/// falling back to the registry default when it is absent or unknown.
pub fn classify_fetched(content_type: Option<&str>) -> (r: Format)
    ensures
        r == spec_classify_fetched(match content_type {
            Some(s) => Some(s@),
            None => None,
        }),
{
    match content_type {
        Some(s) => match parse_mime_type(s) {
            Some(f) => f,
            None => Format::default_format(),
        },
        None => Format::default_format(),
    }
}

} // verus!
