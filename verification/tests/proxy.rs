use ontprox::cache::{classify_name, encode_uri, ont_dir, ont_file, ont_file_name};
use ontprox::error::{NegotiationError, ResolveError};
use ontprox::format::{classify_fetched, parse_file_ext, parse_mime_type, Format};
use ontprox::ont_request::{DlOrConv, OntRequest};
use ontprox::resolve::{Action, Event, Resolver};
use ontprox::response::response_head;

fn request(target: Format, pref: DlOrConv) -> OntRequest {
    OntRequest {
        uri: "http://example.org/ont".to_string(),
        query_mime_type: None,
        mime_type: target,
        pref,
        timeout: 1000,
    }
}

// --- negotiation ---

#[test]
fn negotiate_file_ext_overrides_accept() {
    let r = OntRequest::negotiate(
        Some("http://example.org/ont"),
        Some("ttl"),
        Some("application/ld+json"),
        None,
        DlOrConv::Download,
        1000,
    )
    .unwrap();
    assert_eq!(r.mime_type, Format::Turtle);
}

#[test]
fn negotiate_accept_header() {
    let r = OntRequest::negotiate(
        Some("http://example.org/ont"),
        None,
        Some("application/ld+json"),
        None,
        DlOrConv::Download,
        1000,
    )
    .unwrap();
    assert_eq!(r.mime_type, Format::JsonLd);
}

#[test]
fn negotiate_accept_list_like_a_browser() {
    let r = OntRequest::negotiate(
        Some("http://example.org/ont"),
        None,
        Some("text/html,application/xhtml+xml;q=0.9,*/*;q=0.8"),
        None,
        DlOrConv::Download,
        1000,
    )
    .unwrap();
    assert_eq!(r.mime_type, Format::Html);
}

#[test]
fn negotiate_default_format() {
    let r = OntRequest::negotiate(
        Some("http://example.org/ont"),
        None,
        None,
        None,
        DlOrConv::Download,
        1000,
    )
    .unwrap();
    assert_eq!(r.mime_type, Format::Html);
}

#[test]
fn negotiate_missing_uri() {
    let e = OntRequest::negotiate(None, None, None, None, DlOrConv::Download, 1000).unwrap_err();
    assert!(matches!(e, NegotiationError::MissingUriParam));
    assert_eq!(e.status_code(), 404);
    assert!(e.message().contains("uri"));
}

#[test]
fn negotiate_invalid_uri() {
    let e = OntRequest::negotiate(Some("not-a-url"), None, None, None, DlOrConv::Download, 1000)
        .unwrap_err();
    match e {
        NegotiationError::InvalidUri { ref given } => assert_eq!(given, "not-a-url"),
        ref other => panic!("expected InvalidUri, got {other:?}"),
    }
    assert_eq!(e.status_code(), 415);
}

#[test]
fn negotiate_unknown_file_ext() {
    let e = OntRequest::negotiate(
        Some("http://example.org/ont"),
        Some("xyz"),
        None,
        None,
        DlOrConv::Download,
        1000,
    )
    .unwrap_err();
    match e {
        NegotiationError::UnsupportedFileExt { ref given } => assert_eq!(given, "xyz"),
        ref other => panic!("expected UnsupportedFileExt, got {other:?}"),
    }
    assert_eq!(e.status_code(), 415);
}

#[test]
fn negotiate_unknown_accept() {
    let e = OntRequest::negotiate(
        Some("http://example.org/ont"),
        None,
        Some("application/pdf"),
        None,
        DlOrConv::Download,
        1000,
    )
    .unwrap_err();
    assert!(matches!(e, NegotiationError::UnsupportedAccept { .. }));
    assert_eq!(e.status_code(), 415);
}

#[test]
fn negotiate_unknown_query_accept() {
    let e = OntRequest::negotiate(
        Some("http://example.org/ont"),
        None,
        None,
        Some("nope/nope"),
        DlOrConv::Download,
        1000,
    )
    .unwrap_err();
    assert!(matches!(e, NegotiationError::UnsupportedQueryAccept { .. }));
    assert_eq!(e.status_code(), 415);
}

#[test]
fn negotiate_query_accept_decoupled_from_target() {
    let r = OntRequest::negotiate(
        Some("http://example.org/ont"),
        Some("jsonld"),
        None,
        Some("text/turtle"),
        DlOrConv::Download,
        1000,
    )
    .unwrap();
    assert_eq!(r.mime_type, Format::JsonLd);
    assert_eq!(r.query_mime_type, Some(Format::Turtle));
    assert_eq!(r.upstream_accept(), Format::Turtle);
}

#[test]
fn negotiate_upstream_accept_defaults_to_target() {
    let r = OntRequest::negotiate(
        Some("http://example.org/ont"),
        Some("ttl"),
        None,
        None,
        DlOrConv::Download,
        1000,
    )
    .unwrap();
    assert_eq!(r.upstream_accept(), Format::Turtle);
}

#[test]
fn negotiate_normalizes_the_uri() {
    let r = OntRequest::negotiate(
        Some("HTTP://Example.org/x"),
        None,
        None,
        None,
        DlOrConv::Download,
        1000,
    )
    .unwrap();
    assert_eq!(r.uri, "http://example.org/x");
}

// --- format registry ---

#[test]
fn registry_machine_readable_flag() {
    assert!(!Format::Html.is_machine_readable());
    assert!(Format::Turtle.is_machine_readable());
    assert!(Format::RdfXml.is_machine_readable());
}

#[test]
fn registry_content_types() {
    assert_eq!(Format::Turtle.mime_type(), "text/turtle");
    assert_eq!(Format::JsonLd.mime_type(), "application/ld+json");
    assert_eq!(Format::Html.mime_type(), "text/html");
}

#[test]
fn registry_file_extensions() {
    assert_eq!(Format::Turtle.file_ext(), "ttl");
    assert_eq!(Format::RdfXml.file_ext(), "rdf");
}

#[test]
fn parse_mime_type_known_and_unknown() {
    assert_eq!(parse_mime_type("text/turtle"), Some(Format::Turtle));
    assert_eq!(parse_mime_type("application/rdf+xml"), Some(Format::RdfXml));
    assert_eq!(parse_mime_type("text/plain"), None);
    assert_eq!(parse_mime_type("garbage"), None);
}

#[test]
fn parse_file_ext_known_and_unknown() {
    assert_eq!(parse_file_ext("ttl"), Some(Format::Turtle));
    assert_eq!(parse_file_ext("TTL"), Some(Format::Turtle));
    assert_eq!(parse_file_ext("owl"), Some(Format::RdfXml));
    assert_eq!(parse_file_ext("xyz"), None);
}

#[test]
fn classify_fetched_falls_back_to_default() {
    assert_eq!(classify_fetched(Some("application/rdf+xml")), Format::RdfXml);
    assert_eq!(classify_fetched(Some("anything/else")), Format::Html);
    assert_eq!(classify_fetched(None), Format::Html);
}

// --- cache addressing ---

#[test]
fn encode_uri_exact() {
    assert_eq!(
        encode_uri("http://example.org/a"),
        "http%00003a%00002f%00002fexample%00002eorg%00002fa"
    );
}

#[test]
fn encode_uri_distinct_uris_distinct_dirs() {
    let a = encode_uri("http://example.org/a");
    let b = encode_uri("http://example.org/b");
    assert_ne!(a, b);
    assert_ne!(
        ont_dir("/cache", "http://example.org/a"),
        ont_dir("/cache", "http://example.org/b")
    );
}

#[test]
fn encode_uri_non_ascii() {
    assert_eq!(encode_uri("é"), "%0000e9");
    assert_eq!(encode_uri("a%b"), "a%000025b");
}

#[test]
fn encode_uri_deterministic() {
    assert_eq!(encode_uri("http://example.org/a"), encode_uri("http://example.org/a"));
}

#[test]
fn cache_paths_exact() {
    assert_eq!(ont_file_name(Format::Turtle), "turtle.ttl");
    assert_eq!(ont_dir("/cache", "http://x"), "/cache/http%00003a%00002f%00002fx");
    assert_eq!(ont_file("/cache/d", Format::Turtle), "/cache/d/turtle.ttl");
    assert_eq!(ont_file("/cache/d", Format::RdfXml), "/cache/d/rdfxml.rdf");
}

#[test]
fn classify_name_by_extension() {
    assert_eq!(classify_name("turtle.ttl"), Some(Format::Turtle));
    assert_eq!(classify_name("anything.owl"), Some(Format::RdfXml));
    assert_eq!(classify_name("noext"), None);
    assert_eq!(classify_name("x.xyz"), None);
    assert_eq!(classify_name("trailingdot."), None);
}

// --- idempotent cache writes (same dir, format, bytes written twice) ---

#[test]
fn idempotent_write_leaves_single_file() {
    let rt = tokio::runtime::Builder::new_current_thread()
        .enable_all()
        .build()
        .unwrap();
    rt.block_on(async {
        let dir = "/tmp/ontprox-test-idempotent-write";
        tokio::fs::create_dir_all(dir).await.unwrap();
        let path = ont_file(dir, Format::Turtle);
        let bytes = b"<a> <b> <c> .".to_vec();
        tokio::fs::write(&path, &bytes).await.unwrap();
        tokio::fs::write(&path, &bytes).await.unwrap();
        let back = tokio::fs::read(&path).await.unwrap();
        assert_eq!(back, bytes);
        let mut entries = tokio::fs::read_dir(dir).await.unwrap();
        let mut count = 0;
        while let Some(_e) = entries.next_entry().await.unwrap() {
            count += 1;
        }
        assert_eq!(count, 1);
        tokio::fs::remove_dir_all(dir).await.unwrap();
    });
}

// --- the resolution engine ---

#[test]
fn engine_cache_hit_serves_cached_file() {
    let (r, a0) = Resolver::new(request(Format::Turtle, DlOrConv::Download));
    assert!(matches!(a0, Action::EnsureDir));
    let (r, a1) = r.step(Event::DirEnsured { result: Ok(true) });
    assert!(matches!(a1, Action::CheckTargetFile));
    let (_r, a2) = r.step(Event::TargetChecked { exists: true });
    match a2 {
        Action::ServeCacheFile { format } => assert_eq!(format, Format::Turtle),
        other => panic!("expected a cache-file serve, got {other:?}"),
    }
}

#[test]
fn engine_fresh_dir_skips_lookups_and_fetches() {
    let (r, _a0) = Resolver::new(request(Format::Turtle, DlOrConv::Convert));
    let (_r, a1) = r.step(Event::DirEnsured { result: Ok(false) });
    match a1 {
        Action::Fetch { accept } => assert_eq!(accept, Format::Turtle),
        other => panic!("expected a fetch, got {other:?}"),
    }
}

#[test]
fn engine_convert_preferred_converts_cached_candidate() {
    let (r, _) = Resolver::new(request(Format::Turtle, DlOrConv::Convert));
    let (r, _) = r.step(Event::DirEnsured { result: Ok(true) });
    let (r, a) = r.step(Event::TargetChecked { exists: false });
    assert!(matches!(a, Action::ListCacheDir));
    let (r, a) = r.step(Event::CacheListed {
        files: vec!["rdfxml.rdf".to_string()],
    });
    match a {
        Action::Convert { from, cached } => {
            assert_eq!(from, Format::RdfXml);
            assert!(cached);
        },
        other => panic!("expected a conversion, got {other:?}"),
    }
    let (_r, a) = r.step(Event::ConvertFinished { result: Ok(()) });
    match a {
        Action::ServeCacheFile { format } => assert_eq!(format, Format::Turtle),
        other => panic!("expected a cache-file serve, got {other:?}"),
    }
}

#[test]
fn engine_convert_failure_tries_next_candidate_then_fetches() {
    let (r, _) = Resolver::new(request(Format::Turtle, DlOrConv::Convert));
    let (r, _) = r.step(Event::DirEnsured { result: Ok(true) });
    let (r, _) = r.step(Event::TargetChecked { exists: false });
    let (r, a) = r.step(Event::CacheListed {
        files: vec!["rdfxml.rdf".to_string(), "ntriples.nt".to_string()],
    });
    assert!(matches!(a, Action::Convert { from: Format::RdfXml, cached: true }));
    let (r, a) = r.step(Event::ConvertFinished { result: Err("converter broke".to_string()) });
    assert!(matches!(a, Action::Convert { from: Format::NTriples, cached: true }));
    let (_r, a) = r.step(Event::ConvertFinished { result: Err("converter broke".to_string()) });
    assert!(matches!(a, Action::Fetch { .. }));
}

#[test]
fn engine_convert_preferred_ignores_non_machine_readable() {
    let (r, _) = Resolver::new(request(Format::Turtle, DlOrConv::Convert));
    let (r, _) = r.step(Event::DirEnsured { result: Ok(true) });
    let (r, _) = r.step(Event::TargetChecked { exists: false });
    let (_r, a) = r.step(Event::CacheListed {
        files: vec!["html.html".to_string(), "rdfxml.rdf".to_string()],
    });
    assert!(matches!(a, Action::Convert { from: Format::RdfXml, cached: true }));
}

#[test]
fn engine_convert_preferred_empty_cache_fetches() {
    let (r, _) = Resolver::new(request(Format::Turtle, DlOrConv::Convert));
    let (r, _) = r.step(Event::DirEnsured { result: Ok(true) });
    let (r, _) = r.step(Event::TargetChecked { exists: false });
    let (_r, a) = r.step(Event::CacheListed { files: vec![] });
    assert!(matches!(a, Action::Fetch { .. }));
}

#[test]
fn engine_download_preferred_skips_conversion() {
    let (r, _) = Resolver::new(request(Format::Turtle, DlOrConv::Download));
    let (r, _) = r.step(Event::DirEnsured { result: Ok(true) });
    let (_r, a) = r.step(Event::TargetChecked { exists: false });
    match a {
        Action::Fetch { accept } => assert_eq!(accept, Format::Turtle),
        other => panic!("expected a fetch, got {other:?}"),
    }
}

#[test]
fn engine_direct_fetch_format_match() {
    let (r, _) = Resolver::new(request(Format::Turtle, DlOrConv::Download));
    let (r, _) = r.step(Event::DirEnsured { result: Ok(true) });
    let (r, _) = r.step(Event::TargetChecked { exists: false });
    let (r, a) = r.step(Event::FetchFinished { result: Ok(Format::Turtle) });
    assert!(matches!(a, Action::StoreFetched { format: Format::Turtle }));
    let (_r, a) = r.step(Event::StoreFinished { result: Ok(()) });
    match a {
        Action::ServeFetched { format } => assert_eq!(format, Format::Turtle),
        other => panic!("expected the fetched bytes to be served, got {other:?}"),
    }
}

#[test]
fn engine_fetch_then_convert() {
    let (r, _) = Resolver::new(request(Format::Turtle, DlOrConv::Download));
    let (r, _) = r.step(Event::DirEnsured { result: Ok(true) });
    let (r, _) = r.step(Event::TargetChecked { exists: false });
    let (r, a) = r.step(Event::FetchFinished { result: Ok(Format::RdfXml) });
    assert!(matches!(a, Action::StoreFetched { format: Format::RdfXml }));
    let (r, a) = r.step(Event::StoreFinished { result: Ok(()) });
    assert!(matches!(a, Action::Convert { from: Format::RdfXml, cached: false }));
    let (_r, a) = r.step(Event::ConvertFinished { result: Ok(()) });
    match a {
        Action::ServeCacheFile { format } => assert_eq!(format, Format::Turtle),
        other => panic!("expected a cache-file serve, got {other:?}"),
    }
}

#[test]
fn engine_non_convertible_origin() {
    let (r, _) = Resolver::new(request(Format::Turtle, DlOrConv::Download));
    let (r, _) = r.step(Event::DirEnsured { result: Ok(true) });
    let (r, _) = r.step(Event::TargetChecked { exists: false });
    let (r, a) = r.step(Event::FetchFinished { result: Ok(Format::Html) });
    // what was fetched is persisted under its own format, never the target
    assert!(matches!(a, Action::StoreFetched { format: Format::Html }));
    let (_r, a) = r.step(Event::StoreFinished { result: Ok(()) });
    match a {
        Action::Respond { error } => {
            assert_eq!(error.status_code(), 500);
            assert!(matches!(error, ResolveError::NotConvertible { format: Format::Html }));
            assert!(error.message().contains("not machine-readable"));
        },
        other => panic!("expected an error response, got {other:?}"),
    }
}

#[test]
fn engine_upstream_failure() {
    let (r, _) = Resolver::new(request(Format::Turtle, DlOrConv::Download));
    let (r, _) = r.step(Event::DirEnsured { result: Ok(true) });
    let (r, _) = r.step(Event::TargetChecked { exists: false });
    let (_r, a) = r.step(Event::FetchFinished { result: Err("connection refused".to_string()) });
    match a {
        Action::Respond { error } => {
            assert_eq!(error.status_code(), 502);
            assert!(matches!(error, ResolveError::UpstreamFailure { .. }));
        },
        other => panic!("expected an error response, got {other:?}"),
    }
}

#[test]
fn engine_terminal_conversion_failure() {
    let (r, _) = Resolver::new(request(Format::Turtle, DlOrConv::Download));
    let (r, _) = r.step(Event::DirEnsured { result: Ok(true) });
    let (r, _) = r.step(Event::TargetChecked { exists: false });
    let (r, _) = r.step(Event::FetchFinished { result: Ok(Format::RdfXml) });
    let (r, _) = r.step(Event::StoreFinished { result: Ok(()) });
    let (_r, a) = r.step(Event::ConvertFinished { result: Err("bad syntax".to_string()) });
    match a {
        Action::Respond { error } => {
            assert_eq!(error.status_code(), 500);
            assert!(matches!(error, ResolveError::ConversionFailure { .. }));
        },
        other => panic!("expected an error response, got {other:?}"),
    }
}

#[test]
fn engine_storage_failure_is_terminal() {
    let (r, _) = Resolver::new(request(Format::Turtle, DlOrConv::Download));
    let (_r, a) = r.step(Event::DirEnsured { result: Err("read-only filesystem".to_string()) });
    match a {
        Action::Respond { error } => {
            assert_eq!(error.status_code(), 500);
            assert!(matches!(error, ResolveError::StorageFailure { .. }));
        },
        other => panic!("expected an error response, got {other:?}"),
    }
}

// --- response construction ---

#[test]
fn response_head_html_is_inline() {
    let h = response_head(Format::Html, "html.html");
    assert_eq!(h.content_type, "text/html");
    assert_eq!(h.content_disposition, "filename=\"html.html\"");
}

#[test]
fn response_head_other_formats_are_attachments() {
    let h = response_head(Format::Turtle, "turtle.ttl");
    assert_eq!(h.content_type, "text/turtle");
    assert_eq!(h.content_disposition, "attachment; filename=\"turtle.ttl\"");
}
