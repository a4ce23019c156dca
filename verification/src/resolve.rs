//! The resolution engine: the multi-step fallback algorithm that chooses
//! between the cache-hit, cache-convert and fetch-then-convert paths.
//!
//! The engine is a state machine.  It never touches the network or the
//! filesystem itself: [`Resolver::step`] consumes the outcome of the
//! previous [`Action`] as an [`Event`] and decides the next action.  The
//! driver performs each action — ensure the cache directory, check or list
//! cache files, fetch, store, convert — and feeds the outcome back, until
//! a terminal action (serve or respond-with-error) comes out.
//!
//! The whole transition relation is the spec function [`Resolver::next`];
//! `step` is proved to implement it exactly, and the laws at the bottom of
//! this file are proved over it.

use vstd::prelude::*;
use vstd::pervasive::unreached;
use crate::cache::spec_classify_name;
use crate::cache::classify_name;
use crate::error::ResolveError;
use crate::format::Format;
use crate::ont_request::DlOrConv;
use crate::ont_request::OntRequest;

verus! {

/// What the driver must do next.
#[derive(Debug)]
pub enum Action {
    /// Create the request's cache directory if absent; report whether it
    /// already existed.
    EnsureDir,
    /// Check whether the cache file for the target format exists.
    CheckTargetFile,
    /// List the file names inside the cache directory.
    ListCacheDir,
    /// Convert the cache file of format `from` into the cache file of the
    /// target format; `cached` tells a pre-existing cache entry from a
    /// freshly fetched document.
    Convert { from: Format, cached: bool },
    /// Fetch the source URI from its origin, once, sending `accept` as the
    /// accept format.
    Fetch { accept: Format },
    /// Persist the fetched bytes as the cache entry for `format`.
    StoreFetched { format: Format },
    /// Terminal: stream the cache file of `format` to the client.
    ServeCacheFile { format: Format },
    /// Terminal: serve the in-memory fetched bytes, declared as `format`.
    ServeFetched { format: Format },
    /// Terminal: surface the error to the client.
    Respond { error: ResolveError },
}

impl Action {
    /// Whether the action ends the request.
    pub open spec fn is_terminal(self) -> bool {
        match self {
            Action::ServeCacheFile { .. } => true,
            Action::ServeFetched { .. } => true,
            Action::Respond { .. } => true,
            _ => false,
        }
    }
}

/// The outcome of an action, handed back by the driver.
#[derive(Debug)]
pub enum Event {
    /// Outcome of [`Action::EnsureDir`]: whether the directory already
    /// existed, or why it could not be created.
    DirEnsured { result: Result<bool, String> },
    /// Outcome of [`Action::CheckTargetFile`].
    TargetChecked { exists: bool },
    /// Outcome of [`Action::ListCacheDir`]: the file names found.
    CacheListed { files: Vec<String> },
    /// Outcome of [`Action::Convert`].
    ConvertFinished { result: Result<(), String> },
    /// Outcome of [`Action::Fetch`]: the format the origin's response
    /// declared, or why the fetch failed.
    FetchFinished { result: Result<Format, String> },
    /// Outcome of [`Action::StoreFetched`].
    StoreFinished { result: Result<(), String> },
}

/// Where the engine stands between an action and its outcome.
#[derive(Debug)]
pub enum Phase {
    /// Waiting for the cache directory to be ensured.
    AwaitDir,
    /// Waiting for the target-format cache file check.
    AwaitTarget,
    /// Waiting for the cache directory listing.
    AwaitList,
    /// Waiting for the conversion of the cached candidate at `idx`.
    AwaitConvert { files: Vec<String>, idx: usize },
    /// Waiting for the origin fetch.
    AwaitFetch,
    /// Waiting for the fetched bytes to be persisted under `fetched`.
    AwaitStore { fetched: Format },
    /// Waiting for the conversion of the freshly fetched document.
    AwaitConvertFetched { fetched: Format },
    /// A terminal action has been issued.
    Done,
}

/// The index of the first cache-directory entry at or after `i` that
/// classifies as a machine-readable format.
pub open spec fn spec_next_candidate(names: Seq<Seq<char>>, i: int) -> Option<int>
    decreases names.len() - i,
{
    if i < 0 || i >= names.len() {
        None
    } else if spec_classify_name(names[i]) matches Some(f) && f.spec_machine_readable() {
        Some(i)
    } else {
        spec_next_candidate(names, i + 1)
    }
}

pub proof fn lemma_next_candidate(names: Seq<Seq<char>>, i: int)
    ensures
        spec_next_candidate(names, i) matches Some(j) ==> {
            &&& i <= j < names.len()
            &&& spec_classify_name(names[j]) is Some
            &&& spec_classify_name(names[j]).unwrap().spec_machine_readable()
        },
    decreases names.len() - i,
{
    if 0 <= i < names.len() {
        lemma_next_candidate(names, i + 1)
    }
}

/// Finds the first machine-readable cached candidate at or after `start`.
fn next_candidate(files: &Vec<String>, start: usize) -> (r: Option<usize>)
    ensures
        match r {
            Some(u) => spec_next_candidate(files.deep_view(), start as int) == Some(u as int),
            None => spec_next_candidate(files.deep_view(), start as int) is None,
        },
{
    if start >= files.len() {
        return None;
    }
    let mut i = start;
    while i < files.len()
        invariant
            start <= i <= files.len(),
            spec_next_candidate(files.deep_view(), start as int)
                == spec_next_candidate(files.deep_view(), i as int),
        decreases files.len() - i,
    {
        proof {
            assert(files.deep_view()[i as int] == files@[i as int]@);
        }
        match classify_name(files[i].as_str()) {
            Some(f) => {
                if f.is_machine_readable() {
                    return Some(i);
                }
            },
            None => {},
        }
        i = i + 1;
    }
    None
}

/// The engine's state for one request: the negotiated request plus the
/// phase of the fallback algorithm.
#[derive(Debug)]
pub struct Resolver {
    pub req: OntRequest,
    pub phase: Phase,
}

impl Resolver {
    /// Internal consistency: a conversion candidate index stays inside
    /// the directory listing it came from.
    pub open spec fn wf(self) -> bool {
        match self.phase {
            Phase::AwaitConvert { files, idx } => {
                &&& idx < files.len()
                &&& spec_classify_name(files.deep_view()[idx as int]) is Some
                &&& spec_classify_name(files.deep_view()[idx as int]).unwrap().spec_machine_readable()
            },
            _ => true,
        }
    }

    /// Which events answer the pending action.
    pub open spec fn accepts(self, event: Event) -> bool {
        match (self.phase, event) {
            (Phase::AwaitDir, Event::DirEnsured { .. }) => true,
            (Phase::AwaitTarget, Event::TargetChecked { .. }) => true,
            (Phase::AwaitList, Event::CacheListed { .. }) => true,
            (Phase::AwaitConvert { .. }, Event::ConvertFinished { .. }) => true,
            (Phase::AwaitFetch, Event::FetchFinished { .. }) => true,
            (Phase::AwaitStore { .. }, Event::StoreFinished { .. }) => true,
            (Phase::AwaitConvertFetched { .. }, Event::ConvertFinished { .. }) => true,
            _ => false,
        }
    }

    /// The transition relation of the fallback algorithm.
    ///
    /// In order: a cache hit for the target format is served as it is;
    /// with the convert preference, conversion is tried on each cached
    /// machine-readable candidate in turn, the first success winning and
    /// every failure tolerated; then a single origin fetch is performed,
    /// what it returned is always persisted, and the response is the
    /// fetched document itself (format match), an error (format not
    /// machine-readable), or the outcome of one final conversion.
    pub open spec fn next(self, event: Event) -> (Resolver, Action) {
        let req = self.req;
        match (self.phase, event) {
            (Phase::AwaitDir, Event::DirEnsured { result }) => match result {
                Err(detail) => (
                    Resolver { req, phase: Phase::Done },
                    Action::Respond { error: ResolveError::StorageFailure { detail } },
                ),
                Ok(existed) => if existed {
                    (Resolver { req, phase: Phase::AwaitTarget }, Action::CheckTargetFile)
                } else {
                    (
                        Resolver { req, phase: Phase::AwaitFetch },
                        Action::Fetch { accept: req.spec_upstream_accept() },
                    )
                },
            },
            (Phase::AwaitTarget, Event::TargetChecked { exists }) => if exists {
                (
                    Resolver { req, phase: Phase::Done },
                    Action::ServeCacheFile { format: req.mime_type },
                )
            } else if req.pref == DlOrConv::Convert {
                (Resolver { req, phase: Phase::AwaitList }, Action::ListCacheDir)
            } else {
                (
                    Resolver { req, phase: Phase::AwaitFetch },
                    Action::Fetch { accept: req.spec_upstream_accept() },
                )
            },
            (Phase::AwaitList, Event::CacheListed { files }) => {
                match spec_next_candidate(files.deep_view(), 0) {
                    Some(i) => {
                        let from = spec_classify_name(files.deep_view()[i]).unwrap();
                        (
                            Resolver { req, phase: Phase::AwaitConvert { files, idx: i as usize } },
                            Action::Convert { from, cached: true },
                        )
                    },
                    None => (
                        Resolver { req, phase: Phase::AwaitFetch },
                        Action::Fetch { accept: req.spec_upstream_accept() },
                    ),
                }
            },
            (Phase::AwaitConvert { files, idx }, Event::ConvertFinished { result }) => {
                match result {
                    Ok(u) => (
                        Resolver { req, phase: Phase::Done },
                        Action::ServeCacheFile { format: req.mime_type },
                    ),
                    Err(detail) => match spec_next_candidate(files.deep_view(), idx + 1) {
                        Some(j) => {
                            let from = spec_classify_name(files.deep_view()[j]).unwrap();
                            (
                                Resolver {
                                    req,
                                    phase: Phase::AwaitConvert { files, idx: j as usize },
                                },
                                Action::Convert { from, cached: true },
                            )
                        },
                        None => (
                            Resolver { req, phase: Phase::AwaitFetch },
                            Action::Fetch { accept: req.spec_upstream_accept() },
                        ),
                    },
                }
            },
            (Phase::AwaitFetch, Event::FetchFinished { result }) => match result {
                Err(detail) => (
                    Resolver { req, phase: Phase::Done },
                    Action::Respond { error: ResolveError::UpstreamFailure { detail } },
                ),
                Ok(fetched) => (
                    Resolver { req, phase: Phase::AwaitStore { fetched } },
                    Action::StoreFetched { format: fetched },
                ),
            },
            (Phase::AwaitStore { fetched }, Event::StoreFinished { result }) => match result {
                Err(detail) => (
                    Resolver { req, phase: Phase::Done },
                    Action::Respond { error: ResolveError::StorageFailure { detail } },
                ),
                Ok(u) => if fetched == req.mime_type {
                    (
                        Resolver { req, phase: Phase::Done },
                        Action::ServeFetched { format: fetched },
                    )
                } else if !fetched.spec_machine_readable() {
                    (
                        Resolver { req, phase: Phase::Done },
                        Action::Respond { error: ResolveError::NotConvertible { format: fetched } },
                    )
                } else {
                    (
                        Resolver { req, phase: Phase::AwaitConvertFetched { fetched } },
                        Action::Convert { from: fetched, cached: false },
                    )
                },
            },
            (Phase::AwaitConvertFetched { fetched }, Event::ConvertFinished { result }) => {
                match result {
                    Ok(u) => (
                        Resolver { req, phase: Phase::Done },
                        Action::ServeCacheFile { format: req.mime_type },
                    ),
                    Err(detail) => (
                        Resolver { req, phase: Phase::Done },
                        Action::Respond { error: ResolveError::ConversionFailure { detail } },
                    ),
                }
            },
            _ => (Resolver { req, phase: Phase::Done }, Action::EnsureDir),
        }
    }

    /// Starts resolving a negotiated request.  The first action is always
    /// to ensure the cache directory exists.
    pub fn new(req: OntRequest) -> (r: (Resolver, Action))
        ensures
            r.0.req == req,
            r.0.phase is AwaitDir,
            r.1 is EnsureDir,
            r.0.wf(),
    {
        (Resolver { req, phase: Phase::AwaitDir }, Action::EnsureDir)
    }

    /// Performs one transition of the fallback algorithm: exactly
    /// [`Resolver::next`].
    pub fn step(self, event: Event) -> (r: (Resolver, Action))
        requires
            self.accepts(event),
            self.wf(),
        ensures
            r == self.next(event),
            r.0.wf(),
    {
        let Resolver { req, phase } = self;
        match (phase, event) {
            (Phase::AwaitDir, Event::DirEnsured { result }) => match result {
                Err(detail) => (
                    Resolver { req, phase: Phase::Done },
                    Action::Respond { error: ResolveError::StorageFailure { detail } },
                ),
                Ok(existed) => if existed {
                    (Resolver { req, phase: Phase::AwaitTarget }, Action::CheckTargetFile)
                } else {
                    let accept = req.upstream_accept();
                    (Resolver { req, phase: Phase::AwaitFetch }, Action::Fetch { accept })
                },
            },
            (Phase::AwaitTarget, Event::TargetChecked { exists }) => if exists {
                let format = req.mime_type;
                (Resolver { req, phase: Phase::Done }, Action::ServeCacheFile { format })
            } else if matches!(req.pref, DlOrConv::Convert) {
                (Resolver { req, phase: Phase::AwaitList }, Action::ListCacheDir)
            } else {
                let accept = req.upstream_accept();
                (Resolver { req, phase: Phase::AwaitFetch }, Action::Fetch { accept })
            },
            (Phase::AwaitList, Event::CacheListed { files }) => {
                match next_candidate(&files, 0) {
                    Some(i) => {
                        proof {
                            lemma_next_candidate(files.deep_view(), 0);
                            assert(files.deep_view()[i as int] == files@[i as int]@);
                        }
                        let from = classify_name(files[i].as_str()).unwrap();
                        (
                            Resolver { req, phase: Phase::AwaitConvert { files, idx: i } },
                            Action::Convert { from, cached: true },
                        )
                    },
                    None => {
                        let accept = req.upstream_accept();
                        (Resolver { req, phase: Phase::AwaitFetch }, Action::Fetch { accept })
                    },
                }
            },
            (Phase::AwaitConvert { files, idx }, Event::ConvertFinished { result }) => {
                match result {
                    Ok(u) => {
                        let format = req.mime_type;
                        (Resolver { req, phase: Phase::Done }, Action::ServeCacheFile { format })
                    },
                    Err(detail) => match next_candidate(&files, idx + 1) {
                        Some(j) => {
                            proof {
                                lemma_next_candidate(files.deep_view(), idx + 1);
                                assert(files.deep_view()[j as int] == files@[j as int]@);
                            }
                            let from = classify_name(files[j].as_str()).unwrap();
                            (
                                Resolver { req, phase: Phase::AwaitConvert { files, idx: j } },
                                Action::Convert { from, cached: true },
                            )
                        },
                        None => {
                            let accept = req.upstream_accept();
                            (Resolver { req, phase: Phase::AwaitFetch }, Action::Fetch { accept })
                        },
                    },
                }
            },
            (Phase::AwaitFetch, Event::FetchFinished { result }) => match result {
                Err(detail) => (
                    Resolver { req, phase: Phase::Done },
                    Action::Respond { error: ResolveError::UpstreamFailure { detail } },
                ),
                Ok(fetched) => (
                    Resolver { req, phase: Phase::AwaitStore { fetched } },
                    Action::StoreFetched { format: fetched },
                ),
            },
            (Phase::AwaitStore { fetched }, Event::StoreFinished { result }) => match result {
                Err(detail) => (
                    Resolver { req, phase: Phase::Done },
                    Action::Respond { error: ResolveError::StorageFailure { detail } },
                ),
                Ok(u) => if fetched == req.mime_type {
                    (Resolver { req, phase: Phase::Done }, Action::ServeFetched { format: fetched })
                } else if !fetched.is_machine_readable() {
                    (
                        Resolver { req, phase: Phase::Done },
                        Action::Respond { error: ResolveError::NotConvertible { format: fetched } },
                    )
                } else {
                    (
                        Resolver { req, phase: Phase::AwaitConvertFetched { fetched } },
                        Action::Convert { from: fetched, cached: false },
                    )
                },
            },
            (Phase::AwaitConvertFetched { fetched }, Event::ConvertFinished { result }) => {
                match result {
                    Ok(u) => {
                        let format = req.mime_type;
                        (Resolver { req, phase: Phase::Done }, Action::ServeCacheFile { format })
                    },
                    Err(detail) => (
                        Resolver { req, phase: Phase::Done },
                        Action::Respond { error: ResolveError::ConversionFailure { detail } },
                    ),
                }
            },
            _ => unreached(),
        }
    }
}

/// Cache idempotence, engine side: when the cache directory already
/// exists and the cache file for the target format is present, the
/// request is answered by streaming that very file, and the engine
/// requests no fetch, no conversion and no write.
pub proof fn lemma_cache_hit(req: OntRequest)
    ensures
        ({
            let s0 = Resolver { req, phase: Phase::AwaitDir };
            let (s1, a1) = s0.next(Event::DirEnsured { result: Ok(true) });
            let (s2, a2) = s1.next(Event::TargetChecked { exists: true });
            &&& a1 is CheckTargetFile
            &&& (a2 matches Action::ServeCacheFile { format } && format == req.mime_type)
            &&& s2.phase is Done
            &&& !(a1 is Fetch) && !(a2 is Fetch)
            &&& !(a1 is Convert) && !(a2 is Convert)
            &&& !(a1 is StoreFetched) && !(a2 is StoreFetched)
        }),
{
}

/// Convert-preferred fallback: with the convert preference, a miss on
/// the target format leads to a listing of the cache directory, then to
/// a conversion of its first machine-readable candidate; when that
/// conversion succeeds the target's cache file is served, and no origin
/// fetch was requested anywhere along the way.
pub proof fn lemma_convert_preferred(req: OntRequest, files: Vec<String>)
    requires
        req.pref == DlOrConv::Convert,
        spec_next_candidate(files.deep_view(), 0) is Some,
    ensures
        ({
            let k = spec_next_candidate(files.deep_view(), 0).unwrap();
            let s0 = Resolver { req, phase: Phase::AwaitTarget };
            let (s1, a1) = s0.next(Event::TargetChecked { exists: false });
            let (s2, a2) = s1.next(Event::CacheListed { files });
            let (s3, a3) = s2.next(Event::ConvertFinished { result: Ok(()) });
            &&& a1 is ListCacheDir
            &&& (a2 matches Action::Convert { from, cached } && cached
                && Some(from) == spec_classify_name(files.deep_view()[k])
                && from.spec_machine_readable())
            &&& (a3 matches Action::ServeCacheFile { format } && format == req.mime_type)
            &&& s3.phase is Done
            &&& !(a1 is Fetch) && !(a2 is Fetch) && !(a3 is Fetch)
        }),
{
    lemma_next_candidate(files.deep_view(), 0);
}

/// Download-preferred skip: with the download preference, a miss on the
/// target format goes straight to a single origin fetch — cached
/// candidates are neither listed nor converted.
pub proof fn lemma_download_preferred(req: OntRequest)
    requires
        req.pref == DlOrConv::Download,
    ensures
        ({
            let s0 = Resolver { req, phase: Phase::AwaitTarget };
            let (s1, a1) = s0.next(Event::TargetChecked { exists: false });
            &&& (a1 matches Action::Fetch { accept } && accept == req.spec_upstream_accept())
            &&& s1.phase is AwaitFetch
            &&& !(a1 is ListCacheDir) && !(a1 is Convert)
        }),
{
}

/// Direct fetch, format match: when the origin returns exactly the
/// target format, the fetched bytes are persisted under that format and
/// then served directly from memory, without any conversion.
pub proof fn lemma_direct_fetch(req: OntRequest, fetched: Format)
    requires
        fetched == req.mime_type,
    ensures
        ({
            let s0 = Resolver { req, phase: Phase::AwaitFetch };
            let (s1, a1) = s0.next(Event::FetchFinished { result: Ok(fetched) });
            let (s2, a2) = s1.next(Event::StoreFinished { result: Ok(()) });
            &&& (a1 matches Action::StoreFetched { format } && format == fetched)
            &&& (a2 matches Action::ServeFetched { format } && format == req.mime_type)
            &&& s2.phase is Done
            &&& !(a1 is Convert) && !(a2 is Convert)
        }),
{
}

/// Non-convertible origin: when the origin returns a format that differs
/// from the target and is not machine-readable, the request fails with
/// NotConvertible; the only write the engine requested was under the
/// origin's own format, never under the target format.
pub proof fn lemma_not_convertible(req: OntRequest, fetched: Format)
    requires
        fetched != req.mime_type,
        !fetched.spec_machine_readable(),
    ensures
        ({
            let s0 = Resolver { req, phase: Phase::AwaitFetch };
            let (s1, a1) = s0.next(Event::FetchFinished { result: Ok(fetched) });
            let (s2, a2) = s1.next(Event::StoreFinished { result: Ok(()) });
            &&& (a1 matches Action::StoreFetched { format } && format == fetched
                && format != req.mime_type)
            &&& (a2 matches Action::Respond { error }
                && error == ResolveError::NotConvertible { format: fetched })
            &&& s2.phase is Done
            &&& !(a1 is Convert) && !(a2 is Convert)
        }),
{
}

/// Fetch-then-convert: when the origin returns a machine-readable format
/// different from the target, the fetched document is persisted under
/// its own format and converted exactly once; on success the target's
/// cache file is served.
pub proof fn lemma_fetch_then_convert(req: OntRequest, fetched: Format)
    requires
        fetched != req.mime_type,
        fetched.spec_machine_readable(),
    ensures
        ({
            let s0 = Resolver { req, phase: Phase::AwaitFetch };
            let (s1, a1) = s0.next(Event::FetchFinished { result: Ok(fetched) });
            let (s2, a2) = s1.next(Event::StoreFinished { result: Ok(()) });
            let (s3, a3) = s2.next(Event::ConvertFinished { result: Ok(()) });
            &&& (a1 matches Action::StoreFetched { format } && format == fetched)
            &&& (a2 matches Action::Convert { from, cached } && from == fetched && !cached)
            &&& (a3 matches Action::ServeCacheFile { format } && format == req.mime_type)
            &&& s3.phase is Done
        }),
{
}

/// After a fetch, exactly one conversion attempt is made: when it fails,
/// the request is over — no second round of searching other cached
/// formats follows.
pub proof fn lemma_single_post_fetch_conversion(req: OntRequest, fetched: Format, detail: String)
    ensures
        ({
            let s0 = Resolver { req, phase: Phase::AwaitConvertFetched { fetched } };
            let (s1, a1) = s0.next(Event::ConvertFinished { result: Err(detail) });
            &&& (a1 matches Action::Respond { error }
                && error == ResolveError::ConversionFailure { detail })
            &&& s1.phase is Done
        }),
{
}

/// A terminal action is issued exactly when the engine is done: the
/// driver's loop always ends, and ends only, with a serve or an error.
pub proof fn lemma_terminal_iff_done(s: Resolver, event: Event)
    requires
        s.accepts(event),
    ensures
        s.next(event).1.is_terminal() <==> s.next(event).0.phase is Done,
{
}

/// A fetch is performed at most once per request: after the fetch, the
/// engine stays in the post-fetch phases and never requests another one.
pub proof fn lemma_fetch_at_most_once(s: Resolver, event: Event)
    requires
        s.phase is AwaitStore || s.phase is AwaitConvertFetched,
        s.accepts(event),
    ensures
        !(s.next(event).1 is Fetch),
        s.next(event).0.phase is AwaitStore || s.next(event).0.phase is AwaitConvertFetched
            || s.next(event).0.phase is Done,
{
}

} // verus!
