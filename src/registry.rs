use vstd::prelude::*;

use crate::data::{DependencyRegistryData, DependencyRegistryLanguageData};

verus! {

/// The schema version this program knows how to interpret.
pub const EXPECTED_VERSION: usize = 1;

/// The snapshot shipped with the program, used when no cache exists yet.
pub const DEPENDENCY_REGISTRY_FALLBACK: &'static str = "{\"version\":1,\"languages\":{\"rust\":{}}}";

/// Why the registry could not be opened, or why a refresh was discarded.
#[derive(Debug)]
pub enum DependencyRegistryError {
    /// The per-user cache directory could not be resolved or created.
    BaseDirectories(String),
    /// The cache file could not be opened, read or written.
    Io(String),
    /// The snapshot text did not parse.
    Json(String),
    /// The remote snapshot could not be fetched.
    Reqwest(String),
    /// The snapshot has a schema version other than the expected one.
    WrongVersion(usize),
}

/// Where the single background refresh stands.
#[derive(Debug, Clone, Copy, PartialEq, Eq, Structural)]
pub enum RefreshState {
    /// No refresh was started: the registry was opened offline.
    Offline,
    /// A refresh was started and has not run to completion.
    InFlight,
    /// The refresh has run to completion, whether or not it installed anything.
    Finished,
}

/// The refresh state a registry starts in.
pub open spec fn initial_refresh(offline: bool) -> RefreshState {
    if offline {
        RefreshState::Offline
    } else {
        RefreshState::InFlight
    }
}

/// The refresh state once the refresh task has ended.
pub open spec fn after_finish(s: RefreshState) -> RefreshState {
    match s {
        RefreshState::Offline => RefreshState::Offline,
        _ => RefreshState::Finished,
    }
}

/// The text bootstrap parses: the cache's content, or the embedded payload
/// when the cache is empty.
pub open spec fn source_text(cache: Seq<char>) -> Seq<char> {
    if cache.len() == 0 {
        DEPENDENCY_REGISTRY_FALLBACK@
    } else {
        cache
    }
}

/// What a string with its leading and trailing whitespace removed holds.
pub uninterp spec fn trimmed(s: Seq<char>) -> Seq<char>;

/// Relies on `str::trim`: the result is `s` without leading and trailing
/// whitespace, which depends on the characters of `s` alone.
#[verifier::external_body]
fn trim_text(s: &str) -> (r: String)
    ensures
        r@ == trimmed(s@),
{
    s.trim().to_string()
}

/// The registry store: the current snapshot and the state of its refresh.
#[derive(Debug)]
pub struct DependencyRegistry {
    data: DependencyRegistryData,
    refresh: RefreshState,
}

/// `r` is what opening gives for the parse outcome `parsed`: a parse failure
/// surfaces as `Json`, a foreign version as `WrongVersion`, and an accepted
/// snapshot becomes the current one.
pub open spec fn opened(
    parsed: Result<DependencyRegistryData, String>,
    offline: bool,
    r: Result<DependencyRegistry, DependencyRegistryError>,
) -> bool {
    match parsed {
        Err(m) => r == Err::<DependencyRegistry, DependencyRegistryError>(
            DependencyRegistryError::Json(m),
        ),
        Ok(d) => if d.version == EXPECTED_VERSION {
            &&& r is Ok
            &&& r->Ok_0.snapshot() == d
            &&& r->Ok_0.refresh_state() == initial_refresh(offline)
            &&& r->Ok_0.wf()
        } else {
            r == Err::<DependencyRegistry, DependencyRegistryError>(
                DependencyRegistryError::WrongVersion(d.version),
            )
        },
    }
}

/// `after` and `r` are what a refresh of `before` gives for the fetched
/// `body` and its parse outcome `parsed`: an accepted snapshot replaces the
/// current one whole and its trimmed text is handed back for the cache;
/// anything else leaves the store as it was and says why.
pub open spec fn refreshed(
    before: DependencyRegistry,
    parsed: Result<DependencyRegistryData, String>,
    body: Seq<char>,
    after: DependencyRegistry,
    r: Result<String, DependencyRegistryError>,
) -> bool {
    match parsed {
        Err(m) => {
            &&& after == before
            &&& r == Err::<String, DependencyRegistryError>(DependencyRegistryError::Json(m))
        },
        Ok(d) => if d.version == EXPECTED_VERSION {
            &&& after.snapshot() == d
            &&& after.refresh_state() == before.refresh_state()
            &&& r is Ok
            &&& r->Ok_0@ == trimmed(body)
        } else {
            &&& after == before
            &&& r == Err::<String, DependencyRegistryError>(
                DependencyRegistryError::WrongVersion(d.version),
            )
        },
    }
}

/// The text bootstrap parses, given what the cache file held.
pub fn registry_source(cache_content: String) -> (r: String)
    ensures
        r@ == source_text(cache_content@),
{
    if cache_content.as_str().is_empty() {
        DEPENDENCY_REGISTRY_FALLBACK.to_owned()
    } else {
        cache_content
    }
}

impl DependencyRegistry {
    pub closed spec fn snapshot(&self) -> DependencyRegistryData {
        self.data
    }

    pub closed spec fn refresh_state(&self) -> RefreshState {
        self.refresh
    }

    /// Only a snapshot of the expected version is ever current.
    pub open spec fn wf(&self) -> bool {
        self.snapshot().version == EXPECTED_VERSION
    }

    /// Opens the registry on the parse outcome of the bootstrap text: gates
    /// the snapshot on its version and, unless `offline`, marks the refresh
    /// as started.
    pub fn new(parsed: Result<DependencyRegistryData, String>, offline: bool) -> (r: Result<
        Self,
        DependencyRegistryError,
    >)
        ensures
            opened(parsed, offline, r),
    {
        match parsed {
            Err(m) => Err(DependencyRegistryError::Json(m)),
            Ok(d) => {
                if d.version != EXPECTED_VERSION {
                    return Err(DependencyRegistryError::WrongVersion(d.version));
                }
                let refresh = if offline {
                    RefreshState::Offline
                } else {
                    RefreshState::InFlight
                };
                Ok(DependencyRegistry { data: d, refresh })
            },
        }
    }

    /// Whether the refresh was started and has run to completion.
    pub fn fresh(&self) -> (r: bool)
        ensures
            r == (self.refresh_state() == RefreshState::Finished),
    {
        self.refresh == RefreshState::Finished
    }

    /// The recipe tables of the current snapshot.
    pub fn language(&self) -> (r: &DependencyRegistryLanguageData)
        ensures
            *r == self.snapshot().languages,
    {
        &self.data.languages
    }

    /// The schema version of the current snapshot.
    pub fn version(&self) -> (r: usize)
        ensures
            r == self.snapshot().version,
    {
        self.data.version
    }

    /// Installs a fetched snapshot if it parsed and has the expected version,
    /// and returns the trimmed text to persist; otherwise keeps the current
    /// snapshot and returns why the fetch was discarded.
    pub fn refresh(
        &mut self,
        parsed: Result<DependencyRegistryData, String>,
        body: &str,
    ) -> (r: Result<String, DependencyRegistryError>)
        ensures
            refreshed(*old(self), parsed, body@, *final(self), r),
            old(self).wf() ==> final(self).wf(),
    {
        match parsed {
            Err(m) => Err(DependencyRegistryError::Json(m)),
            Ok(d) => {
                if d.version != EXPECTED_VERSION {
                    return Err(DependencyRegistryError::WrongVersion(d.version));
                }
                self.data = d;
                Ok(trim_text(body))
            },
        }
    }

    /// Records that the refresh task has ended.
    pub fn finish_refresh(&mut self)
        ensures
            final(self).refresh_state() == after_finish(old(self).refresh_state()),
            final(self).snapshot() == old(self).snapshot(),
    {
        if self.refresh != RefreshState::Offline {
            self.refresh = RefreshState::Finished;
        }
    }
}

/// An accepted snapshot round-trips: opening on it succeeds and the recipe
/// tables read back are exactly the ones parsed.
pub proof fn lemma_open_round_trip(
    d: DependencyRegistryData,
    offline: bool,
    r: Result<DependencyRegistry, DependencyRegistryError>,
)
    requires
        d.version == EXPECTED_VERSION,
        opened(Ok(d), offline, r),
    ensures
        r is Ok,
        r->Ok_0.snapshot() == d,
        r->Ok_0.snapshot().languages@ == d.languages@,
{
}

/// A snapshot of any other version is refused with that version, whatever
/// text it came from.
pub proof fn lemma_wrong_version_rejected(
    d: DependencyRegistryData,
    offline: bool,
    r: Result<DependencyRegistry, DependencyRegistryError>,
)
    requires
        d.version != EXPECTED_VERSION,
        opened(Ok(d), offline, r),
    ensures
        r == Err::<DependencyRegistry, DependencyRegistryError>(
            DependencyRegistryError::WrongVersion(d.version),
        ),
{
}

/// An empty cache is read as the embedded payload, so bootstrap parses the
/// same text as from a cache that holds exactly that payload.
pub proof fn lemma_empty_cache_reads_fallback(cache: Seq<char>)
    requires
        cache.len() == 0,
    ensures
        source_text(cache) == DEPENDENCY_REGISTRY_FALLBACK@,
        source_text(cache) == source_text(DEPENDENCY_REGISTRY_FALLBACK@),
{
    reveal_strlit("{\"version\":1,\"languages\":{\"rust\":{}}}");
}

/// A cache with content is parsed as it stands: when it does not parse,
/// opening fails with the parse error and never falls back.
pub proof fn lemma_malformed_cache_is_fatal(
    cache: Seq<char>,
    m: String,
    offline: bool,
    r: Result<DependencyRegistry, DependencyRegistryError>,
)
    requires
        cache.len() > 0,
        opened(Err(m), offline, r),
    ensures
        source_text(cache) == cache,
        r == Err::<DependencyRegistry, DependencyRegistryError>(DependencyRegistryError::Json(m)),
{
}

/// Opened offline, the registry is not fresh and stays so: no refresh and no
/// end of one changes its refresh state.
pub proof fn lemma_offline_never_fresh(
    before: DependencyRegistry,
    parsed: Result<DependencyRegistryData, String>,
    body: Seq<char>,
    after: DependencyRegistry,
    r: Result<String, DependencyRegistryError>,
)
    requires
        before.refresh_state() == initial_refresh(true),
        refreshed(before, parsed, body, after, r),
    ensures
        before.refresh_state() != RefreshState::Finished,
        after.refresh_state() == RefreshState::Offline,
        after_finish(after.refresh_state()) == RefreshState::Offline,
{
}

/// A fetch that did not parse, or holds a foreign version, leaves the store
/// as bootstrap installed it and gives nothing to write to the cache; the
/// refresh still ends as finished.
pub proof fn lemma_failed_refresh_keeps_state(
    before: DependencyRegistry,
    parsed: Result<DependencyRegistryData, String>,
    body: Seq<char>,
    after: DependencyRegistry,
    r: Result<String, DependencyRegistryError>,
)
    requires
        before.refresh_state() == initial_refresh(false),
        parsed is Err || parsed->Ok_0.version != EXPECTED_VERSION,
        refreshed(before, parsed, body, after, r),
    ensures
        after == before,
        r is Err,
        after_finish(after.refresh_state()) == RefreshState::Finished,
{
}

/// A fetched snapshot of the expected version becomes the current one, its
/// trimmed text is what goes to the cache, and the refresh ends as finished.
pub proof fn lemma_accepted_refresh_installs(
    before: DependencyRegistry,
    d: DependencyRegistryData,
    body: Seq<char>,
    after: DependencyRegistry,
    r: Result<String, DependencyRegistryError>,
)
    requires
        before.refresh_state() == initial_refresh(false),
        d.version == EXPECTED_VERSION,
        refreshed(before, Ok(d), body, after, r),
    ensures
        after.snapshot() == d,
        after.snapshot().languages@ == d.languages@,
        r is Ok && r->Ok_0@ == trimmed(body),
        after_finish(after.refresh_state()) == RefreshState::Finished,
{
}

/// A refresh replaces the snapshot whole or not at all: afterwards the
/// current snapshot is either the old one or the fetched one, never a mix.
pub proof fn lemma_refresh_is_whole(
    before: DependencyRegistry,
    parsed: Result<DependencyRegistryData, String>,
    body: Seq<char>,
    after: DependencyRegistry,
    r: Result<String, DependencyRegistryError>,
)
    requires
        refreshed(before, parsed, body, after, r),
    ensures
        after.snapshot() == before.snapshot() || (parsed is Ok && after.snapshot()
            == parsed->Ok_0),
        after.refresh_state() == before.refresh_state(),
{
}

} // verus!
