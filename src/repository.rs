use crate::champions::{Champion, ChampionRepository, CHAMPION_DATA_URL};
use crate::index::{load_post, result_view, status_ok, LoadError};
use crate::runes::{RunesRepository, RUNES_DATA_URL};
use vstd::prelude::*;

verus! {

/// Name under which requests identify this library.
pub const PRODUCT_NAME: &'static str = "cdragon-rs";

/// Version of this library, as given in its package manifest.
pub const VERSION: &'static str = "0.1.0";

/// Returns the `User-Agent` header value: the product name, a slash and the version.
pub fn user_agent() -> (r: String)
    ensures
        r@ == PRODUCT_NAME@ + "/"@ + VERSION@,
{
    let mut ua = PRODUCT_NAME.to_owned();
    ua.append("/");
    ua.append(VERSION);
    ua
}

/// A `Repository` holds the champion and rune data, both loaded.
///
/// It is built by [`Repository::start`] and [`InitState::advance`]: the
/// caller fetches the source that [`InitState::source`] names and hands
/// the loaded index back, until a [`InitStep::Done`] comes out.
pub struct Repository {
    pub champions: ChampionRepository,
    pub runes: RunesRepository,
}

/// A data source that initialization fetches.
#[derive(Clone, Copy, Debug, PartialEq, Eq, Structural)]
pub enum Source {
    Champions,
    Runes,
}

impl Source {
    /// The URL that this source is fetched from.
    pub fn url(&self) -> (r: &'static str)
        ensures
            r@ == match self {
                Source::Champions => CHAMPION_DATA_URL@,
                Source::Runes => RUNES_DATA_URL@,
            },
    {
        match self {
            Source::Champions => CHAMPION_DATA_URL,
            Source::Runes => RUNES_DATA_URL,
        }
    }
}

/// The outcome of loading one source.
pub enum Fetched {
    Champions(Result<ChampionRepository, LoadError>),
    Runes(Result<RunesRepository, LoadError>),
}

/// Initialization in progress: champions are loaded first, then runes.
pub enum InitState {
    AwaitingChampions,
    AwaitingRunes(ChampionRepository),
}

/// What initialization asks for next.
pub enum InitStep {
    /// Fetch the source of the state, then advance it.
    Fetch(InitState),
    /// Initialization is over, with the repository or the first error.
    Done(Result<Repository, LoadError>),
}

/// The source that a state waits for.
pub open spec fn source_of(s: InitState) -> Source {
    match s {
        InitState::AwaitingChampions => Source::Champions,
        InitState::AwaitingRunes(_) => Source::Runes,
    }
}

/// One step of initialization: a failed load ends it with that load's error,
/// a loaded champion index moves on to the runes, and a loaded rune index
/// completes the repository. An outcome for the source not awaited changes
/// nothing.
pub open spec fn advance_spec(s: InitState, ev: Fetched) -> InitStep {
    match s {
        InitState::AwaitingChampions => match ev {
            Fetched::Champions(Ok(c)) => InitStep::Fetch(InitState::AwaitingRunes(c)),
            Fetched::Champions(Err(e)) => InitStep::Done(Err(e)),
            Fetched::Runes(_) => InitStep::Fetch(InitState::AwaitingChampions),
        },
        InitState::AwaitingRunes(c) => match ev {
            Fetched::Runes(Ok(r)) => InitStep::Done(Ok(Repository { champions: c, runes: r })),
            Fetched::Runes(Err(e)) => InitStep::Done(Err(e)),
            Fetched::Champions(_) => InitStep::Fetch(InitState::AwaitingRunes(c)),
        },
    }
}

impl Repository {
    /// Begins initialization: the champions are fetched first.
    pub fn start() -> (r: InitState)
        ensures
            r == InitState::AwaitingChampions,
    {
        InitState::AwaitingChampions
    }
}

impl InitState {
    /// The source to fetch next.
    pub fn source(&self) -> (r: Source)
        ensures
            r == source_of(*self),
    {
        match self {
            InitState::AwaitingChampions => Source::Champions,
            InitState::AwaitingRunes(_) => Source::Runes,
        }
    }

    /// Takes in the outcome of a fetch.
    pub fn advance(self, ev: Fetched) -> (r: InitStep)
        ensures
            r == advance_spec(self, ev),
    {
        match self {
            InitState::AwaitingChampions => match ev {
                Fetched::Champions(Ok(c)) => InitStep::Fetch(InitState::AwaitingRunes(c)),
                Fetched::Champions(Err(e)) => InitStep::Done(Err(e)),
                Fetched::Runes(_) => InitStep::Fetch(InitState::AwaitingChampions),
            },
            InitState::AwaitingRunes(c) => match ev {
                Fetched::Runes(Ok(r)) => InitStep::Done(
                    Ok(Repository { champions: c, runes: r }),
                ),
                Fetched::Runes(Err(e)) => InitStep::Done(Err(e)),
                Fetched::Champions(_) => InitStep::Fetch(InitState::AwaitingRunes(c)),
            },
        }
    }
}

/// When the champion fetch fails (no response, or a non-success status),
/// initialization ends at once with a request error that carries that status
/// and the champion URL: the rune source is never asked for.
pub proof fn lemma_champion_request_failure_ends_init(
    status: Option<u16>,
    body: Result<Vec<Champion>, String>,
    loaded: Result<ChampionRepository, LoadError>,
)
    requires
        !status_ok(status),
        load_post(CHAMPION_DATA_URL@, status, body, result_view(loaded)),
    ensures
        advance_spec(InitState::AwaitingChampions, Fetched::Champions(loaded)) matches InitStep::Done(
            Err(LoadError::Request { status: s, url: u }),
        ) && s == status && u@ == CHAMPION_DATA_URL@,
{
}

/// Initialization yields a repository only when both loads succeeded, and
/// it then holds exactly the two loaded indexes.
pub proof fn lemma_init_all_or_nothing(
    c: Result<ChampionRepository, LoadError>,
    r: Result<RunesRepository, LoadError>,
)
    ensures
        ({
            let after_champions = advance_spec(InitState::AwaitingChampions, Fetched::Champions(c));
            match c {
                Err(e) => after_champions == InitStep::Done(Err::<Repository, LoadError>(e)),
                Ok(champions) => after_champions == InitStep::Fetch(
                    InitState::AwaitingRunes(champions),
                ) && match r {
                    Ok(runes) => advance_spec(InitState::AwaitingRunes(champions), Fetched::Runes(r))
                        == InitStep::Done(Ok::<Repository, LoadError>(Repository { champions, runes })),
                    Err(e) => advance_spec(InitState::AwaitingRunes(champions), Fetched::Runes(r))
                        == InitStep::Done(Err::<Repository, LoadError>(e)),
                },
            }
        }),
{
}

} // verus!
