use crate::asset::AssetURL;
use crate::index::{
    build_index, check_response, index_of, load_post, result_view, Keyed, LoadError,
};
use std::collections::HashMap;
use vstd::prelude::*;

verus! {

broadcast use vstd::std_specs::hash::group_hash_axioms;

/// Where the rune (perk) list is served.
pub const RUNES_DATA_URL: &'static str =
    "https://raw.communitydragon.org/latest/plugins/rcp-be-lol-game-data/global/default/v1/perks.json";

/// Basic information about a rune.
#[derive(Debug)]
pub struct Rune {
    /// Internal rune id
    pub id: i32,
    /// Rune display name
    pub name: String,
    /// Rune icon asset path
    pub icon_path: AssetURL,
}

impl Keyed for Rune {
    open spec fn key(&self) -> i32 {
        self.id
    }

    fn record_id(&self) -> (r: i32) {
        self.id
    }
}

/// Repository that contains [`Rune`] data, indexed by rune id.
pub struct RunesRepository {
    runes: HashMap<i32, Rune>,
}

impl View for RunesRepository {
    type V = Map<i32, Rune>;

    closed spec fn view(&self) -> Map<i32, Rune> {
        self.runes@
    }
}

impl RunesRepository {
    /// Indexes `runes` by id; a later rune replaces an earlier one with the
    /// same id.
    pub fn from_records(runes: Vec<Rune>) -> (r: RunesRepository)
        ensures
            r@ == index_of(runes@),
    {
        RunesRepository { runes: build_index(runes) }
    }

    /// Builds the repository from a fetch of [`RUNES_DATA_URL`] that ended
    /// with `status` (`None`: no response) and whose body decoded as `body`.
    pub fn load(status: Option<u16>, body: Result<Vec<Rune>, String>) -> (r: Result<
        RunesRepository,
        LoadError,
    >)
        ensures
            load_post(RUNES_DATA_URL@, status, body, result_view(r)),
    {
        match check_response(RUNES_DATA_URL, status, body) {
            Ok(runes) => Ok(RunesRepository::from_records(runes)),
            Err(e) => Err(e),
        }
    }

    /// Gets a [`Rune`] by its internal id.
    pub fn get_by_id(&self, id: i32) -> (r: Option<&Rune>)
        ensures
            r is Some == self@.contains_key(id),
            r matches Some(x) ==> *x == self@[id],
    {
        self.runes.get(&id)
    }
}

} // verus!
