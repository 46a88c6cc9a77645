use crate::index::{
    build_index, check_response, index_of, load_post, result_view, Keyed, LoadError,
};
use std::collections::HashMap;
use vstd::prelude::*;

verus! {

broadcast use vstd::std_specs::hash::group_hash_axioms;

/// Where the champion summary is served.
pub const CHAMPION_DATA_URL: &'static str =
    "https://raw.communitydragon.org/latest/plugins/rcp-be-lol-game-data/global/default/v1/champion-summary.json";

/// Basic information about a champion.
#[derive(Debug)]
pub struct Champion {
    /// Internal champion id
    pub id: i32,
    /// Display champion name
    pub name: String,
    /// Internal alias for champion
    ///
    /// Sometimes differs from `name`, like in the case of `Wukong`
    pub alias: String,
    /// Champion portrait picture asset path
    pub square_portrait_path: String,
    /// Roles the champion is categorized under
    pub roles: Vec<String>,
}

impl Keyed for Champion {
    open spec fn key(&self) -> i32 {
        self.id
    }

    fn record_id(&self) -> (r: i32) {
        self.id
    }
}

/// Repository that contains [`Champion`] data, indexed by champion id.
pub struct ChampionRepository {
    champions: HashMap<i32, Champion>,
}

impl View for ChampionRepository {
    type V = Map<i32, Champion>;

    closed spec fn view(&self) -> Map<i32, Champion> {
        self.champions@
    }
}

impl ChampionRepository {
    /// Indexes `champions` by id; a later champion replaces an earlier one
    /// with the same id.
    pub fn from_records(champions: Vec<Champion>) -> (r: ChampionRepository)
        ensures
            r@ == index_of(champions@),
    {
        ChampionRepository { champions: build_index(champions) }
    }

    /// Builds the repository from a fetch of [`CHAMPION_DATA_URL`] that ended
    /// with `status` (`None`: no response) and whose body decoded as `body`.
    pub fn load(status: Option<u16>, body: Result<Vec<Champion>, String>) -> (r: Result<
        ChampionRepository,
        LoadError,
    >)
        ensures
            load_post(CHAMPION_DATA_URL@, status, body, result_view(r)),
    {
        match check_response(CHAMPION_DATA_URL, status, body) {
            Ok(champions) => Ok(ChampionRepository::from_records(champions)),
            Err(e) => Err(e),
        }
    }

    /// Gets a [`Champion`] by its internal id.
    pub fn get_by_id(&self, id: i32) -> (r: Option<&Champion>)
        ensures
            r is Some == self@.contains_key(id),
            r matches Some(c) ==> *c == self@[id],
    {
        self.champions.get(&id)
    }
}

} // verus!
