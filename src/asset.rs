use vstd::prelude::*;

verus! {

/// Prefix that marks an internal game-data asset path.
pub const ASSET_PREFIX: &'static str = "/lol-game-data/assets/";

/// Public location under which the internal asset tree is served.
pub const ASSET_BASE_URL: &'static str =
    "https://raw.communitydragon.org/latest/plugins/rcp-be-lol-game-data/global/default/";

/// The lowercase form of a character sequence, as `str::to_lowercase` computes it.
pub uninterp spec fn lower_of(s: Seq<char>) -> Seq<char>;

/// Whether `p` begins with the internal asset prefix.
pub open spec fn has_asset_prefix(p: Seq<char>) -> bool {
    p.len() >= ASSET_PREFIX@.len() && p.subrange(0, ASSET_PREFIX@.len() as int) == ASSET_PREFIX@
}

/// What follows the internal asset prefix in `p`.
pub open spec fn asset_remainder_of(p: Seq<char>) -> Seq<char> {
    p.subrange(ASSET_PREFIX@.len() as int, p.len() as int)
}

/// The public URL of an internal asset path, or `None` for any other string.
pub open spec fn mapped_asset_url(p: Seq<char>) -> Option<Seq<char>> {
    if has_asset_prefix(p) {
        Some(ASSET_BASE_URL@ + lower_of(asset_remainder_of(p)))
    } else {
        None
    }
}

/// Relies on `str::to_lowercase`: its result depends on the characters of
/// the input alone, and the empty string stays empty.
#[verifier::external_body]
fn lowercase(s: &str) -> (r: String)
    ensures
        r@ == lower_of(s@),
        s@.len() == 0 ==> r@.len() == 0,
{
    s.to_lowercase()
}

/// Whether the characters of `s` begin with those of `prefix`.
fn starts_with_chars(s: &str, prefix: &str) -> (r: bool)
    ensures
        r == (s@.len() >= prefix@.len() && s@.subrange(0, prefix@.len() as int) == prefix@),
{
    let n = prefix.unicode_len();
    let m = s.unicode_len();
    if m < n {
        return false;
    }
    let mut i: usize = 0;
    while i < n
        invariant
            n == prefix@.len(),
            m == s@.len(),
            n <= m,
            i <= n,
            forall|j: int| 0 <= j < i ==> s@[j] == prefix@[j],
        decreases n - i,
    {
        if s.get_char(i) != prefix.get_char(i) {
            assert(s@.subrange(0, n as int)[i as int] != prefix@[i as int]);
            return false;
        }
        i = i + 1;
    }
    assert(s@.subrange(0, n as int) =~= prefix@);
    true
}

/// The part of `path` after the internal asset prefix, or `None` when
/// `path` does not begin with that prefix.
pub fn asset_remainder(path: &str) -> (r: Option<&str>)
    ensures
        r is Some == has_asset_prefix(path@),
        r matches Some(rest) ==> rest@ == asset_remainder_of(path@),
{
    if starts_with_chars(path, ASSET_PREFIX) {
        let n = ASSET_PREFIX.unicode_len();
        let m = path.unicode_len();
        Some(path.substring_char(n, m))
    } else {
        None
    }
}

/// The public URL for an asset whose path after the prefix, already
/// lowercased, is `lowered`.
pub fn asset_url_from_lowered(lowered: &str) -> (r: String)
    ensures
        r@ == ASSET_BASE_URL@ + lowered@,
{
    let mut url = ASSET_BASE_URL.to_owned();
    url.append(lowered);
    url
}

/// Maps an internal asset path to the URL where the asset can be fetched.
///
/// If `path` does not begin with the internal asset prefix, `None` is returned.
pub fn map_asset_path(path: &str) -> (r: Option<String>)
    ensures
        r is Some == has_asset_prefix(path@),
        r matches Some(url) ==> Some(url@) == mapped_asset_url(path@),
{
    match asset_remainder(path) {
        Some(rest) => {
            let lowered = lowercase(rest);
            Some(asset_url_from_lowered(lowered.as_str()))
        },
        None => None,
    }
}

/// Rewriting is deterministic: two results that both meet the contract of
/// [`map_asset_path`] for the same path are equal.
pub proof fn lemma_rewrite_deterministic(p: Seq<char>, r1: Option<String>, r2: Option<String>)
    requires
        r1 is Some == has_asset_prefix(p),
        r1 matches Some(url) ==> Some(url@) == mapped_asset_url(p),
        r2 is Some == has_asset_prefix(p),
        r2 matches Some(url) ==> Some(url@) == mapped_asset_url(p),
    ensures
        r1 is Some == r2 is Some,
        r1 matches Some(a) ==> (r2 matches Some(b) && a@ == b@),
{
}

/// An asset path as it appears in game data.
#[derive(Clone, Debug)]
pub struct AssetURL(String);

impl View for AssetURL {
    type V = Seq<char>;

    closed spec fn view(&self) -> Seq<char> {
        self.0@
    }
}

impl AssetURL {
    /// Wraps an asset path.
    pub fn new(path: String) -> (r: AssetURL)
        ensures
            r@ == path@,
    {
        AssetURL(path)
    }

    /// The asset path as written.
    pub fn as_str(&self) -> (r: &str)
        ensures
            r@ == self@,
    {
        self.0.as_str()
    }

    /// Maps the asset path to the URL where the asset can be fetched.
    ///
    /// If the path is not detected as an internal asset path, `None` is returned.
    pub fn map_path(&self) -> (r: Option<String>)
        ensures
            r is Some == has_asset_prefix(self@),
            r matches Some(url) ==> Some(url@) == mapped_asset_url(self@),
    {
        map_asset_path(self.0.as_str())
    }
}

} // verus!
