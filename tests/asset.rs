use cdragon::asset::{
    asset_remainder, asset_url_from_lowered, map_asset_path, AssetURL, ASSET_BASE_URL,
};

const BASE: &str = "https://raw.communitydragon.org/latest/plugins/rcp-be-lol-game-data/global/default/";

#[test]
fn prefixed_path_is_rewritten_and_lowercased() {
    let r = map_asset_path("/lol-game-data/assets/v1/Perk-Images/Styles/Domination/Electrocute.PNG");
    assert_eq!(
        r,
        Some(format!("{}v1/perk-images/styles/domination/electrocute.png", BASE))
    );
}

#[test]
fn bare_prefix_maps_to_base_url() {
    assert_eq!(map_asset_path("/lol-game-data/assets/"), Some(BASE.to_string()));
}

#[test]
fn empty_path_is_not_mapped() {
    assert_eq!(map_asset_path(""), None);
}

#[test]
fn prefix_elsewhere_is_not_mapped() {
    assert_eq!(map_asset_path("x/lol-game-data/assets/a.png"), None);
    assert_eq!(map_asset_path("https://example.com/lol-game-data/assets/a.png"), None);
}

#[test]
fn truncated_or_differently_cased_prefix_is_not_mapped() {
    assert_eq!(map_asset_path("/lol-game-data/assets"), None);
    assert_eq!(map_asset_path("/LOL-GAME-DATA/ASSETS/a.png"), None);
}

#[test]
fn rewrite_twice_gives_same_result() {
    let p = "/lol-game-data/assets/ASSETS/Characters/Ahri/HUD/Ahri_Square.png";
    assert_eq!(map_asset_path(p), map_asset_path(p));
    assert_eq!(map_asset_path("nope"), map_asset_path("nope"));
}

#[test]
fn remainder_follows_prefix() {
    assert_eq!(asset_remainder("/lol-game-data/assets/A/b.png"), Some("A/b.png"));
    assert_eq!(asset_remainder("/lol-game-data/asset/A/b.png"), None);
}

#[test]
fn url_from_lowered_appends_to_base() {
    assert_eq!(asset_url_from_lowered("x/y.png"), format!("{}x/y.png", BASE));
    assert_eq!(ASSET_BASE_URL, BASE);
}

#[test]
fn non_ascii_remainder_is_lowercased() {
    assert_eq!(
        map_asset_path("/lol-game-data/assets/ÄÖ/Ü.png"),
        Some(format!("{}äö/ü.png", BASE))
    );
}

#[test]
fn asset_url_maps_like_free_function() {
    let a = AssetURL::new("/lol-game-data/assets/V1/Icon.png".to_string());
    assert_eq!(a.as_str(), "/lol-game-data/assets/V1/Icon.png");
    assert_eq!(a.map_path(), Some(format!("{}v1/icon.png", BASE)));
    let b = AssetURL::new("plain.png".to_string());
    assert_eq!(b.map_path(), None);
}
