use cdragon::asset::AssetURL;
use cdragon::champions::{Champion, ChampionRepository};
use cdragon::index::{build_index, check_response, is_success, LoadError};
use cdragon::runes::{Rune, RunesRepository};

fn champion(id: i32, name: &str) -> Champion {
    Champion {
        id,
        name: name.to_string(),
        alias: name.to_string(),
        square_portrait_path: format!("/lol-game-data/assets/v1/champion-icons/{}.png", id),
        roles: vec!["mage".to_string()],
    }
}

fn rune(id: i32, name: &str) -> Rune {
    Rune {
        id,
        name: name.to_string(),
        icon_path: AssetURL::new(format!("/lol-game-data/assets/v1/perk-images/{}.png", id)),
    }
}

#[test]
fn duplicate_id_keeps_last_record() {
    let repo = ChampionRepository::from_records(vec![champion(42, "First"), champion(42, "Second")]);
    assert_eq!(repo.get_by_id(42).map(|c| c.name.as_str()), Some("Second"));
}

#[test]
fn distinct_ids_lookup_and_missing() {
    let repo = ChampionRepository::from_records(vec![
        champion(1, "One"),
        champion(2, "Two"),
        champion(3, "Three"),
    ]);
    let c = repo.get_by_id(2).unwrap();
    assert_eq!(c.id, 2);
    assert_eq!(c.name, "Two");
    assert!(repo.get_by_id(99).is_none());
}

#[test]
fn empty_records_give_empty_index() {
    let repo = RunesRepository::from_records(vec![]);
    assert!(repo.get_by_id(0).is_none());
}

#[test]
fn rune_duplicates_keep_last_and_others_stay() {
    let repo = RunesRepository::from_records(vec![rune(8112, "A"), rune(8128, "B"), rune(8112, "C")]);
    assert_eq!(repo.get_by_id(8112).unwrap().name, "C");
    assert_eq!(repo.get_by_id(8128).unwrap().name, "B");
}

#[test]
fn build_index_on_extreme_ids() {
    let m = build_index(vec![champion(i32::MIN, "Low"), champion(i32::MAX, "High")]);
    assert_eq!(m.len(), 2);
    assert_eq!(m[&i32::MIN].name, "Low");
    assert_eq!(m[&i32::MAX].name, "High");
}

#[test]
fn success_status_range() {
    assert!(!is_success(None));
    assert!(!is_success(Some(199)));
    assert!(is_success(Some(200)));
    assert!(is_success(Some(299)));
    assert!(!is_success(Some(300)));
    assert!(!is_success(Some(500)));
}

#[test]
fn server_error_is_request_error() {
    let r = ChampionRepository::load(Some(500), Ok(vec![champion(1, "One")]));
    match r {
        Err(LoadError::Request { status, url }) => {
            assert_eq!(status, Some(500));
            assert_eq!(url, cdragon::champions::CHAMPION_DATA_URL);
        }
        _ => panic!("expected a request error"),
    }
}

#[test]
fn missing_response_is_request_error() {
    let r = RunesRepository::load(None, Err("unused".to_string()));
    match r {
        Err(LoadError::Request { status, url }) => {
            assert_eq!(status, None);
            assert_eq!(url, cdragon::runes::RUNES_DATA_URL);
        }
        _ => panic!("expected a request error"),
    }
}

#[test]
fn decode_failure_is_decode_error() {
    let r = ChampionRepository::load(Some(200), Err("missing field `id` at line 1 column 20".to_string()));
    match r {
        Err(LoadError::Decode { message }) => assert!(message.contains("missing field `id`")),
        _ => panic!("expected a decode error"),
    }
}

#[test]
fn successful_load_indexes_records() {
    let r = RunesRepository::load(Some(200), Ok(vec![rune(1, "A"), rune(2, "B")])).unwrap();
    assert_eq!(r.get_by_id(2).unwrap().name, "B");
    assert!(r.get_by_id(3).is_none());
}

#[test]
fn check_response_passes_records_through() {
    let r = check_response("u", Some(204), Ok(vec![1u8, 2, 3])).unwrap();
    assert_eq!(r, vec![1, 2, 3]);
    match check_response::<u8>("u", Some(404), Ok(vec![])) {
        Err(LoadError::Request { status, url }) => {
            assert_eq!(status, Some(404));
            assert_eq!(url, "u");
        }
        _ => panic!("expected a request error"),
    }
}
