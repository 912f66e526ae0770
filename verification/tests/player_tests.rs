//! The player profile handler on hand-built rows.

use std::collections::HashMap;

use rating_engine::models::{Player, PlayerRating};
use rating_engine::player::{handle_get_player, TopDefeated, TopRating};

fn get_test_player_data() -> (
    Vec<(Player, PlayerRating)>,
    HashMap<i16, i32>,
    HashMap<i16, i32>,
    HashMap<i16, TopDefeated>,
    HashMap<i16, TopRating>,
    i32,
    Vec<(String, String)>,
) {
    let player_char = vec![(
        Player {
            id: 1,
            name: "Test".to_string(),
            platform: 1,
            api_key: None,
            rcode_check_code: None,
        },
        PlayerRating { char_id: 0, value: 1000, id: 1 },
    )];
    let mut match_counts = HashMap::new();
    match_counts.insert(0, 10);

    let mut top_chars = HashMap::new();
    top_chars.insert(0, 0);

    let top_defeated = HashMap::new();
    let top_rating = HashMap::new();
    let top_global = 0;
    let tags = vec![];

    (player_char, match_counts, top_chars, top_defeated, top_rating, top_global, tags)
}

#[test]
fn get_player_empty_top_defeated() {
    let (player_char, match_counts, top_chars, _top_defeated, top_rating, top_global, tags) =
        get_test_player_data();

    let top_defeated = HashMap::new();

    let response = handle_get_player(
        player_char,
        match_counts,
        top_chars,
        top_defeated,
        top_rating,
        top_global,
        tags,
    )
    .unwrap();

    assert_eq!(response.ratings[0].top_defeated.name, "N/A");
    assert_eq!(response.ratings[0].top_defeated.id, 0);
}

#[test]
fn get_player_empty_top_rating() {
    let (player_char, match_counts, top_chars, top_defeated, _top_rating, top_global, tags) =
        get_test_player_data();

    let top_rating = HashMap::new();

    let response = handle_get_player(
        player_char,
        match_counts,
        top_chars,
        top_defeated,
        top_rating,
        top_global,
        tags,
    )
    .unwrap();

    assert_eq!(response.ratings[0].top_rating.timestamp, "N/A");
    assert_eq!(response.ratings[0].top_rating.value, 0);
}

#[test]
fn get_player_platform_ps() {
    let (mut player_char, match_counts, top_chars, top_defeated, top_rating, top_global, tags) =
        get_test_player_data();

    player_char[0].0.platform = 1;

    let response = handle_get_player(
        player_char,
        match_counts,
        top_chars,
        top_defeated,
        top_rating,
        top_global,
        tags,
    )
    .unwrap();

    assert_eq!(response.platform, "PS");
}

#[test]
fn get_player_platform_xb() {
    let (mut player_char, match_counts, top_chars, top_defeated, top_rating, top_global, tags) =
        get_test_player_data();

    player_char[0].0.platform = 2;

    let response = handle_get_player(
        player_char,
        match_counts,
        top_chars,
        top_defeated,
        top_rating,
        top_global,
        tags,
    )
    .unwrap();

    assert_eq!(response.platform, "XB");
}

#[test]
fn get_player_platform_pc() {
    let (mut player_char, match_counts, top_chars, top_defeated, top_rating, top_global, tags) =
        get_test_player_data();

    player_char[0].0.platform = 3;

    let response = handle_get_player(
        player_char,
        match_counts,
        top_chars,
        top_defeated,
        top_rating,
        top_global,
        tags,
    )
    .unwrap();

    assert_eq!(response.platform, "PC");
}

#[test]
fn get_player_fills_roster_names_and_records() {
    let (mut player_char, mut match_counts, mut top_chars, mut top_defeated, mut top_rating, _, tags) =
        get_test_player_data();
    player_char.push((
        Player {
            id: 1,
            name: "Test".to_string(),
            platform: 3,
            api_key: None,
            rcode_check_code: None,
        },
        PlayerRating { char_id: 17, value: 20_500, id: 1 },
    ));
    match_counts.insert(17, 3);
    top_chars.insert(17, 42);
    top_defeated.insert(
        17,
        TopDefeated {
            timestamp: "2024-01-01 00:00:00".to_string(),
            id: 9,
            name: "Rival".to_string(),
            char_short: "KY".to_string(),
            value: 21_000,
        },
    );
    top_rating.insert(17, TopRating { timestamp: "2024-01-02 00:00:00".to_string(), value: 20_900 });

    let response = handle_get_player(
        player_char,
        match_counts,
        top_chars,
        top_defeated,
        top_rating,
        7,
        tags,
    )
    .unwrap();

    assert_eq!(response.top_global, 7);
    assert_eq!(response.ratings.len(), 2);
    assert_eq!(response.ratings[0].char_short, "SO");
    assert_eq!(response.ratings[0].character, "Sol");
    assert_eq!(response.ratings[0].match_count, 10);
    assert_eq!(response.ratings[1].char_short, "HA");
    assert_eq!(response.ratings[1].character, "Happy Chaos");
    assert_eq!(response.ratings[1].top_char, 42);
    assert_eq!(response.ratings[1].top_defeated.name, "Rival");
    assert_eq!(response.ratings[1].top_rating.value, 20_900);
}
