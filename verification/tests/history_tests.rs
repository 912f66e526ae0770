//! The match-history handler on hand-built games.

use std::collections::HashMap;

use rating_engine::history::handle_get_player_history;
use rating_engine::models::Game;

fn get_test_player_history_data() -> (Vec<Game>, HashMap<i64, Vec<(String, String)>>) {
    let games = vec![
        Game {
            id_a: 1,
            id_b: 2,
            name_a: "Test".to_string(),
            name_b: "Test2".to_string(),
            platform_a: 1,
            platform_b: 1,
            char_a: 0,
            char_b: 0,
            value_a: 1000,
            value_b: 2000,
            timestamp: 0,
            real_timestamp: None,
            game_floor: 1,
            winner: 1,
        },
        Game {
            id_a: 1,
            id_b: 2,
            name_a: "Test".to_string(),
            name_b: "Test2".to_string(),
            platform_a: 1,
            platform_b: 1,
            char_a: 0,
            char_b: 0,
            value_a: 1500,
            value_b: 2000,
            timestamp: 0,
            real_timestamp: None,
            game_floor: 1,
            winner: 2,
        },
    ];

    let player_tags = HashMap::new();

    (games, player_tags)
}

#[test]
fn get_player_history_platform_pc() {
    let player_id = 1;
    let (mut games, player_tags) = get_test_player_history_data();
    games[0].platform_b = 3;

    let response = handle_get_player_history(player_id, games, player_tags).unwrap();

    assert_eq!(response.history[0].opponent_platform, "PC");
}

#[test]
fn get_player_history_platform_xb() {
    let player_id = 1;
    let (mut games, player_tags) = get_test_player_history_data();
    games[0].platform_b = 2;

    let response = handle_get_player_history(player_id, games, player_tags).unwrap();

    assert_eq!(response.history[0].opponent_platform, "XB");
}

#[test]
fn get_player_history_platform_ps() {
    let player_id = 1;
    let (mut games, player_tags) = get_test_player_history_data();
    games[0].platform_b = 1;

    let response = handle_get_player_history(player_id, games, player_tags).unwrap();

    assert_eq!(response.history[0].opponent_platform, "PS");
}

#[test]
fn get_player_history_win_rate_a() {
    let player_id = 1;
    let (games, player_tags) = get_test_player_history_data();

    let response = handle_get_player_history(player_id, games, player_tags).unwrap();

    assert_eq!(response.history[0].result_win, true);
}

#[test]
fn get_player_history_win_rate_b() {
    let player_id = 2;
    let (games, player_tags) = get_test_player_history_data();

    let response = handle_get_player_history(player_id, games, player_tags).unwrap();

    assert_eq!(response.history[0].result_win, false);
}

#[test]
fn get_player_history_winner_b() {
    let player_id = 2;
    let (games, player_tags) = get_test_player_history_data();

    let response = handle_get_player_history(player_id, games, player_tags).unwrap();

    assert_eq!(response.history[1].result_win, true);
}

#[test]
fn history_reports_the_opponents_side() {
    let player_id = 2;
    let (mut games, mut player_tags) = get_test_player_history_data();
    games[0].char_a = 17;
    games[0].real_timestamp = Some(1_700_000_123);
    player_tags.insert(1, vec![
        ("supporter".to_string(), "gold".to_string()),
        ("hidden".to_string(), "".to_string()),
    ]);

    let response = handle_get_player_history(player_id, games, player_tags).unwrap();

    assert_eq!(response.history[0].opponent_id, 1);
    assert_eq!(response.history[0].opponent_name, "Test");
    assert_eq!(response.history[0].opponent_character, "Happy Chaos");
    assert_eq!(response.history[0].opponent_character_short, "HA");
    assert_eq!(response.history[0].own_rating_value, 2000);
    assert_eq!(response.history[0].opponent_rating_value, 1000);
    assert_eq!(response.history[0].timestamp, 1_700_000_123);
    assert_eq!(response.history[1].timestamp, 0);

    let tags = response.tags.get(&1).unwrap();
    assert_eq!(tags.len(), 1);
    assert_eq!(tags[0].tag, "supporter");
    assert_eq!(tags[0].style, "gold");
}

#[test]
fn history_skips_taggless_and_placeholder_opponents() {
    let player_id = 1;
    let (mut games, mut player_tags) = get_test_player_history_data();
    games[1].id_b = 0;
    player_tags.insert(2, vec![("ghost".to_string(), "".to_string())]);
    player_tags.insert(0, vec![("never".to_string(), "red".to_string())]);

    let response = handle_get_player_history(player_id, games, player_tags).unwrap();

    assert!(response.tags.is_empty());
}
