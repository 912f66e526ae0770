//! Reading rating updates out of stats documents, with the real JSON parser
//! underneath.

use rating_engine::sync::{get_json_char_code, parse_player_stats, select_rating, StatsError};

#[test]
fn json_char_codes_are_spelled_out() {
    assert_eq!(get_json_char_code("SO"), "SOL");
    assert_eq!(get_json_char_code("HA"), "COS");
    assert_eq!(get_json_char_code("GO"), "GLD");
    assert_eq!(get_json_char_code("JC"), "JKO");
    assert_eq!(get_json_char_code("DI"), "DZY");
    assert_eq!(get_json_char_code("LU"), "LUC");
}

#[test]
fn unknown_char_codes_pass_through() {
    assert_eq!(get_json_char_code("XX"), "XX");
    assert_eq!(get_json_char_code(""), "");
}

#[test]
fn positive_master_rating_wins_and_is_lifted() {
    assert_eq!(select_rating(Some(150), Some(2_000)), Some(10_000_150));
    assert_eq!(select_rating(Some(1), None), Some(10_000_001));
}

#[test]
fn zero_master_rating_falls_back_to_rank_match() {
    assert_eq!(select_rating(Some(0), Some(2_000)), Some(2_000));
    assert_eq!(select_rating(None, Some(77)), Some(77));
}

#[test]
fn nonpositive_ratings_count_for_nothing() {
    assert_eq!(select_rating(Some(0), Some(0)), None);
    assert_eq!(select_rating(Some(-5), Some(-1)), None);
    assert_eq!(select_rating(None, None), None);
}

#[test]
fn oversized_master_rating_is_dropped_not_wrapped() {
    assert_eq!(select_rating(Some(i64::MAX), Some(500)), None);
}

#[test]
fn parse_picks_up_each_characters_fields() {
    let json = r#"{
        "SOL_MasterRatingPt": 150,
        "KYK_RankMatchRatingPt": 2000,
        "MAY_MasterRatingPt": 0,
        "MAY_RankMatchRatingPt": 777,
        "AXL_RankMatchRatingPt": -5,
        "COS_MasterRatingPt": 31,
        "PublicComment": "hello"
    }"#;
    let updates = parse_player_stats(json).unwrap();
    assert_eq!(updates, vec![(0, 10_000_150), (1, 2_000), (2, 777), (17, 10_000_031)]);
}

#[test]
fn parse_ignores_non_integer_fields() {
    let json = r#"{"SOL_MasterRatingPt": "high", "KYK_RankMatchRatingPt": 12.5, "MAY_RankMatchRatingPt": 3}"#;
    let updates = parse_player_stats(json).unwrap();
    assert_eq!(updates, vec![(2, 3)]);
}

#[test]
fn parse_of_empty_object_yields_no_updates() {
    let updates = parse_player_stats("{}").unwrap();
    assert_eq!(updates, vec![]);
}

#[test]
fn parse_rejects_broken_json() {
    let r = parse_player_stats("not json at all {");
    assert_eq!(r.unwrap_err(), StatsError::InvalidJson);
}
