//! The remaining read endpoints: search, leaderboards, matchups, pagination,
//! the roster, and the numeric primitives underneath.

use std::collections::HashMap;

use rating_engine::cdf::{cdf_positive, PROB_HALF};
use rating_engine::chars::{char_name, char_position, CHAR_COUNT};
use rating_engine::common::{tag_responses, Pagination};
use rating_engine::models::{CharacterRank, GlobalRank, Player, PlayerRating};
use rating_engine::search::player_search;
use rating_engine::sqrt::{isqrt_u128, isqrt_u64};
use rating_engine::stats::{build_matchup_char, Matchup, Stats};
use rating_engine::top::{get_top, get_top_char};

fn player(id: i64, name: &str) -> Player {
    Player { id, name: name.to_string(), platform: 3, api_key: None, rcode_check_code: None }
}

#[test]
fn pagination_defaults_to_a_hundred_rows() {
    let p = Pagination { count: None, offset: None };
    assert_eq!(p.limits(), (100, 0));
    let q = Pagination { count: Some(25), offset: Some(50) };
    assert_eq!(q.limits(), (25, 50));
}

#[test]
fn roster_lookup_finds_codes_and_rejects_strangers() {
    assert_eq!(char_position("SO"), Some(0));
    assert_eq!(char_position("DI"), Some(28));
    assert_eq!(char_position("ZZ"), None);
    assert_eq!(char_name(11), ("NA", "Nagoriyuki"));
    assert_eq!(CHAR_COUNT, 29);
}

#[test]
fn search_results_carry_roster_names() {
    let data = vec![
        (player(1, "One"), PlayerRating { id: 1, char_id: 4, value: 12_345 }),
        (player(2, "Two"), PlayerRating { id: 2, char_id: 0, value: 999 }),
    ];
    let resp = player_search(data).unwrap();
    assert_eq!(resp.results.len(), 2);
    assert_eq!(resp.results[0].name, "One");
    assert_eq!(resp.results[0].char_short, "CH");
    assert_eq!(resp.results[0].char_long, "Chipp");
    assert_eq!(resp.results[0].rating, 12_345);
    assert_eq!(resp.results[1].char_short, "SO");
}

#[test]
fn global_leaderboard_rows_keep_rank_order_and_tags() {
    let data = vec![
        (
            GlobalRank { rank: 1, id: 10, char_id: 1 },
            player(10, "Champ"),
            PlayerRating { id: 10, char_id: 1, value: 30_000 },
        ),
        (
            GlobalRank { rank: 2, id: 11, char_id: 2 },
            player(11, "Second"),
            PlayerRating { id: 11, char_id: 2, value: 29_000 },
        ),
    ];
    let mut tags = HashMap::new();
    tags.insert(10, vec![("supporter".to_string(), "gold".to_string())]);

    let resp = get_top(data, tags).unwrap();
    assert_eq!(resp.ranks.len(), 2);
    assert_eq!(resp.ranks[0].rank, 1);
    assert_eq!(resp.ranks[0].char_short, "KY");
    assert_eq!(resp.ranks[0].tags.len(), 1);
    assert_eq!(resp.ranks[0].tags[0].tag, "supporter");
    assert_eq!(resp.ranks[1].char_long, "May");
    assert!(resp.ranks[1].tags.is_empty());
}

#[test]
fn character_leaderboard_rows_name_their_character() {
    let data = vec![(
        CharacterRank { id: 10, char_id: 5, rank: 1 },
        player(10, "PotBuster"),
        PlayerRating { id: 10, char_id: 5, value: 21_000 },
    )];
    let resp = get_top_char(data, HashMap::new()).unwrap();
    assert_eq!(resp.ranks[0].char_short, "PO");
    assert_eq!(resp.ranks[0].char_long, "Potemkin");
    assert_eq!(resp.ranks[0].rating, 21_000);
}

#[test]
fn matchup_rows_name_every_opponent_in_roster_order() {
    let cells = vec![
        Matchup { opponent_char: 0, wins: 3, total_games: 10 },
        Matchup { opponent_char: 1, wins: 7, total_games: 9 },
    ];
    let row = build_matchup_char(2, &cells);
    assert_eq!(row.char_short, "MA");
    assert_eq!(row.char_name, "May");
    assert_eq!(row.matchups.len(), 2);
    assert_eq!(row.matchups[0].char_short, "SO");
    assert_eq!(row.matchups[0].wins, 3);
    assert_eq!(row.matchups[1].char_name, "Ky");
    assert_eq!(row.matchups[1].total_games, 9);
}

#[test]
fn stats_struct_round_trips_its_counts() {
    let s = Stats {
        timestamp: "2024-01-01 00:00:00".to_string(),
        total_games: 10,
        one_month_games: 9,
        one_week_games: 8,
        one_day_games: 7,
        one_hour_games: 6,
        total_players: 5,
        one_month_players: 4,
        one_week_players: 3,
        one_day_players: 2,
        one_hour_players: 1,
    };
    assert_eq!(s.total_games - s.one_hour_players, 9);
}

#[test]
fn tag_responses_keep_every_pair_in_order() {
    let raw = vec![
        ("a".to_string(), "".to_string()),
        ("b".to_string(), "blue".to_string()),
    ];
    let out = tag_responses(&raw);
    assert_eq!(out.len(), 2);
    assert_eq!(out[0].tag, "a");
    assert_eq!(out[0].style, "");
    assert_eq!(out[1].style, "blue");
}

#[test]
fn integer_square_roots_are_exact_floors() {
    assert_eq!(isqrt_u64(0), 0);
    assert_eq!(isqrt_u64(1), 1);
    assert_eq!(isqrt_u64(2), 1);
    assert_eq!(isqrt_u64(144), 12);
    assert_eq!(isqrt_u64(145), 12);
    assert_eq!(isqrt_u64(u64::MAX), 4_294_967_295);
    assert_eq!(isqrt_u128(8_000_000_000_000_000_000_000_000_000), 89_442_719_099_991);
}

#[test]
fn cdf_hits_the_normal_table_exactly_on_grid_points() {
    // Phi(1) and Phi(2) at scale one billion, each rounded to the integer.
    assert_eq!(cdf_positive(1, 1), 841_344_746);
    assert_eq!(cdf_positive(2, 1), 977_249_868);
    assert_eq!(cdf_positive(3, 1), 998_650_102);
}

#[test]
fn cdf_is_half_at_zero_and_saturates_high() {
    assert_eq!(cdf_positive(0, 300_000_000), PROB_HALF);
    assert_eq!(cdf_positive(2_000_000_000, 300_000_000), 999_999_999);
    let one_sigma = cdf_positive(300_000_000, 300_000_000);
    assert!(one_sigma > 841_000_000 && one_sigma < 842_000_000);
    let mut last = 0;
    for i in 0..50u64 {
        let p = cdf_positive(i * 40_000_000, 300_000_000);
        assert!(p >= last);
        last = p;
    }
}
