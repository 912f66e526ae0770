//! The small service decisions: avatar curve, health, timestamps, tags,
//! claim codes, statuses.

use std::collections::HashMap;

use rating_engine::models::{status_label, toggle_status, Status};
use rating_engine::service::{
    code_char, daily_update_due, fix_timestamp, group_tags, health_message, health_status,
    hourly_update_due, process_channel, HealthStatus, CODE_CHARSET_LEN, CODE_LENGTH,
};

#[test]
fn process_channel_leaves_black_and_white_alone() {
    assert_eq!(process_channel(0), 0);
    assert_eq!(process_channel(255), 255);
}

#[test]
fn process_channel_brightens_along_the_square_root() {
    assert_eq!(process_channel(64), 128);
    assert_eq!(process_channel(1), 16);
    assert_eq!(process_channel(16), 64);
    assert_eq!(process_channel(100), 160);
    assert_eq!(process_channel(254), 254);
}

#[test]
fn health_reports_missing_game_time() {
    assert_eq!(health_status(1_000_000, None, 999_000), HealthStatus::NoGameTime);
    assert_eq!(health_message(HealthStatus::NoGameTime), "latest_game_time does not exist!");
}

#[test]
fn health_reports_stale_replays() {
    assert_eq!(health_status(1_000_000, Some(999_879), 1_000_000), HealthStatus::StaleReplays);
    assert_eq!(health_status(1_000_000, Some(999_880), 1_000_000), HealthStatus::Healthy);
    assert_eq!(health_message(HealthStatus::StaleReplays), "No New (2m) Replays!");
}

#[test]
fn health_excuses_a_running_daily_update() {
    assert_eq!(health_status(1_000_000, Some(999_990), 913_599), HealthStatus::DailyUpdateRunning);
    assert_eq!(health_status(1_000_000, Some(999_990), 913_600), HealthStatus::Healthy);
    assert_eq!(health_message(HealthStatus::Healthy), "OK");
}

#[test]
fn future_timestamps_are_pulled_back() {
    assert_eq!(fix_timestamp(1_000_010, 1_000_000, 3), Some(1_000_003));
    assert_eq!(fix_timestamp(1_000_002, 1_000_000, 3), None);
    assert_eq!(fix_timestamp(999_999, 1_000_000, 0), None);
}

#[test]
fn maintenance_runs_become_due_after_their_window() {
    assert!(!hourly_update_due(996_400, 1_000_000));
    assert!(hourly_update_due(996_399, 1_000_000));
    assert!(!daily_update_due(913_600, 1_000_000));
    assert!(daily_update_due(913_599, 1_000_000));
}

#[test]
fn tags_group_by_player_in_order() {
    let rows = vec![
        (1, "alpha".to_string(), "red".to_string()),
        (2, "beta".to_string(), "blue".to_string()),
        (1, "gamma".to_string(), "".to_string()),
    ];
    let m = group_tags(rows);
    assert_eq!(m.len(), 2);
    assert_eq!(
        m.get(&1).unwrap(),
        &vec![("alpha".to_string(), "red".to_string()), ("gamma".to_string(), "".to_string())]
    );
    assert_eq!(m.get(&2).unwrap(), &vec![("beta".to_string(), "blue".to_string())]);
    assert!(m.get(&3).is_none());
}

#[test]
fn claim_code_alphabet_skips_lookalikes() {
    assert_eq!(CODE_LENGTH, 8);
    let mut charset = String::new();
    for i in 0..CODE_CHARSET_LEN {
        charset.push(code_char(i));
    }
    assert_eq!(charset, "ABCDEFGHJKLMNOPQRSTUVWXYZabcdefghijkmnopqrstuvwxyz0123456789");
    assert!(!charset.contains('I'));
    assert!(!charset.contains('l'));
}

#[test]
fn privacy_toggle_swaps_and_cheater_sticks() {
    assert_eq!(toggle_status(Status::Public), Status::Private);
    assert_eq!(toggle_status(Status::Private), Status::Public);
    assert_eq!(toggle_status(Status::Cheater), Status::Cheater);
    assert_eq!(toggle_status(toggle_status(Status::Public)), Status::Public);
}

#[test]
fn status_labels_match_the_settings_page() {
    assert_eq!(status_label(Status::Public), "Not Hidden");
    assert_eq!(status_label(Status::Private), "Hidden");
    assert_eq!(status_label(Status::Cheater), "Cheater! :O");
}

#[test]
fn grouped_tags_round_trip_through_a_map() {
    let m: HashMap<i64, Vec<(String, String)>> = group_tags(vec![]);
    assert!(m.is_empty());
}
