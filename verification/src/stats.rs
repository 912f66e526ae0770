//! Aggregate statistics read back from the cache: game and player counts,
//! popularity, and the matchup grid.

use vstd::prelude::*;
use std::collections::HashMap;
use crate::chars::{char_name, char_names, CHAR_COUNT};

verus! {

/// Game and player counts over several windows.
pub struct Stats {
    pub timestamp: String,
    pub total_games: i64,
    pub one_month_games: i64,
    pub one_week_games: i64,
    pub one_day_games: i64,
    pub one_hour_games: i64,
    pub total_players: i64,
    pub one_month_players: i64,
    pub one_week_players: i64,
    pub one_day_players: i64,
    pub one_hour_players: i64,
}

/// How much each character is played, per player and per game.
pub struct Popularity {
    pub per_player: Vec<(String, i64)>,
    pub per_character: Vec<(String, i64)>,
    pub per_player_total: i64,
    pub per_character_total: i64,
    pub last_update: String,
}

/// One matchup cell as stored: wins and total games against one opponent
/// character, which sits at the cell's index.
pub struct Matchup {
    pub opponent_char: i16,
    pub wins: i64,
    pub total_games: i64,
}

/// One matchup cell with the opponent named.
pub struct MatchupEntry {
    pub char_name: String,
    pub char_short: String,
    pub wins: i64,
    pub total_games: i64,
}

/// One character's row of the matchup grid.
pub struct MatchupChar {
    pub char_name: String,
    pub char_short: String,
    pub matchups: Vec<MatchupEntry>,
}

/// The whole matchup grid, one set of rows per stored prefix.
pub struct Matchups {
    pub last_update: String,
    pub matchups: HashMap<String, Vec<MatchupChar>>,
}

/// Whether a named matchup entry reports a stored cell correctly: the names
/// come from the cell's position in the row, the numbers from the cell.
pub open spec fn entry_matches(e: MatchupEntry, cell: Matchup, position: int) -> bool {
    &&& e.char_name@ == char_names()[position].1@
    &&& e.char_short@ == char_names()[position].0@
    &&& e.wins == cell.wins
    &&& e.total_games == cell.total_games
}

/// Names one character's stored matchup row: the row's own character names
/// it, and each cell is named after its position.
pub fn build_matchup_char(char_id: usize, cells: &Vec<Matchup>) -> (r: MatchupChar)
    requires
        char_id < CHAR_COUNT,
        cells@.len() <= CHAR_COUNT,
    ensures
        r.char_name@ == char_names()[char_id as int].1@,
        r.char_short@ == char_names()[char_id as int].0@,
        r.matchups@.len() == cells@.len(),
        forall|i: int| 0 <= i < cells@.len() ==> entry_matches(
            #[trigger] r.matchups@[i],
            cells@[i],
            i,
        ),
{
    let own = char_name(char_id);
    let mut entries: Vec<MatchupEntry> = Vec::new();
    let mut i: usize = 0;
    let n: usize = cells.len();
    while i < n
        invariant
            i <= cells@.len(),
            n == cells@.len(),
            cells@.len() <= CHAR_COUNT,
            entries@.len() == i,
            forall|j: int| 0 <= j < i ==> entry_matches(#[trigger] entries@[j], cells@[j], j),
        decreases n - i,
    {
        let pair = char_name(i);
        entries.push(
            MatchupEntry {
                char_name: String::from_str(pair.1),
                char_short: String::from_str(pair.0),
                wins: cells[i].wins,
                total_games: cells[i].total_games,
            },
        );
        i = i + 1;
    }
    MatchupChar {
        char_name: String::from_str(own.1),
        char_short: String::from_str(own.0),
        matchups: entries,
    }
}

} // verus!
