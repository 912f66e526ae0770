//! Plain data rows of the service: players, games, ranks and tags.
//!
//! Timestamps are held as Unix seconds; the presentation layer renders them.

use vstd::prelude::*;

verus! {

/// A player row.
#[derive(Clone)]
pub struct Player {
    pub id: i64,
    pub name: String,
    pub platform: i16,
    pub api_key: Option<String>,
    pub rcode_check_code: Option<String>,
}

/// One rating row per (player, character) pair.
#[derive(Clone)]
pub struct PlayerRating {
    pub id: i64,
    pub char_id: i16,
    pub value: i64,
}

/// A recorded match between two players.
pub struct Game {
    pub timestamp: i64,
    pub id_a: i64,
    pub name_a: String,
    pub char_a: i16,
    pub platform_a: i16,
    pub id_b: i64,
    pub name_b: String,
    pub char_b: i16,
    pub platform_b: i16,
    pub winner: i16,
    pub game_floor: i16,
    pub value_a: i64,
    pub value_b: i64,
    pub real_timestamp: Option<i64>,
}

/// A row of the global leaderboard.
pub struct GlobalRank {
    pub rank: i32,
    pub id: i64,
    pub char_id: i16,
}

/// A row of one character's leaderboard.
pub struct CharacterRank {
    pub id: i64,
    pub char_id: i16,
    pub rank: i32,
}

/// A name a player has appeared under.
pub struct PlayerName {
    pub id: i64,
    pub name: String,
}

/// A decorative tag attached to a player.
pub struct Tag {
    pub id: i32,
    pub player_id: i64,
    pub tag: String,
    pub style: String,
}

/// Visibility of a player's profile.
#[derive(Clone, Copy, Debug, PartialEq, Eq, Structural)]
pub enum Status {
    Public,
    Private,
    Cheater,
}

/// Flipping privacy swaps `Public` and `Private` and leaves `Cheater` alone.
pub open spec fn toggled_status(s: Status) -> Status {
    match s {
        Status::Public => Status::Private,
        Status::Private => Status::Public,
        Status::Cheater => Status::Cheater,
    }
}

/// The privacy toggle applied when a player flips their setting.
pub fn toggle_status(s: Status) -> (r: Status)
    ensures
        r == toggled_status(s),
{
    match s {
        Status::Public => Status::Private,
        Status::Private => Status::Public,
        Status::Cheater => Status::Cheater,
    }
}

/// The label shown for a status on the settings page.
pub open spec fn status_label_spec(s: Status) -> Seq<char> {
    match s {
        Status::Public => "Not Hidden"@,
        Status::Private => "Hidden"@,
        Status::Cheater => "Cheater! :O"@,
    }
}

/// The label shown for a status on the settings page, computed.
pub fn status_label(s: Status) -> (r: &'static str)
    ensures
        r@ == status_label_spec(s),
{
    match s {
        Status::Public => "Not Hidden",
        Status::Private => "Hidden",
        Status::Cheater => "Cheater! :O",
    }
}

/// Toggling privacy twice restores the status it started from.
pub proof fn lemma_toggle_involution(s: Status)
    ensures
        toggled_status(toggled_status(s)) == s,
{
}

} // verus!
