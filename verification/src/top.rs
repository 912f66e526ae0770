//! Leaderboards, shaped for the top endpoints.

use vstd::prelude::*;
use std::collections::HashMap;
use crate::chars::{char_name, char_names, valid_char_id};
use crate::common::{tag_responses, tag_responses_spec, TagResponse};
use crate::models::{CharacterRank, GlobalRank, Player, PlayerRating};

verus! {

/// One leaderboard row: a ranked player with one character.
pub struct PlayerRankResponse {
    pub rank: i32,
    pub id: i64,
    pub name: String,
    pub rating: i64,
    pub char_short: String,
    pub char_long: String,
    pub tags: Vec<TagResponse>,
}

/// The top endpoints' payload.
pub struct RankResponse {
    pub ranks: Vec<PlayerRankResponse>,
}

/// The tags a leaderboard row shows: the player's tags where they have any,
/// nothing otherwise.
pub open spec fn row_tags_spec(tags: Map<i64, Vec<(String, String)>>, id: i64) -> Seq<TagResponse> {
    if tags.contains_key(id) {
        tag_responses_spec(tags[id]@)
    } else {
        Seq::empty()
    }
}

/// Whether a leaderboard row reports one ranked player correctly.
pub open spec fn rank_row_matches(
    row: PlayerRankResponse,
    rank: i32,
    char_id: i16,
    player: Player,
    rating: PlayerRating,
    tags: Map<i64, Vec<(String, String)>>,
) -> bool {
    &&& row.rank == rank
    &&& row.id == player.id
    &&& row.name == player.name
    &&& row.rating == rating.value
    &&& row.char_short@ == char_names()[char_id as int].0@
    &&& row.char_long@ == char_names()[char_id as int].1@
    &&& row.tags@ == row_tags_spec(tags, player.id)
}

/// A leaderboard row's tags, computed.
fn row_tags(tags: &HashMap<i64, Vec<(String, String)>>, id: i64) -> (r: Vec<TagResponse>)
    ensures
        r@ == row_tags_spec(tags@, id),
{
    match tags.get(&id) {
        Some(list) => tag_responses(list),
        None => Vec::new(),
    }
}

/// Shapes the global leaderboard: one row per rank entry, in order.
pub fn get_top(
    data: Vec<(GlobalRank, Player, PlayerRating)>,
    tags: HashMap<i64, Vec<(String, String)>>,
) -> (r: Result<RankResponse, String>)
    requires
        forall|i: int| 0 <= i < data@.len() ==> valid_char_id((#[trigger] data@[i]).0.char_id),
    ensures
        (match r {
            Ok(resp) => resp.ranks@.len() == data@.len() && (forall|i: int|
                0 <= i < data@.len() ==> rank_row_matches(
                    #[trigger] resp.ranks@[i],
                    data@[i].0.rank,
                    data@[i].0.char_id,
                    data@[i].1,
                    data@[i].2,
                    tags@,
                )),
            Err(_) => false,
        }),
{
    let ghost rows = data@;
    let mut ranks: Vec<PlayerRankResponse> = Vec::new();
    let mut i: usize = 0;
    let n: usize = data.len();
    while i < n
        invariant
            i <= rows.len(),
            n == rows.len(),
            data@ == rows,
            forall|j: int| 0 <= j < rows.len() ==> valid_char_id((#[trigger] rows[j]).0.char_id),
            ranks@.len() == i,
            forall|j: int| 0 <= j < i ==> rank_row_matches(
                #[trigger] ranks@[j],
                rows[j].0.rank,
                rows[j].0.char_id,
                rows[j].1,
                rows[j].2,
                tags@,
            ),
        decreases n - i,
    {
        let pair = char_name(data[i].0.char_id as usize);
        ranks.push(
            PlayerRankResponse {
                rank: data[i].0.rank,
                id: data[i].1.id,
                name: data[i].1.name.clone(),
                rating: data[i].2.value,
                char_short: String::from_str(pair.0),
                char_long: String::from_str(pair.1),
                tags: row_tags(&tags, data[i].1.id),
            },
        );
        i = i + 1;
    }
    Ok(RankResponse { ranks })
}

/// Shapes one character's leaderboard: one row per rank entry, in order.
pub fn get_top_char(
    data: Vec<(CharacterRank, Player, PlayerRating)>,
    tags: HashMap<i64, Vec<(String, String)>>,
) -> (r: Result<RankResponse, String>)
    requires
        forall|i: int| 0 <= i < data@.len() ==> valid_char_id((#[trigger] data@[i]).0.char_id),
    ensures
        (match r {
            Ok(resp) => resp.ranks@.len() == data@.len() && (forall|i: int|
                0 <= i < data@.len() ==> rank_row_matches(
                    #[trigger] resp.ranks@[i],
                    data@[i].0.rank,
                    data@[i].0.char_id,
                    data@[i].1,
                    data@[i].2,
                    tags@,
                )),
            Err(_) => false,
        }),
{
    let ghost rows = data@;
    let mut ranks: Vec<PlayerRankResponse> = Vec::new();
    let mut i: usize = 0;
    let n: usize = data.len();
    while i < n
        invariant
            i <= rows.len(),
            n == rows.len(),
            data@ == rows,
            forall|j: int| 0 <= j < rows.len() ==> valid_char_id((#[trigger] rows[j]).0.char_id),
            ranks@.len() == i,
            forall|j: int| 0 <= j < i ==> rank_row_matches(
                #[trigger] ranks@[j],
                rows[j].0.rank,
                rows[j].0.char_id,
                rows[j].1,
                rows[j].2,
                tags@,
            ),
        decreases n - i,
    {
        let pair = char_name(data[i].0.char_id as usize);
        ranks.push(
            PlayerRankResponse {
                rank: data[i].0.rank,
                id: data[i].1.id,
                name: data[i].1.name.clone(),
                rating: data[i].2.value,
                char_short: String::from_str(pair.0),
                char_long: String::from_str(pair.1),
                tags: row_tags(&tags, data[i].1.id),
            },
        );
        i = i + 1;
    }
    Ok(RankResponse { ranks })
}

} // verus!
