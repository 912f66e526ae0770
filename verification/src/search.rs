//! Player search results, shaped for the search endpoint.

use vstd::prelude::*;
use crate::chars::{char_name, char_names, valid_char_id};
use crate::models::{Player, PlayerRating};

verus! {

/// How a search is asked for: the text, and whether it must match exactly.
pub struct SearchParams {
    pub search_string: String,
    pub exact: Option<bool>,
}

/// One search hit: a player with one of their characters.
pub struct PlayerSearchResponse {
    pub id: i64,
    pub name: String,
    pub rating: i64,
    pub char_short: String,
    pub char_long: String,
}

/// The search endpoint's payload.
pub struct SearchResponse {
    pub results: Vec<PlayerSearchResponse>,
}

/// Whether a search hit reports one (player, rating) pair correctly.
pub open spec fn search_hit_matches(hit: PlayerSearchResponse, p: (Player, PlayerRating)) -> bool {
    &&& hit.id == p.0.id
    &&& hit.name == p.0.name
    &&& hit.rating == p.1.value
    &&& hit.char_short@ == char_names()[p.1.char_id as int].0@
    &&& hit.char_long@ == char_names()[p.1.char_id as int].1@
}

/// Shapes the rows a search query found: one hit per row, in order.
pub fn player_search(data: Vec<(Player, PlayerRating)>) -> (r: Result<SearchResponse, String>)
    requires
        forall|i: int| 0 <= i < data@.len() ==> valid_char_id((#[trigger] data@[i]).1.char_id),
    ensures
        (match r {
            Ok(resp) => resp.results@.len() == data@.len() && (forall|i: int|
                0 <= i < data@.len() ==> search_hit_matches(
                    #[trigger] resp.results@[i],
                    data@[i],
                )),
            Err(_) => false,
        }),
{
    let ghost rows = data@;
    let mut results: Vec<PlayerSearchResponse> = Vec::new();
    let mut i: usize = 0;
    let n: usize = data.len();
    while i < n
        invariant
            i <= rows.len(),
            n == rows.len(),
            data@ == rows,
            forall|j: int| 0 <= j < rows.len() ==> valid_char_id((#[trigger] rows[j]).1.char_id),
            results@.len() == i,
            forall|j: int| 0 <= j < i ==> search_hit_matches(#[trigger] results@[j], rows[j]),
        decreases n - i,
    {
        let pair = char_name(data[i].1.char_id as usize);
        results.push(
            PlayerSearchResponse {
                id: data[i].0.id,
                name: data[i].0.name.clone(),
                rating: data[i].1.value,
                char_short: String::from_str(pair.0),
                char_long: String::from_str(pair.1),
            },
        );
        i = i + 1;
    }
    Ok(SearchResponse { results })
}

} // verus!
