//! One player's profile, shaped for the player endpoint.

use vstd::prelude::*;
use std::collections::HashMap;
use crate::chars::{char_name, char_names, valid_char_id};
use crate::common::{tag_responses, tag_responses_spec, TagResponse};
use crate::models::{Player, PlayerRating};

verus! {

/// The best win on record for one character: when, against whom.
pub struct TopDefeated {
    pub timestamp: String,
    pub id: i64,
    pub name: String,
    pub char_short: String,
    pub value: i64,
}

impl Clone for TopDefeated {
    fn clone(&self) -> (r: Self)
        ensures
            r == *self,
    {
        TopDefeated {
            timestamp: self.timestamp.clone(),
            id: self.id,
            name: self.name.clone(),
            char_short: self.char_short.clone(),
            value: self.value,
        }
    }
}

/// The highest rating on record for one character.
pub struct TopRating {
    pub timestamp: String,
    pub value: i64,
}

impl Clone for TopRating {
    fn clone(&self) -> (r: Self)
        ensures
            r == *self,
    {
        TopRating { timestamp: self.timestamp.clone(), value: self.value }
    }
}

/// One character's row in a player profile.
pub struct PlayerResponsePlayer {
    pub rating: i64,
    pub char_short: String,
    pub character: String,
    pub match_count: i32,
    pub top_char: i32,
    pub top_defeated: TopDefeated,
    pub top_rating: TopRating,
}

/// The player endpoint's payload.
pub struct PlayerResponse {
    pub id: i64,
    pub name: String,
    pub ratings: Vec<PlayerResponsePlayer>,
    pub platform: String,
    pub top_global: i32,
    pub tags: Vec<TagResponse>,
}

/// Label of a platform code on a profile.
pub open spec fn profile_platform_spec(p: i16) -> Seq<char> {
    if p == 1 {
        "PS"@
    } else if p == 2 {
        "XB"@
    } else if p == 3 {
        "PC"@
    } else {
        "???"@
    }
}

/// The placeholder shown when a character has no best win on record.
pub open spec fn is_empty_top_defeated(td: TopDefeated) -> bool {
    &&& td.timestamp@ == "N/A"@
    &&& td.id == 0
    &&& td.name@ == "N/A"@
    &&& td.char_short@ == "N/A"@
    &&& td.value == 0
}

/// The placeholder shown when a character has no best rating on record.
pub open spec fn is_empty_top_rating(tr: TopRating) -> bool {
    &&& tr.timestamp@ == "N/A"@
    &&& tr.value == 0
}

/// Whether a profile row reports one (player, rating) pair correctly against
/// the per-character lookups: the roster names for its character, the counts
/// and ranks from the maps, and the records or their placeholders.
pub open spec fn rating_row_matches(
    row: PlayerResponsePlayer,
    rating: PlayerRating,
    match_counts: Map<i16, i32>,
    top_chars: Map<i16, i32>,
    top_defeated: Map<i16, TopDefeated>,
    top_rating: Map<i16, TopRating>,
) -> bool {
    let cid = rating.char_id;
    &&& row.rating == rating.value
    &&& row.char_short@ == char_names()[cid as int].0@
    &&& row.character@ == char_names()[cid as int].1@
    &&& row.match_count == match_counts[cid]
    &&& row.top_char == top_chars[cid]
    &&& (if top_defeated.contains_key(cid) {
        row.top_defeated == top_defeated[cid]
    } else {
        is_empty_top_defeated(row.top_defeated)
    })
    &&& (if top_rating.contains_key(cid) {
        row.top_rating == top_rating[cid]
    } else {
        is_empty_top_rating(row.top_rating)
    })
}

/// Shapes one player's profile: one row per character played, the platform
/// label, the global rank and the player's tags.
pub fn handle_get_player(
    player_char: Vec<(Player, PlayerRating)>,
    match_counts: HashMap<i16, i32>,
    top_chars: HashMap<i16, i32>,
    top_defeated: HashMap<i16, TopDefeated>,
    top_rating: HashMap<i16, TopRating>,
    top_global: i32,
    tags: Vec<(String, String)>,
) -> (r: Result<PlayerResponse, String>)
    requires
        player_char@.len() > 0,
        forall|i: int| 0 <= i < player_char@.len() ==> valid_char_id(
            (#[trigger] player_char@[i]).1.char_id,
        ),
        forall|i: int| 0 <= i < player_char@.len() ==> match_counts@.contains_key(
            (#[trigger] player_char@[i]).1.char_id,
        ) && top_chars@.contains_key(player_char@[i].1.char_id),
    ensures
        (match r {
            Ok(resp) => {
                &&& resp.id == player_char@[0].0.id
                &&& resp.name == player_char@[0].0.name
                &&& resp.platform@ == profile_platform_spec(player_char@[0].0.platform)
                &&& resp.top_global == top_global
                &&& resp.tags@ == tag_responses_spec(tags@)
                &&& resp.ratings@.len() == player_char@.len()
                &&& forall|i: int| 0 <= i < player_char@.len() ==> rating_row_matches(
                    #[trigger] resp.ratings@[i],
                    player_char@[i].1,
                    match_counts@,
                    top_chars@,
                    top_defeated@,
                    top_rating@,
                )
            },
            Err(_) => false,
        }),
{
    let ghost inputs = player_char@;
    let mut ratings: Vec<PlayerResponsePlayer> = Vec::new();
    let mut i: usize = 0;
    let n: usize = player_char.len();
    while i < n
        invariant
            i <= inputs.len(),
            n == inputs.len(),
            player_char@ == inputs,
            forall|j: int| 0 <= j < inputs.len() ==> valid_char_id((#[trigger] inputs[j]).1.char_id),
            forall|j: int| 0 <= j < inputs.len() ==> match_counts@.contains_key(
                (#[trigger] inputs[j]).1.char_id,
            ) && top_chars@.contains_key(inputs[j].1.char_id),
            ratings@.len() == i,
            forall|j: int| 0 <= j < i ==> rating_row_matches(
                #[trigger] ratings@[j],
                inputs[j].1,
                match_counts@,
                top_chars@,
                top_defeated@,
                top_rating@,
            ),
        decreases n - i,
    {
        let cid: i16 = player_char[i].1.char_id;
        let pair = char_name(cid as usize);
        let match_count: i32 = *match_counts.get(&cid).unwrap();
        let top_char: i32 = *top_chars.get(&cid).unwrap();
        let td: TopDefeated = match top_defeated.get(&cid) {
            Some(v) => v.clone(),
            None => TopDefeated {
                timestamp: String::from_str("N/A"),
                id: 0,
                name: String::from_str("N/A"),
                char_short: String::from_str("N/A"),
                value: 0,
            },
        };
        let tr: TopRating = match top_rating.get(&cid) {
            Some(v) => v.clone(),
            None => TopRating { timestamp: String::from_str("N/A"), value: 0 },
        };
        ratings.push(
            PlayerResponsePlayer {
                rating: player_char[i].1.value,
                char_short: String::from_str(pair.0),
                character: String::from_str(pair.1),
                match_count,
                top_char,
                top_defeated: td,
                top_rating: tr,
            },
        );
        i = i + 1;
    }

    let platform: String = if player_char[0].0.platform == 1 {
        String::from_str("PS")
    } else if player_char[0].0.platform == 2 {
        String::from_str("XB")
    } else if player_char[0].0.platform == 3 {
        String::from_str("PC")
    } else {
        String::from_str("???")
    };

    Ok(
        PlayerResponse {
            id: player_char[0].0.id,
            name: player_char[0].0.name.clone(),
            ratings,
            platform,
            top_global,
            tags: tag_responses(&tags),
        },
    )
}

} // verus!
