//! One player's match history, shaped for the history endpoint.

use vstd::prelude::*;
use std::collections::HashMap;
use crate::chars::{char_names, valid_char_id, char_name};
use crate::common::TagResponse;
use crate::models::Game;

verus! {

/// One game as the history endpoint reports it, from the requesting
/// player's side.
pub struct PlayerSet {
    pub timestamp: i64,
    pub own_rating_value: i64,
    pub floor: i16,
    pub opponent_name: String,
    pub opponent_platform: &'static str,
    pub opponent_id: i64,
    pub opponent_character: &'static str,
    pub opponent_character_short: &'static str,
    pub opponent_rating_value: i64,
    pub result_win: bool,
}

/// The history endpoint's payload: the games, and the tags of every
/// opponent that has any.
pub struct PlayerGamesResponse {
    pub history: Vec<PlayerSet>,
    pub tags: HashMap<i64, Vec<TagResponse>>,
}

/// The opponent: B when the requesting player sat in seat A, else A.
pub open spec fn opponent_id_of(g: Game, player_id: i64) -> i64 {
    if g.id_a == player_id {
        g.id_b
    } else {
        g.id_a
    }
}

/// Whether the requesting player won: seat A with winner 1, or seat B with
/// winner 2.
pub open spec fn game_result_win(g: Game, player_id: i64) -> bool {
    (g.id_a == player_id && g.winner == 1) || (g.id_b == player_id && g.winner == 2)
}

/// Label of a platform code.
pub open spec fn platform_label_spec(p: i16) -> Seq<char> {
    if p == 1 {
        "PS"@
    } else if p == 2 {
        "XB"@
    } else if p == 3 {
        "PC"@
    } else {
        "??"@
    }
}

/// Label of a platform code, computed.
pub fn platform_label(p: i16) -> (r: &'static str)
    ensures
        r@ == platform_label_spec(p),
{
    if p == 1 {
        "PS"
    } else if p == 2 {
        "XB"
    } else if p == 3 {
        "PC"
    } else {
        "??"
    }
}

/// Whether a history row reports game `g` correctly from `player_id`'s side:
/// ratings, names, character and platform labels come from the opponent's
/// seat, and the effective timestamp prefers the corrected one.
pub open spec fn set_matches(ps: PlayerSet, g: Game, player_id: i64) -> bool {
    let from_b = g.id_a == player_id;
    let opp_char = if from_b {
        g.char_b
    } else {
        g.char_a
    };
    &&& ps.timestamp == (match g.real_timestamp {
        Some(t) => t,
        None => g.timestamp,
    })
    &&& ps.own_rating_value == (if from_b {
        g.value_a
    } else {
        g.value_b
    })
    &&& ps.floor == g.game_floor
    &&& ps.opponent_name == (if from_b {
        g.name_b
    } else {
        g.name_a
    })
    &&& ps.opponent_platform@ == platform_label_spec(
        if from_b {
            g.platform_b
        } else {
            g.platform_a
        },
    )
    &&& ps.opponent_id == opponent_id_of(g, player_id)
    &&& ps.opponent_character@ == char_names()[opp_char as int].1@
    &&& ps.opponent_character_short@ == char_names()[opp_char as int].0@
    &&& ps.opponent_rating_value == (if from_b {
        g.value_b
    } else {
        g.value_a
    })
    &&& ps.result_win == game_result_win(g, player_id)
}

/// The opponent's tags as the endpoint keeps them: pairs with an empty style
/// dropped, the rest in order.
pub open spec fn kept_tag_responses(tags: Seq<(String, String)>) -> Seq<TagResponse>
    decreases tags.len(),
{
    if tags.len() == 0 {
        Seq::empty()
    } else {
        let rest = kept_tag_responses(tags.drop_last());
        let last = tags.last();
        if last.1@.len() > 0 {
            rest.push(TagResponse { tag: last.0, style: last.1 })
        } else {
            rest
        }
    }
}

/// Whether the response's tag map is exactly right for the given games: an
/// opponent appears if and only if they played in one of the games, are not
/// the placeholder id 0, have tags on record, and keep at least one after
/// empty styles are dropped; their entry is those kept tags.
pub open spec fn tags_map_matches(
    m: Map<i64, Vec<TagResponse>>,
    games: Seq<Game>,
    player_tags: Map<i64, Vec<(String, String)>>,
    player_id: i64,
) -> bool {
    &&& forall|oid: i64| #[trigger] m.contains_key(oid) ==> {
        &&& oid != 0
        &&& player_tags.contains_key(oid)
        &&& m[oid]@ == kept_tag_responses(player_tags[oid]@)
        &&& m[oid]@.len() > 0
        &&& exists|i: int| 0 <= i < games.len() && opponent_id_of(#[trigger] games[i], player_id) == oid
    }
    &&& forall|i: int| 0 <= i < games.len() ==> {
        let oid = opponent_id_of(#[trigger] games[i], player_id);
        (oid != 0 && player_tags.contains_key(oid) && kept_tag_responses(player_tags[oid]@).len()
            > 0) ==> m.contains_key(oid)
    }
}

/// Whether every game names characters inside the roster.
pub open spec fn games_chars_valid(games: Seq<Game>) -> bool {
    forall|i: int| 0 <= i < games.len() ==> valid_char_id(#[trigger] games[i].char_a)
        && valid_char_id(games[i].char_b)
}

/// The opponent's kept tags, computed: empty styles dropped, order kept.
fn kept_tags(tags: &Vec<(String, String)>) -> (r: Vec<TagResponse>)
    ensures
        r@ == kept_tag_responses(tags@),
{
    let mut out: Vec<TagResponse> = Vec::new();
    let mut i: usize = 0;
    while i < tags.len()
        invariant
            i <= tags@.len(),
            out@ == kept_tag_responses(tags@.take(i as int)),
        decreases tags@.len() - i,
    {
        if !tags[i].1.as_str().is_empty() {
            out.push(TagResponse { tag: tags[i].0.clone(), style: tags[i].1.clone() });
        }
        i = i + 1;
        proof {
            assert(tags@.take(i as int).drop_last() =~= tags@.take(i - 1));
            assert(tags@.take(i as int).last() == tags@[i - 1]);
        }
    }
    proof {
        assert(tags@.take(tags@.len() as int) =~= tags@);
    }
    out
}

/// Whether an opponent earns an entry in the tag map: a real id, tags on
/// record, and at least one kept after empty styles are dropped.
pub open spec fn opponent_has_tags(
    opponent_id: i64,
    player_tags: Map<i64, Vec<(String, String)>>,
) -> bool {
    opponent_id != 0 && player_tags.contains_key(opponent_id) && kept_tag_responses(
        player_tags[opponent_id]@,
    ).len() > 0
}

/// Records one opponent's kept tags in the response map, touching no other
/// entry: the opponent's entry is written exactly when
/// [`opponent_has_tags`] holds.
fn record_opponent_tags(
    tags: &mut HashMap<i64, Vec<TagResponse>>,
    opponent_id: i64,
    player_tags: &HashMap<i64, Vec<(String, String)>>,
) -> (tracked_unit: ())
    ensures
        forall|k: i64| k != opponent_id ==> (#[trigger] final(tags)@.contains_key(k)
            <==> old(tags)@.contains_key(k)),
        forall|k: i64| #![trigger final(tags)@[k]] k != opponent_id && old(tags)@.contains_key(k)
            ==> final(tags)@[k] == old(tags)@[k],
        opponent_has_tags(opponent_id, player_tags@) ==> final(tags)@.contains_key(opponent_id)
            && final(tags)@[opponent_id]@ == kept_tag_responses(player_tags@[opponent_id]@),
        !opponent_has_tags(opponent_id, player_tags@) ==> (final(tags)@.contains_key(opponent_id)
            <==> old(tags)@.contains_key(opponent_id)) && (old(tags)@.contains_key(opponent_id)
            ==> final(tags)@[opponent_id] == old(tags)@[opponent_id]),
{
    if opponent_id != 0 {
        match player_tags.get(&opponent_id) {
            Some(raw_tags) => {
                let kept = kept_tags(raw_tags);
                if kept.len() > 0 {
                    tags.insert(opponent_id, kept);
                }
            },
            None => {},
        }
    }
}

/// Shapes one player's games for the history endpoint: one row per game in
/// order, reported from the requesting player's side, plus the tag map of
/// the opponents.
pub fn handle_get_player_history(
    player_id: i64,
    games: Vec<Game>,
    player_tags: HashMap<i64, Vec<(String, String)>>,
) -> (r: Result<PlayerGamesResponse, String>)
    requires
        games_chars_valid(games@),
    ensures
        (match r {
            Ok(resp) => {
                &&& resp.history@.len() == games@.len()
                &&& forall|i: int| 0 <= i < games@.len() ==> set_matches(
                    #[trigger] resp.history@[i],
                    games@[i],
                    player_id,
                )
                &&& tags_map_matches(resp.tags@, games@, player_tags@, player_id)
            },
            Err(_) => false,
        }),
{
    let ghost all_games = games@;
    let mut history: Vec<PlayerSet> = Vec::new();
    let mut tags: HashMap<i64, Vec<TagResponse>> = HashMap::new();
    let mut idx: usize = 0;
    let games_len: usize = games.len();
    while idx < games_len
        invariant
            idx <= all_games.len(),
            games_len == all_games.len(),
            games@ == all_games,
            games_chars_valid(all_games),
            history@.len() == idx,
            forall|i: int| 0 <= i < idx ==> set_matches(
                #[trigger] history@[i],
                all_games[i],
                player_id,
            ),
            tags_map_matches(tags@, all_games.take(idx as int), player_tags@, player_id),
        decreases games_len - idx,
    {
        let game = &games[idx];
        let from_b: bool = game.id_a == player_id;

        let own_rating_value: i64 = if from_b {
            game.value_a
        } else {
            game.value_b
        };
        let opponent_id: i64 = if from_b {
            game.id_b
        } else {
            game.id_a
        };
        let opponent_name: String = if from_b {
            game.name_b.clone()
        } else {
            game.name_a.clone()
        };
        let opponent_platform: i16 = if from_b {
            game.platform_b
        } else {
            game.platform_a
        };
        let opp_char: i16 = if from_b {
            game.char_b
        } else {
            game.char_a
        };
        let opponent_rating_value: i64 = if from_b {
            game.value_b
        } else {
            game.value_a
        };
        let timestamp: i64 = match game.real_timestamp {
            Some(t) => t,
            None => game.timestamp,
        };
        let result_win: bool = game.id_a == player_id && game.winner == 1 || game.id_b == player_id
            && game.winner == 2;

        proof {
            assert(all_games[idx as int] == games@[idx as int]);
            assert(valid_char_id(all_games[idx as int].char_a) && valid_char_id(
                all_games[idx as int].char_b,
            ));
        }
        let pair = char_name(opp_char as usize);
        history.push(
            PlayerSet {
                timestamp,
                own_rating_value,
                floor: game.game_floor,
                opponent_name,
                opponent_platform: platform_label(opponent_platform),
                opponent_id,
                opponent_character: pair.1,
                opponent_character_short: pair.0,
                opponent_rating_value,
                result_win,
            },
        );

        let ghost tags_before = tags@;
        record_opponent_tags(&mut tags, opponent_id, &player_tags);

        idx = idx + 1;
        proof {
            let newt = all_games.take(idx as int);
            assert(newt.drop_last() =~= all_games.take(idx - 1));
            assert(newt[idx - 1] == all_games[idx - 1]);
            assert forall|oid: i64| #[trigger] tags@.contains_key(oid) implies {
                &&& oid != 0
                &&& player_tags@.contains_key(oid)
                &&& tags@[oid]@ == kept_tag_responses(player_tags@[oid]@)
                &&& tags@[oid]@.len() > 0
                &&& exists|i: int| 0 <= i < newt.len() && opponent_id_of(
                    #[trigger] newt[i],
                    player_id,
                ) == oid
            } by {
                if oid == opponent_id && opponent_has_tags(opponent_id, player_tags@) {
                    assert(opponent_id_of(newt[idx - 1], player_id) == oid);
                } else {
                    assert(tags_before.contains_key(oid));
                    let w = choose|i: int|
                        0 <= i < newt.drop_last().len() && opponent_id_of(
                            #[trigger] newt.drop_last()[i],
                            player_id,
                        ) == oid;
                    assert(opponent_id_of(newt[w], player_id) == oid);
                }
            }
            assert forall|i: int| 0 <= i < newt.len() implies {
                let oid = opponent_id_of(#[trigger] newt[i], player_id);
                (oid != 0 && player_tags@.contains_key(oid) && kept_tag_responses(
                    player_tags@[oid]@,
                ).len() > 0) ==> tags@.contains_key(oid)
            } by {
                assert(newt[i] == all_games[i]);
                if i < idx - 1 {
                    assert(all_games.take(idx - 1)[i] == all_games[i]);
                }
            }
        }
    }
    proof {
        assert(all_games.take(all_games.len() as int) =~= all_games);
    }
    Ok(PlayerGamesResponse { history, tags })
}

} // verus!
