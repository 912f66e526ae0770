//! Small decision pieces of the service: avatar pixel processing, the
//! health check, replay timestamp correction, tag grouping, and the claim
//! code alphabet.

use vstd::prelude::*;
use std::collections::HashMap;
use crate::sqrt::{isqrt_u64, lemma_sqrt_floor_below, lemma_sqrt_floor_squeeze, sqrt_floor};

verus! {

/// Avatar color curve: one channel brightened along a square-root curve,
/// with pure black and pure white left alone.
pub open spec fn process_channel_spec(value: u8) -> u8 {
    if value == 0 || value == 255 {
        value
    } else {
        sqrt_floor(256 * value) as u8
    }
}

/// Applies the avatar color curve to one channel.
pub fn process_channel(value: u8) -> (r: u8)
    ensures
        r == process_channel_spec(value),
{
    if value != 0 && value != 255 {
        proof {
            lemma_sqrt_floor_squeeze(256 * value as int);
            lemma_sqrt_floor_below(256 * value as int, 255);
        }
        isqrt_u64(256 * value as u64) as u8
    } else {
        value
    }
}

/// What the health endpoint reports.
#[derive(Clone, Copy, Debug, PartialEq, Eq, Structural)]
pub enum HealthStatus {
    /// No latest game time is on record at all.
    NoGameTime,
    /// The newest replay is older than the freshness window.
    StaleReplays,
    /// The daily update is running; replays will catch up.
    DailyUpdateRunning,
    /// Replays are flowing.
    Healthy,
}

/// Seconds without a new replay before the service counts as stale.
pub const REPLAY_FRESH_SECONDS: i64 = 120;

/// Seconds after which a missing daily update excuses stale data.
pub const DAILY_UPDATE_SECONDS: i64 = 86_400;

/// The health decision: no game time on record fails outright; a stale
/// newest replay fails; an overdue daily update explains itself; otherwise
/// all is well.
pub open spec fn health_status_spec(
    now: i64,
    latest_game_time: Option<i64>,
    last_update_daily: i64,
) -> HealthStatus {
    match latest_game_time {
        None => HealthStatus::NoGameTime,
        Some(t) => if now - REPLAY_FRESH_SECONDS > t {
            HealthStatus::StaleReplays
        } else if now - DAILY_UPDATE_SECONDS > last_update_daily {
            HealthStatus::DailyUpdateRunning
        } else {
            HealthStatus::Healthy
        },
    }
}

/// The health decision, computed from plain clock readings.
pub fn health_status(now: i64, latest_game_time: Option<i64>, last_update_daily: i64) -> (r:
    HealthStatus)
    ensures
        r == health_status_spec(now, latest_game_time, last_update_daily),
{
    match latest_game_time {
        None => HealthStatus::NoGameTime,
        Some(t) => {
            if (now as i128) - (REPLAY_FRESH_SECONDS as i128) > (t as i128) {
                HealthStatus::StaleReplays
            } else if (now as i128) - (DAILY_UPDATE_SECONDS as i128) > (last_update_daily as i128) {
                HealthStatus::DailyUpdateRunning
            } else {
                HealthStatus::Healthy
            }
        },
    }
}

/// The health endpoint's message for each status.
pub open spec fn health_message_spec(s: HealthStatus) -> Seq<char> {
    match s {
        HealthStatus::NoGameTime => "latest_game_time does not exist!"@,
        HealthStatus::StaleReplays => "No New (2m) Replays!"@,
        HealthStatus::DailyUpdateRunning =>
            "Daily Update Running. Replays are still being collected and will show up shortly."@,
        HealthStatus::Healthy => "OK"@,
    }
}

/// The health endpoint's message for each status, computed.
pub fn health_message(s: HealthStatus) -> (r: &'static str)
    ensures
        r@ == health_message_spec(s),
{
    match s {
        HealthStatus::NoGameTime => "latest_game_time does not exist!",
        HealthStatus::StaleReplays => "No New (2m) Replays!",
        HealthStatus::DailyUpdateRunning =>
            "Daily Update Running. Replays are still being collected and will show up shortly.",
        HealthStatus::Healthy => "OK",
    }
}

/// Replay timestamp correction: a reported time more than two seconds in the
/// future is replaced by the current time plus the running offset that keeps
/// replays ordered.
pub open spec fn fixed_timestamp_spec(game_ts: i64, now: i64, seconds_offset: i64) -> Option<i64> {
    if game_ts > now && game_ts > now + 2 {
        Some((now + seconds_offset) as i64)
    } else {
        None
    }
}

/// Decides whether a replay's reported time needs correcting, and to what.
pub fn fix_timestamp(game_ts: i64, now: i64, seconds_offset: i64) -> (r: Option<i64>)
    requires
        0 <= seconds_offset,
        now + seconds_offset <= i64::MAX,
    ensures
        r == fixed_timestamp_spec(game_ts, now, seconds_offset),
{
    if (game_ts as i128) > (now as i128) && (game_ts as i128) > (now as i128) + 2 {
        Some(now + seconds_offset)
    } else {
        None
    }
}

/// Seconds between hourly maintenance runs.
pub const HOURLY_SECONDS: i64 = 3_600;

/// Whether the hourly maintenance run is due: the last one finished more
/// than an hour before now.
pub open spec fn hourly_update_due_spec(last_update: i64, now: i64) -> bool {
    last_update < now - HOURLY_SECONDS
}

/// Decides whether the processing loop runs the hourly update this tick.
pub fn hourly_update_due(last_update: i64, now: i64) -> (r: bool)
    ensures
        r == hourly_update_due_spec(last_update, now),
{
    (last_update as i128) < (now as i128) - (HOURLY_SECONDS as i128)
}

/// Whether the daily maintenance run is due: the last one finished more than
/// a day before now.
pub open spec fn daily_update_due_spec(last_update: i64, now: i64) -> bool {
    last_update < now - DAILY_UPDATE_SECONDS
}

/// Decides whether the processing loop runs the daily update this tick.
pub fn daily_update_due(last_update: i64, now: i64) -> (r: bool)
    ensures
        r == daily_update_due_spec(last_update, now),
{
    (last_update as i128) < (now as i128) - (DAILY_UPDATE_SECONDS as i128)
}

/// The tags of one player among raw (player, tag, style) rows, in order.
pub open spec fn tags_of_player(rows: Seq<(i64, String, String)>, id: i64) -> Seq<(String, String)>
    decreases rows.len(),
{
    if rows.len() == 0 {
        Seq::empty()
    } else {
        let rest = tags_of_player(rows.drop_last(), id);
        let last = rows.last();
        if last.0 == id {
            rest.push((last.1, last.2))
        } else {
            rest
        }
    }
}

/// Whether any raw row belongs to the player.
pub open spec fn has_player(rows: Seq<(i64, String, String)>, id: i64) -> bool {
    exists|i: int| 0 <= i < rows.len() && (#[trigger] rows[i]).0 == id
}

/// A player with no row has no tags among the rows.
proof fn lemma_tags_of_absent(rows: Seq<(i64, String, String)>, id: i64)
    requires
        !has_player(rows, id),
    ensures
        tags_of_player(rows, id) == Seq::<(String, String)>::empty(),
    decreases rows.len(),
{
    if rows.len() > 0 {
        assert forall|j: int| 0 <= j < rows.drop_last().len() implies (#[trigger] rows.drop_last()[
            j
        ]).0 != id by {
            assert(rows.drop_last()[j] == rows[j]);
        }
        lemma_tags_of_absent(rows.drop_last(), id);
    }
}

/// Groups raw (player, tag, style) rows by player: a player has an entry if
/// and only if they have a row, and the entry is their rows' tags in order.
pub fn group_tags(rows: Vec<(i64, String, String)>) -> (m: HashMap<i64, Vec<(String, String)>>)
    ensures
        forall|id: i64| #[trigger] m@.contains_key(id) <==> has_player(rows@, id),
        forall|id: i64| #[trigger] m@.contains_key(id) ==> m@[id]@ == tags_of_player(rows@, id),
{
    let ghost all_rows = rows@;
    let mut m: HashMap<i64, Vec<(String, String)>> = HashMap::new();
    let mut i: usize = 0;
    let n: usize = rows.len();
    while i < n
        invariant
            i <= all_rows.len(),
            n == all_rows.len(),
            rows@ == all_rows,
            forall|id: i64| #[trigger] m@.contains_key(id) <==> has_player(
                all_rows.take(i as int),
                id,
            ),
            forall|id: i64| #[trigger] m@.contains_key(id) ==> m@[id]@ == tags_of_player(
                all_rows.take(i as int),
                id,
            ),
        decreases n - i,
    {
        let key: i64 = rows[i].0;
        let mut entry: Vec<(String, String)> = match m.remove(&key) {
            Some(v) => v,
            None => Vec::new(),
        };
        proof {
            if !has_player(all_rows.take(i as int), key) {
                lemma_tags_of_absent(all_rows.take(i as int), key);
            }
        }
        entry.push((rows[i].1.clone(), rows[i].2.clone()));
        m.insert(key, entry);
        i = i + 1;
        proof {
            let newt = all_rows.take(i as int);
            assert(newt.drop_last() =~= all_rows.take(i - 1));
            assert(newt[i - 1] == all_rows[i - 1]);
            assert forall|id: i64| #[trigger] m@.contains_key(id) implies has_player(newt, id) by {
                if id == key {
                    assert(newt[i - 1].0 == id);
                } else {
                    let w = choose|j: int|
                        0 <= j < newt.drop_last().len() && (#[trigger] newt.drop_last()[j]).0 == id;
                    assert(newt[w].0 == id);
                }
            }
            assert forall|id: i64| has_player(newt, id) implies m@.contains_key(id) by {
                if id != key {
                    let w = choose|j: int| 0 <= j < newt.len() && (#[trigger] newt[j]).0 == id;
                    assert(w < i - 1);
                    assert(newt.drop_last()[w].0 == id);
                }
            }
            assert forall|id: i64| #[trigger] m@.contains_key(id) implies m@[id]@ == tags_of_player(
                newt,
                id,
            ) by {
                if id != key {
                    assert(tags_of_player(newt, id) == tags_of_player(newt.drop_last(), id));
                }
            }
        }
    }
    proof {
        assert(all_rows.take(all_rows.len() as int) =~= all_rows);
    }
    m
}

/// The alphabet claim codes are drawn from: letters and digits that cannot
/// be misread for one another.
pub open spec fn code_charset() -> Seq<char> {
    "ABCDEFGHJKLMNOPQRSTUVWXYZabcdefghijkmnopqrstuvwxyz0123456789"@
}

/// Length of a claim code.
pub const CODE_LENGTH: usize = 8;

/// Number of characters in the claim code alphabet.
pub const CODE_CHARSET_LEN: usize = 60;

/// The claim code character at one position of the alphabet: a caller draws
/// random positions and strings the characters together.
pub fn code_char(i: usize) -> (c: char)
    requires
        i < CODE_CHARSET_LEN,
    ensures
        c == code_charset()[i as int],
{
    let charset = "ABCDEFGHJKLMNOPQRSTUVWXYZabcdefghijkmnopqrstuvwxyz0123456789";
    proof {
        reveal_strlit("ABCDEFGHJKLMNOPQRSTUVWXYZabcdefghijkmnopqrstuvwxyz0123456789");
    }
    charset.get_char(i)
}

} // verus!
