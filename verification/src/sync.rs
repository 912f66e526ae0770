//! Pulling ratings out of a player's stats document.
//!
//! The game hands back one JSON object per player whose integer fields
//! `<CODE>_MasterRatingPt` and `<CODE>_RankMatchRatingPt` carry that
//! character's ratings. Master rating wins when positive (lifted above every
//! rank-match rating); otherwise a positive rank-match rating is taken as it
//! is. The JSON itself is read through serde_json behind trusted
//! declarations; everything after the two field lookups is verified.

use vstd::prelude::*;
use crate::chars::{char_name, char_names, str_eq, CHAR_COUNT};

verus! {

/// JSON document handle of the serde_json crate, declared so values can flow
/// through verified code.
#[verifier::external_type_specification]
#[verifier::external_body]
pub struct ExValue(serde_json::Value);

/// Parse error of the serde_json crate, declared so the parse result can be
/// matched on.
#[verifier::external_type_specification]
#[verifier::external_body]
pub struct ExJsonError(serde_json::Error);

/// Whether serde_json accepts a text as JSON: a function of the text alone.
pub uninterp spec fn json_ok(s: Seq<char>) -> bool;

/// The integer fields of a parsed JSON document's top-level object: what
/// `Value::get` followed by `Value::as_i64` can reach.
pub uninterp spec fn json_i64_fields(v: serde_json::Value) -> Map<Seq<char>, i64>;

/// The integer fields a JSON text parses to: a function of the text alone.
pub uninterp spec fn json_i64_fields_of(s: Seq<char>) -> Map<Seq<char>, i64>;

/// Relies on serde_json::from_str::<Value>: whether a text parses, and what
/// its fields are, depend on the text alone.
#[verifier::external_body]
fn parse_json(s: &str) -> (r: Result<serde_json::Value, serde_json::Error>)
    ensures
        r is Ok <==> json_ok(s@),
        r is Ok ==> json_i64_fields(r->Ok_0) == json_i64_fields_of(s@),
{
    serde_json::from_str(s)
}

/// Relies on serde_json::Value::get and Value::as_i64: the named top-level
/// field as an integer, or nothing when it is missing or not an integer.
#[verifier::external_body]
fn json_i64_field(v: &serde_json::Value, key: &str) -> (r: Option<i64>)
    ensures
        r == (if json_i64_fields(*v).contains_key(key@) {
            Some(json_i64_fields(*v)[key@])
        } else {
            None::<i64>
        }),
{
    match v.get(key) {
        Some(field) => field.as_i64(),
        None => None,
    }
}

/// The stats document's code for a character: most short codes are spelled
/// out to three letters; unknown codes pass through unchanged.
pub open spec fn json_char_code_spec(code: Seq<char>) -> Seq<char> {
    if code == "SO"@ {
        "SOL"@
    } else if code == "KY"@ {
        "KYK"@
    } else if code == "MA"@ {
        "MAY"@
    } else if code == "AX"@ {
        "AXL"@
    } else if code == "CH"@ {
        "CHP"@
    } else if code == "PO"@ {
        "POT"@
    } else if code == "FA"@ {
        "FAU"@
    } else if code == "MI"@ {
        "MLL"@
    } else if code == "ZA"@ {
        "ZAT"@
    } else if code == "RA"@ {
        "RAM"@
    } else if code == "LE"@ {
        "LEO"@
    } else if code == "NA"@ {
        "NAG"@
    } else if code == "GI"@ {
        "GIO"@
    } else if code == "AN"@ {
        "ANJ"@
    } else if code == "IN"@ {
        "INO"@
    } else if code == "GO"@ {
        "GLD"@
    } else if code == "JC"@ {
        "JKO"@
    } else if code == "HA"@ {
        "COS"@
    } else if code == "BA"@ {
        "BKN"@
    } else if code == "TE"@ {
        "TST"@
    } else if code == "BI"@ {
        "BGT"@
    } else if code == "SI"@ {
        "SIN"@
    } else if code == "BE"@ {
        "BED"@
    } else if code == "AS"@ {
        "ASK"@
    } else if code == "JN"@ {
        "JHN"@
    } else if code == "EL"@ {
        "ELP"@
    } else if code == "AB"@ {
        "ABA"@
    } else if code == "SL"@ {
        "SLY"@
    } else if code == "DI"@ {
        "DZY"@
    } else if code == "VE"@ {
        "VEN"@
    } else if code == "UN"@ {
        "UNI"@
    } else if code == "LU"@ {
        "LUC"@
    } else {
        code
    }
}

/// The stats document's code for a character, computed.
pub fn get_json_char_code(char_code: &str) -> (r: String)
    ensures
        r@ == json_char_code_spec(char_code@),
{
    if str_eq(char_code, "SO") {
        String::from_str("SOL")
    } else if str_eq(char_code, "KY") {
        String::from_str("KYK")
    } else if str_eq(char_code, "MA") {
        String::from_str("MAY")
    } else if str_eq(char_code, "AX") {
        String::from_str("AXL")
    } else if str_eq(char_code, "CH") {
        String::from_str("CHP")
    } else if str_eq(char_code, "PO") {
        String::from_str("POT")
    } else if str_eq(char_code, "FA") {
        String::from_str("FAU")
    } else if str_eq(char_code, "MI") {
        String::from_str("MLL")
    } else if str_eq(char_code, "ZA") {
        String::from_str("ZAT")
    } else if str_eq(char_code, "RA") {
        String::from_str("RAM")
    } else if str_eq(char_code, "LE") {
        String::from_str("LEO")
    } else if str_eq(char_code, "NA") {
        String::from_str("NAG")
    } else if str_eq(char_code, "GI") {
        String::from_str("GIO")
    } else if str_eq(char_code, "AN") {
        String::from_str("ANJ")
    } else if str_eq(char_code, "IN") {
        String::from_str("INO")
    } else if str_eq(char_code, "GO") {
        String::from_str("GLD")
    } else if str_eq(char_code, "JC") {
        String::from_str("JKO")
    } else if str_eq(char_code, "HA") {
        String::from_str("COS")
    } else if str_eq(char_code, "BA") {
        String::from_str("BKN")
    } else if str_eq(char_code, "TE") {
        String::from_str("TST")
    } else if str_eq(char_code, "BI") {
        String::from_str("BGT")
    } else if str_eq(char_code, "SI") {
        String::from_str("SIN")
    } else if str_eq(char_code, "BE") {
        String::from_str("BED")
    } else if str_eq(char_code, "AS") {
        String::from_str("ASK")
    } else if str_eq(char_code, "JN") {
        String::from_str("JHN")
    } else if str_eq(char_code, "EL") {
        String::from_str("ELP")
    } else if str_eq(char_code, "AB") {
        String::from_str("ABA")
    } else if str_eq(char_code, "SL") {
        String::from_str("SLY")
    } else if str_eq(char_code, "DI") {
        String::from_str("DZY")
    } else if str_eq(char_code, "VE") {
        String::from_str("VEN")
    } else if str_eq(char_code, "UN") {
        String::from_str("UNI")
    } else if str_eq(char_code, "LU") {
        String::from_str("LUC")
    } else {
        String::from_str(char_code)
    }
}

/// A positive rank-match rating taken as it is; anything else is no rating.
pub open spec fn positive_rank_rating(rank: Option<i64>) -> Option<i64> {
    match rank {
        Some(r) => if r > 0 {
            Some(r)
        } else {
            None
        },
        None => None,
    }
}

/// Which rating a stats document yields for one character: a positive master
/// rating, lifted by ten million above every rank-match rating, wins;
/// otherwise a positive rank-match rating counts; a master rating too large
/// to lift is dropped rather than wrapped.
pub open spec fn selected_rating(master: Option<i64>, rank: Option<i64>) -> Option<i64> {
    match master {
        Some(m) => if 0 < m && m <= i64::MAX - 10_000_000 {
            Some((m + 10_000_000) as i64)
        } else if m > 0 {
            None
        } else {
            positive_rank_rating(rank)
        },
        None => positive_rank_rating(rank),
    }
}

/// Picks one character's rating from its two stats fields.
pub fn select_rating(master: Option<i64>, rank: Option<i64>) -> (r: Option<i64>)
    ensures
        r == selected_rating(master, rank),
{
    let fallback = match rank {
        Some(v) => if v > 0 {
            Some(v)
        } else {
            None
        },
        None => None,
    };
    match master {
        Some(m) => {
            if 0 < m && m <= i64::MAX - 10_000_000 {
                Some(m + 10_000_000)
            } else if m > 0 {
                None
            } else {
                fallback
            }
        },
        None => fallback,
    }
}

/// The master rating field's key for a character code.
pub open spec fn master_key_spec(code: Seq<char>) -> Seq<char> {
    json_char_code_spec(code) + "_MasterRatingPt"@
}

/// The rank-match rating field's key for a character code.
pub open spec fn rank_key_spec(code: Seq<char>) -> Seq<char> {
    json_char_code_spec(code) + "_RankMatchRatingPt"@
}

/// A field of the document, if it is there.
pub open spec fn field_lookup(fields: Map<Seq<char>, i64>, key: Seq<char>) -> Option<i64> {
    if fields.contains_key(key) {
        Some(fields[key])
    } else {
        None
    }
}

/// The rating a stats document yields for the character with this id.
pub open spec fn char_rating_spec(fields: Map<Seq<char>, i64>, c: int) -> Option<i64> {
    let code = char_names()[c].0@;
    selected_rating(
        field_lookup(fields, master_key_spec(code)),
        field_lookup(fields, rank_key_spec(code)),
    )
}

/// All rating updates a stats document yields, in character id order, for
/// the first `n` characters.
pub open spec fn rating_updates_spec(fields: Map<Seq<char>, i64>, n: int) -> Seq<(i16, i64)>
    decreases n,
{
    if n <= 0 {
        Seq::empty()
    } else {
        let rest = rating_updates_spec(fields, n - 1);
        match char_rating_spec(fields, n - 1) {
            Some(v) => rest.push(((n - 1) as i16, v)),
            None => rest,
        }
    }
}

/// Why a stats document was rejected.
#[derive(Clone, Copy, Debug, PartialEq, Eq, Structural)]
pub enum StatsError {
    /// The text is not JSON.
    InvalidJson,
}

/// Reads a player's stats document and yields every character's rating
/// update, in character id order: exactly the characters for which
/// [`char_rating_spec`] finds a rating, rejecting exactly the texts that do
/// not parse.
pub fn parse_player_stats(json_data: &str) -> (r: Result<Vec<(i16, i64)>, StatsError>)
    ensures
        r is Ok <==> json_ok(json_data@),
        (match r {
            Ok(updates) => updates@ == rating_updates_spec(
                json_i64_fields_of(json_data@),
                CHAR_COUNT as int,
            ),
            Err(e) => e == StatsError::InvalidJson,
        }),
{
    let parsed: serde_json::Value = match parse_json(json_data) {
        Ok(v) => v,
        Err(_) => {
            return Err(StatsError::InvalidJson);
        },
    };
    let ghost fields = json_i64_fields_of(json_data@);

    let mut updates: Vec<(i16, i64)> = Vec::new();
    let mut c: usize = 0;
    while c < CHAR_COUNT
        invariant
            c <= CHAR_COUNT,
            json_i64_fields(parsed) == fields,
            updates@ == rating_updates_spec(fields, c as int),
        decreases CHAR_COUNT - c,
    {
        let code = char_name(c).0;
        let json_code = get_json_char_code(code);
        let master_key = json_code.clone().concat("_MasterRatingPt");
        let rank_key = json_code.concat("_RankMatchRatingPt");
        let master = json_i64_field(&parsed, master_key.as_str());
        let rank = json_i64_field(&parsed, rank_key.as_str());
        match select_rating(master, rank) {
            Some(value) => {
                updates.push((c as i16, value));
            },
            None => {},
        }
        c = c + 1;
    }
    Ok(updates)
}

} // verus!
