//! The character roster: a short code and a display name per character id.

use vstd::prelude::*;

verus! {

/// Number of playable characters.
pub const CHAR_COUNT: usize = 29;

/// Short code and display name of every character, indexed by character id.
pub const CHAR_NAMES: [(&'static str, &'static str); 29] = [
    ("SO", "Sol"),
    ("KY", "Ky"),
    ("MA", "May"),
    ("AX", "Axl"),
    ("CH", "Chipp"),
    ("PO", "Potemkin"),
    ("FA", "Faust"),
    ("MI", "Millia"),
    ("ZA", "Zato-1"),
    ("RA", "Ramlethal"),
    ("LE", "Leo"),
    ("NA", "Nagoriyuki"),
    ("GI", "Giovanna"),
    ("AN", "Anji"),
    ("IN", "I-No"),
    ("GO", "Goldlewis"),
    ("JC", "Jack-O'"),
    ("HA", "Happy Chaos"),
    ("BA", "Baiken"),
    ("TE", "Testament"),
    ("BI", "Bridget"),
    ("SI", "Sin"),
    ("BE", "Bedman?"),
    ("AS", "Asuka"),
    ("JN", "Johnny"),
    ("EL", "Elphelt"),
    ("AB", "A.B.A."),
    ("SL", "Slayer"),
    ("DI", "Dizzy"),
];

/// The roster as a sequence, for contracts.
pub open spec fn char_names() -> Seq<(&'static str, &'static str)> {
    CHAR_NAMES@
}

/// Whether a character id indexes the roster.
pub open spec fn valid_char_id(id: i16) -> bool {
    0 <= id < CHAR_COUNT
}

/// The (short code, display name) pair of a character.
pub fn char_name(id: usize) -> (r: (&'static str, &'static str))
    requires
        id < CHAR_COUNT,
    ensures
        r == char_names()[id as int],
{
    CHAR_NAMES[id]
}

/// Whether two string slices hold the same characters.
pub fn str_eq(a: &str, b: &str) -> (r: bool)
    ensures
        r == (a@ == b@),
{
    let sa = String::from_str(a);
    let sb = String::from_str(b);
    sa == sb
}

/// The character id whose short code is `code`, if any: the id under which
/// leaderboard and history endpoints know the character.
pub fn char_position(code: &str) -> (r: Option<usize>)
    ensures
        (match r {
            Some(i) => i < CHAR_COUNT && char_names()[i as int].0@ == code@ && (forall|j: int|
                0 <= j < i ==> char_names()[j].0@ != code@),
            None => forall|j: int| 0 <= j < CHAR_COUNT ==> char_names()[j].0@ != code@,
        }),
{
    let mut i: usize = 0;
    while i < CHAR_COUNT
        invariant
            i <= CHAR_COUNT,
            forall|j: int| 0 <= j < i ==> char_names()[j].0@ != code@,
        decreases CHAR_COUNT - i,
    {
        if str_eq(CHAR_NAMES[i].0, code) {
            return Some(i);
        }
        i = i + 1;
    }
    None
}

} // verus!
