use vstd::prelude::*;
use vstd::utf8::{decode_utf8, valid_utf8};

use crate::color::{code_of, Color};

verus! {

/// What the replacement routine did with one intercepted call.
#[derive(Debug, Clone, Copy, PartialEq, Eq, Structural)]
pub enum Outcome {
    /// The subject's name is not well-formed UTF-8.
    BadName,
    /// No player is controlled locally at the moment.
    NoLocalPlayer,
    /// The call concerns some other player.
    OtherPlayer,
    /// The setting is the sentinel: nothing is written.
    NoOverride,
    /// This code was written into the output record.
    Recolored(i8),
}

/// The local player's name as text, if there is a local player.
pub open spec fn local_view(local: Option<&str>) -> Option<Seq<char>> {
    match local {
        Some(s) => Some(s@),
        None => None,
    }
}

/// The decision for a call whose subject has the name bytes `name`, while
/// `local` is the local player's name and `setting` the configured colour.
pub open spec fn outcome_of(name: Seq<u8>, local: Option<Seq<char>>, setting: Color) -> Outcome {
    if !valid_utf8(name) {
        Outcome::BadName
    } else {
        match local {
            None => Outcome::NoLocalPlayer,
            Some(l) => if decode_utf8(name) != l {
                Outcome::OtherPlayer
            } else if setting == Color::Default {
                Outcome::NoOverride
            } else {
                Outcome::Recolored(code_of(setting) as i8)
            },
        }
    }
}

/// The colour byte of the output record after an outcome, given its value
/// as the original routine left it.
pub open spec fn byte_after(o: Outcome, before: i8) -> i8 {
    match o {
        Outcome::Recolored(b) => b,
        _ => before,
    }
}

/// Relies on `std::str::from_utf8`: it accepts exactly the well-formed
/// UTF-8 sequences, and returns the text that they encode.
#[verifier::external_body]
fn decode_text(b: &[u8]) -> (r: Option<&str>)
    ensures
        r.is_some() == valid_utf8(b@),
        r matches Some(s) ==> s@ == decode_utf8(b@),
{
    std::str::from_utf8(b).ok()
}

/// Whether two texts are equal.
pub fn same_text(a: &str, b: &str) -> (r: bool)
    ensures
        r == (a@ == b@),
{
    let n = a.unicode_len();
    if n != b.unicode_len() {
        return false;
    }
    let mut i: usize = 0;
    while i < n
        invariant
            n == a@.len(),
            n == b@.len(),
            i <= n,
            forall|j: int| 0 <= j < i ==> a@[j] == b@[j],
        decreases n - i,
    {
        if a.get_char(i) != b.get_char(i) {
            return false;
        }
        i = i + 1;
    }
    assert(a@ =~= b@);
    true
}

/// Decides what to do with the output record of a call whose subject has
/// the name bytes `name` (without the terminating zero).
pub fn decide(name: &[u8], local: Option<&str>, setting: Color) -> (r: Outcome)
    ensures
        r == outcome_of(name@, local_view(local), setting),
{
    let text = match decode_text(name) {
        Some(t) => t,
        None => return Outcome::BadName,
    };
    let own = match local {
        Some(l) => l,
        None => return Outcome::NoLocalPlayer,
    };
    if !same_text(text, own) {
        return Outcome::OtherPlayer;
    }
    if setting.is_default() {
        return Outcome::NoOverride;
    }
    Outcome::Recolored(setting.code())
}

/// Carries out an outcome on the colour byte of the output record.
pub fn apply(o: Outcome, out: &mut i8)
    ensures
        *final(out) == byte_after(o, *old(out)),
{
    if let Outcome::Recolored(b) = o {
        *out = b;
    }
}

/// The work of the replacement routine once the original routine has
/// returned `original` and filled `out`: it returns `original` unchanged
/// and writes the configured code into `out` only for the local player.
pub fn intercept(original: i64, name: &[u8], local: Option<&str>, setting: Color, out: &mut i8) -> (r: (i64, Outcome))
    ensures
        r.0 == original,
        r.1 == outcome_of(name@, local_view(local), setting),
        *final(out) == byte_after(r.1, *old(out)),
{
    let o = decide(name, local, setting);
    apply(o, out);
    (original, o)
}

/// When the subject is the local player and the setting is a real colour,
/// the colour byte ends up holding that colour's code.
pub proof fn lemma_local_player_recolored(name: Seq<u8>, setting: Color, before: i8)
    requires
        valid_utf8(name),
        setting != Color::Default,
    ensures
        byte_after(outcome_of(name, Some(decode_utf8(name)), setting), before) == code_of(setting),
{
}

/// When the subject's name is not the local player's, the colour byte is
/// left as the original routine wrote it.
pub proof fn lemma_other_player_untouched(name: Seq<u8>, local: Seq<char>, setting: Color, before: i8)
    requires
        valid_utf8(name),
        decode_utf8(name) != local,
    ensures
        byte_after(outcome_of(name, Some(local), setting), before) == before,
{
}

/// Under the sentinel setting the colour byte is never changed, whoever the
/// subject is.
pub proof fn lemma_sentinel_untouched(name: Seq<u8>, local: Option<Seq<char>>, before: i8)
    ensures
        byte_after(outcome_of(name, local, Color::Default), before) == before,
{
}

/// A subject name that is not well-formed UTF-8 is reported as such and
/// leaves the colour byte unchanged.
pub proof fn lemma_bad_name_passes_through(name: Seq<u8>, local: Option<Seq<char>>, setting: Color, before: i8)
    requires
        !valid_utf8(name),
    ensures
        outcome_of(name, local, setting) == Outcome::BadName,
        byte_after(outcome_of(name, local, setting), before) == before,
{
}

} // verus!
