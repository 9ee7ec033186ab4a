//! The four rulesets and the names by which users and the link store give them.

use vstd::prelude::*;

use crate::text::str_eq;

verus! {

/// A ruleset: osu!standard, osu!taiko, osu!catch or osu!mania.
#[derive(Clone, Copy, Debug, PartialEq, Eq, Structural)]
pub enum GameMode {
    Osu,
    Taiko,
    Catch,
    Mania,
}

/// The mode that a stored mode name stands for; unknown names mean standard.
pub open spec fn stored_mode(name: Seq<char>) -> GameMode {
    if name == "mania"@ {
        GameMode::Mania
    } else if name == "taiko"@ {
        GameMode::Taiko
    } else if name == "ctb"@ {
        GameMode::Catch
    } else {
        GameMode::Osu
    }
}

/// Reads the mode name kept beside a linked account.
pub fn mode_from_stored(name: &str) -> (r: GameMode)
    ensures
        r == stored_mode(name@),
{
    if str_eq(name, "mania") {
        GameMode::Mania
    } else if str_eq(name, "taiko") {
        GameMode::Taiko
    } else if str_eq(name, "ctb") {
        GameMode::Catch
    } else {
        GameMode::Osu
    }
}

} // verus!
