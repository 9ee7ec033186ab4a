//! Accounts linked to chat users, and the decisions of the link command.

use vstd::prelude::*;

use crate::mode::{mode_from_stored, stored_mode, GameMode};

verus! {

/// A chat user's linked player account and preferred mode.
#[derive(Clone, Copy, Debug, PartialEq, Eq, Structural)]
pub struct User {
    pub bancho_id: u32,
    pub mode: GameMode,
}

/// The linked account that a stored row describes: none without a player id;
/// standard where no mode is stored.
pub open spec fn linked_user_of(bancho_id: Option<u32>, mode: Option<Seq<char>>) -> Option<User> {
    match bancho_id {
        None => None,
        Some(id) => Some(
            User {
                bancho_id: id,
                mode: match mode {
                    Some(m) => stored_mode(m),
                    None => GameMode::Osu,
                },
            },
        ),
    }
}

/// Builds the linked account from the columns of a stored row.
pub fn linked_user(bancho_id: Option<u32>, mode: Option<&str>) -> (r: Option<User>)
    ensures
        r == linked_user_of(
            bancho_id,
            match mode {
                Some(m) => Some(m@),
                None => None,
            },
        ),
{
    match bancho_id {
        None => None,
        Some(id) => {
            let m = match mode {
                Some(name) => mode_from_stored(name),
                None => GameMode::Osu,
            };
            Some(User { bancho_id: id, mode: m })
        },
    }
}

/// The default mode of a request: the linked account's, else standard.
pub open spec fn preferred_mode(linked: Option<User>) -> GameMode {
    match linked {
        Some(u) => u.mode,
        None => GameMode::Osu,
    }
}

/// What the link command does.
#[derive(Clone, Copy, Debug, PartialEq, Eq, Structural)]
pub enum LinkOutcome {
    /// The chat user is linked already, to this player id; nothing changes.
    AlreadyLinked(u32),
    /// Store a link to this player id.
    Link(u32),
}

/// Decides the link command: a chat user who is linked stays as is.
pub fn link_decision(existing: Option<u32>, found: u32) -> (r: LinkOutcome)
    ensures
        r == (match existing {
            Some(d) => LinkOutcome::AlreadyLinked(d),
            None => LinkOutcome::Link(found),
        }),
{
    match existing {
        Some(d) => LinkOutcome::AlreadyLinked(d),
        None => LinkOutcome::Link(found),
    }
}

} // verus!
