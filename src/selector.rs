//! From a command and its arguments to the player, mode and play or page
//! that a request is about.

use vstd::prelude::*;

use crate::args::{flag_value, flags_of, get_flags, get_username, last_value, non_flags, username_of};
use crate::error::PipelineError;
use crate::link::{preferred_mode, User};
use crate::mode::GameMode;
use crate::text::{
    class_run, digits_value, ends_with, find_run_end, has_prefix, has_suffix, lemma_digit_run,
    parse_digits, parse_usize, parsed_usize, starts_with, str_eq,
};

verus! {

// ---------------------------------------------------------------- command tokens

/// A command word split into its name and the number written into it.
pub struct CommandToken {
    pub name: String,
    pub suffix: Option<usize>,
}

/// Where the leading letters of a command word end.
pub open spec fn letters_end(s: Seq<char>) -> int {
    class_run(s, 0, false)
}

/// Where the digits after the leading letters end.
pub open spec fn digits_end(s: Seq<char>) -> int {
    class_run(s, letters_end(s), true)
}

/// Whether `s` is letters, then digits, then letters, with at least one
/// leading letter.
pub open spec fn is_command_word(s: Seq<char>) -> bool {
    letters_end(s) >= 1 && class_run(s, digits_end(s), false) == s.len()
}

/// The name of a command word: its letters, without the digits.
pub open spec fn command_name(s: Seq<char>) -> Seq<char> {
    s.subrange(0, letters_end(s)) + s.subrange(digits_end(s), s.len() as int)
}

/// The number written into a command word, if any.
pub open spec fn command_number(s: Seq<char>) -> Option<nat> {
    if digits_end(s) > letters_end(s) {
        Some(digits_value(s.subrange(letters_end(s), digits_end(s))))
    } else {
        None
    }
}

/// Splits a command word such as `topmania5` or `recent3mania` into its name
/// and number; `None` where it is not a command word or the number does not fit.
pub fn split_command(token: &str) -> (r: Option<CommandToken>)
    ensures
        r.is_some() == (is_command_word(token@) && match command_number(token@) {
            Some(v) => v <= usize::MAX,
            None => true,
        }),
        r.is_some() ==> r.unwrap().name@ == command_name(token@) && r.unwrap().suffix == match
            command_number(token@) {
            Some(v) => Some(v as usize),
            None => None,
        },
{
    let n = token.unicode_len();
    let a = find_run_end(token, 0, false);
    if a == 0 {
        return None;
    }
    let b = find_run_end(token, a, true);
    let c = find_run_end(token, b, false);
    if c != n {
        return None;
    }
    proof {
        lemma_digit_run(token@, a as int);
    }
    let suffix = if b > a {
        match parse_digits(token, a, b) {
            Some(v) => Some(v),
            None => {
                return None;
            },
        }
    } else {
        None
    };
    let name = String::from_str(token.substring_char(0, a)).concat(token.substring_char(b, n));
    Some(CommandToken { name, suffix })
}

/// The 0-based index that a 1-based number stands for; `0` stays `0`.
pub open spec fn index_of_number(d: usize) -> usize {
    if d == 0 {
        0
    } else {
        (d - 1) as usize
    }
}

// ---------------------------------------------------------------- commands

/// The commands of the bot.
#[derive(Clone, Copy, Debug, PartialEq, Eq, Structural)]
pub enum CommandKind {
    Ping,
    Link,
    Profile,
    Recent,
    Top,
}

/// The names under which the profile command is known; each also names a mode.
pub open spec fn is_profile_name(n: Seq<char>) -> bool {
    n == "profile"@ || n == "osu"@ || n == "o"@ || n == "taiko"@ || n == "t"@ || n == "mania"@
        || n == "m"@ || n == "ctb"@ || n == "catch"@ || n == "fruits"@
}

/// Whether `n` names the recent-plays command.
pub open spec fn is_recent_name(n: Seq<char>) -> bool {
    has_prefix(n, "recent"@) || n == "r"@ || n == "rs"@ || n == "rp"@ || n == "rm"@ || n == "rt"@
        || n == "rc"@
}

/// Whether `n` names the best-plays command.
pub open spec fn is_top_name(n: Seq<char>) -> bool {
    has_prefix(n, "top"@) || n == "tm"@ || n == "tt"@ || n == "tc"@
}

/// The command that a name stands for.
pub open spec fn command_of(n: Seq<char>) -> Option<CommandKind> {
    if n == "ping"@ {
        Some(CommandKind::Ping)
    } else if n == "link"@ {
        Some(CommandKind::Link)
    } else if is_profile_name(n) {
        Some(CommandKind::Profile)
    } else if is_recent_name(n) {
        Some(CommandKind::Recent)
    } else if is_top_name(n) {
        Some(CommandKind::Top)
    } else {
        None
    }
}

/// Looks up the command that a name stands for.
pub fn command_kind(name: &str) -> (r: Option<CommandKind>)
    ensures
        r == command_of(name@),
{
    if str_eq(name, "ping") {
        Some(CommandKind::Ping)
    } else if str_eq(name, "link") {
        Some(CommandKind::Link)
    } else if str_eq(name, "profile") || str_eq(name, "osu") || str_eq(name, "o") || str_eq(
        name,
        "taiko",
    ) || str_eq(name, "t") || str_eq(name, "mania") || str_eq(name, "m") || str_eq(name, "ctb")
        || str_eq(name, "catch") || str_eq(name, "fruits") {
        Some(CommandKind::Profile)
    } else if starts_with(name, "recent") || str_eq(name, "r") || str_eq(name, "rs") || str_eq(
        name,
        "rp",
    ) || str_eq(name, "rm") || str_eq(name, "rt") || str_eq(name, "rc") {
        Some(CommandKind::Recent)
    } else if starts_with(name, "top") || str_eq(name, "tm") || str_eq(name, "tt") || str_eq(
        name,
        "tc",
    ) {
        Some(CommandKind::Top)
    } else {
        None
    }
}

// ---------------------------------------------------------------- requests

/// Which play, or which page of plays, a request is about.
#[derive(Clone, Copy, Debug, PartialEq, Eq, Structural)]
pub enum Selector {
    /// One play, by its 0-based position in the list.
    SingleIndex(usize),
    /// One page of the list, 0-based.
    Page(usize),
}

/// The player that a request names.
pub enum PlayerRef {
    /// A player name given in the arguments.
    Name(String),
    /// The player id of the requester's linked account.
    Id(u32),
}

/// The list of scores that a request reads.
#[derive(Clone, Copy, Debug, PartialEq, Eq, Structural)]
pub enum ScoreList {
    /// The latest plays; failed ones only where `include_fails` holds.
    Recent { include_fails: bool },
    /// The best plays.
    Best,
}

/// What a score request resolved to.
pub struct ScoreRequest {
    pub player: PlayerRef,
    pub mode: GameMode,
    pub list: ScoreList,
    pub selector: Selector,
}

/// The mode of a recent-plays command name.
pub open spec fn recent_mode(n: Seq<char>, linked: Option<User>) -> GameMode {
    if has_prefix(n, "recentmania"@) || has_prefix(n, "rm"@) {
        GameMode::Mania
    } else if has_prefix(n, "recenttaiko"@) || has_prefix(n, "rt"@) {
        GameMode::Taiko
    } else if has_prefix(n, "recentcatch"@) || has_prefix(n, "rc"@) {
        GameMode::Catch
    } else {
        preferred_mode(linked)
    }
}

/// The mode of a best-plays command name.
pub open spec fn top_mode(n: Seq<char>, linked: Option<User>) -> GameMode {
    if n == "topmania"@ || n == "topm"@ || n == "tm"@ {
        GameMode::Mania
    } else if n == "toptaiko"@ || n == "topt"@ || n == "tt"@ {
        GameMode::Taiko
    } else if n == "topcatch"@ || n == "topc"@ || n == "tc"@ {
        GameMode::Catch
    } else {
        preferred_mode(linked)
    }
}

/// Whether a recent-plays command shows failed plays too: not where its name
/// ends in `pass` or `p`.
pub open spec fn includes_fails(n: Seq<char>) -> bool {
    !(has_suffix(n, "pass"@) || has_suffix(n, "p"@))
}

/// The `index=` flag, where it holds a number.
pub open spec fn flag_index(flags: Seq<(Seq<char>, Seq<char>)>) -> Option<usize> {
    match last_value(flags, "index"@) {
        Some(v) => parsed_usize(v),
        None => None,
    }
}

/// The `page=` flag, where it holds a number, else the first page.
pub open spec fn flag_page(flags: Seq<(Seq<char>, Seq<char>)>) -> usize {
    match last_value(flags, "page"@) {
        Some(v) => match parsed_usize(v) {
            Some(p) => p,
            None => 0,
        },
        None => 0,
    }
}

/// The selector of a best-plays request: the number in the command word comes
/// first, then an `index=` flag, then the `page=` flag.
pub open spec fn top_selector(suffix: Option<usize>, flags: Seq<(Seq<char>, Seq<char>)>) -> Selector {
    match suffix {
        Some(d) => Selector::SingleIndex(index_of_number(d)),
        None => match flag_index(flags) {
            Some(i) => Selector::SingleIndex(i),
            None => Selector::Page(flag_page(flags)),
        },
    }
}

/// The selector of a recent-plays request: always one play, the latest unless
/// the command word or an `index=` flag says otherwise.
pub open spec fn recent_selector(suffix: Option<usize>, flags: Seq<(Seq<char>, Seq<char>)>) -> Selector {
    match suffix {
        Some(d) => Selector::SingleIndex(index_of_number(d)),
        None => match flag_index(flags) {
            Some(i) => Selector::SingleIndex(i),
            None => Selector::SingleIndex(0),
        },
    }
}

/// Whether `p` is the player that the arguments, else the linked account, name.
pub open spec fn names_player(p: PlayerRef, rest: Seq<&str>, linked: Option<User>) -> bool {
    match p {
        PlayerRef::Name(s) => username_of(rest) == Some(s@),
        PlayerRef::Id(i) => username_of(rest).is_none() && linked.is_some() && linked.unwrap().bancho_id
            == i,
    }
}

/// Resolves a recent-plays or best-plays command: the player from the
/// arguments (a quoted name, else the first argument that is not a flag), else
/// from the linked account; the mode from the command name, else the linked
/// account's; the play or page from the number in the command word, else the
/// flags.
pub fn resolve_request(command: &CommandToken, args: Vec<&str>, linked: Option<User>) -> (r: Result<
    ScoreRequest,
    PipelineError,
>)
    requires
        command_of(command.name@) == Some(CommandKind::Recent) || command_of(command.name@) == Some(
            CommandKind::Top,
        ),
    ensures
        r.is_err() == (username_of(non_flags(args@)).is_none() && linked.is_none()),
        r.is_err() ==> r == Err::<ScoreRequest, PipelineError>(PipelineError::NoPlayerSpecified),
        r.is_ok() ==> {
            let q = r.unwrap();
            let flags = flags_of(args@);
            &&& names_player(q.player, non_flags(args@), linked)
            &&& command_of(command.name@) == Some(CommandKind::Recent) ==> {
                &&& q.mode == recent_mode(command.name@, linked)
                &&& q.list == ScoreList::Recent { include_fails: includes_fails(command.name@) }
                &&& q.selector == recent_selector(command.suffix, flags)
            }
            &&& command_of(command.name@) == Some(CommandKind::Top) ==> {
                &&& q.mode == top_mode(command.name@, linked)
                &&& q.list == ScoreList::Best
                &&& q.selector == top_selector(command.suffix, flags)
            }
        },
{
    let name = command.name.as_str();
    let is_recent = matches!(command_kind(name), Some(CommandKind::Recent));
    let (flags, rest) = get_flags(args);
    let player = match get_username(rest) {
        Some(n) => PlayerRef::Name(n),
        None => match linked {
            Some(u) => PlayerRef::Id(u.bancho_id),
            None => {
                return Err(PipelineError::NoPlayerSpecified);
            },
        },
    };
    let default_mode = match linked {
        Some(u) => u.mode,
        None => GameMode::Osu,
    };
    let index_flag = match flag_value(&flags, "index") {
        Some(v) => parse_usize(v.as_str()),
        None => None,
    };
    let selector = match command.suffix {
        Some(d) => Selector::SingleIndex(if d == 0 { 0 } else { d - 1 }),
        None => match index_flag {
            Some(i) => Selector::SingleIndex(i),
            None => if is_recent {
                Selector::SingleIndex(0)
            } else {
                let page = match flag_value(&flags, "page") {
                    Some(v) => match parse_usize(v.as_str()) {
                        Some(p) => p,
                        None => 0,
                    },
                    None => 0,
                };
                Selector::Page(page)
            },
        },
    };
    if is_recent {
        let mode = if starts_with(name, "recentmania") || starts_with(name, "rm") {
            GameMode::Mania
        } else if starts_with(name, "recenttaiko") || starts_with(name, "rt") {
            GameMode::Taiko
        } else if starts_with(name, "recentcatch") || starts_with(name, "rc") {
            GameMode::Catch
        } else {
            default_mode
        };
        let include_fails = !(ends_with(name, "pass") || ends_with(name, "p"));
        Ok(ScoreRequest { player, mode, list: ScoreList::Recent { include_fails }, selector })
    } else {
        let mode = if str_eq(name, "topmania") || str_eq(name, "topm") || str_eq(name, "tm") {
            GameMode::Mania
        } else if str_eq(name, "toptaiko") || str_eq(name, "topt") || str_eq(name, "tt") {
            GameMode::Taiko
        } else if str_eq(name, "topcatch") || str_eq(name, "topc") || str_eq(name, "tc") {
            GameMode::Catch
        } else {
            default_mode
        };
        Ok(ScoreRequest { player, mode, list: ScoreList::Best, selector })
    }
}

/// A number written into the command word outranks the `index=` and `page=`
/// flags, whatever they say.
pub proof fn lemma_number_outranks_flags(d: usize, flags: Seq<(Seq<char>, Seq<char>)>)
    ensures
        top_selector(Some(d), flags) == Selector::SingleIndex(index_of_number(d)),
        recent_selector(Some(d), flags) == Selector::SingleIndex(index_of_number(d)),
{
}

/// Picks the play at `index` of a list of `len`; an index past the end is an
/// error, never the last play.
pub fn select_index(len: usize, index: usize) -> (r: Result<usize, PipelineError>)
    ensures
        r == (if index < len {
            Ok::<usize, PipelineError>(index)
        } else {
            Err(PipelineError::SelectorOutOfRange)
        }),
{
    if index < len {
        Ok(index)
    } else {
        Err(PipelineError::SelectorOutOfRange)
    }
}

/// The number of plays on one page of a list.
pub const ELEMENT_PER_PAGE: usize = 5;

/// Where page `page` of a list of `len` plays starts.
pub open spec fn page_start(len: usize, page: usize) -> int {
    if page * ELEMENT_PER_PAGE < len {
        page * ELEMENT_PER_PAGE
    } else {
        len as int
    }
}

/// The positions `[start, end)` of the plays on page `page` of a list of
/// `len`; a page past the end is empty.
pub fn page_bounds(len: usize, page: usize) -> (r: (usize, usize))
    ensures
        r.0 == page_start(len, page),
        r.1 == (if page_start(len, page) + ELEMENT_PER_PAGE < len {
            page_start(len, page) + ELEMENT_PER_PAGE
        } else {
            len as int
        }),
{
    let start = if page < len / ELEMENT_PER_PAGE + 1 && page * ELEMENT_PER_PAGE < len {
        page * ELEMENT_PER_PAGE
    } else {
        len
    };
    assert(start == page_start(len, page)) by (nonlinear_arith)
        requires
            start == (if page < len / 5 + 1 && page * 5 < len { page * 5 } else { len as int }),
            len >= 0,
            page >= 0,
    {
    }
    let end = if len - start > ELEMENT_PER_PAGE {
        start + ELEMENT_PER_PAGE
    } else {
        len
    };
    (start, end)
}

} // verus!
