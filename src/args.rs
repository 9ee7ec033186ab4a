//! Splitting a command's free-text arguments into flags, modifiers, a beatmap
//! link and a player name.

use vstd::prelude::*;
use vstd::utf8::is_ascii_chars;

use regex::Regex;
use rosu_v2::prelude::{Acronym, GameModIntermode, GameModsIntermode};

use crate::text::{find_char, next_index};

verus! {

// ---------------------------------------------------------------- flags

/// Whether an argument is a `key=value` flag: it holds exactly one `=`.
pub open spec fn is_flag(s: Seq<char>) -> bool {
    next_index(s, '=', 0) < s.len() && next_index(s, '=', next_index(s, '=', 0) + 1) == s.len()
}

/// The key and the value of a flag argument.
pub open spec fn flag_of(s: Seq<char>) -> (Seq<char>, Seq<char>) {
    let p = next_index(s, '=', 0);
    (s.subrange(0, p), s.subrange(p + 1, s.len() as int))
}

/// The flags among `args`, in order.
pub open spec fn flags_of(args: Seq<&str>) -> Seq<(Seq<char>, Seq<char>)>
    decreases args.len(),
{
    if args.len() == 0 {
        Seq::empty()
    } else if is_flag(args.last()@) {
        flags_of(args.drop_last()).push(flag_of(args.last()@))
    } else {
        flags_of(args.drop_last())
    }
}

/// The arguments that are not flags, in order.
pub open spec fn non_flags(args: Seq<&str>) -> Seq<&str>
    decreases args.len(),
{
    if args.len() == 0 {
        Seq::empty()
    } else if is_flag(args.last()@) {
        non_flags(args.drop_last())
    } else {
        non_flags(args.drop_last()).push(args.last())
    }
}

/// The views of a list of key/value pairs.
pub open spec fn pairs_view(v: Seq<(String, String)>) -> Seq<(Seq<char>, Seq<char>)> {
    v.map_values(|p: (String, String)| (p.0@, p.1@))
}

/// The value of the last flag named `key`: a later flag overrides an earlier one.
pub open spec fn last_value(flags: Seq<(Seq<char>, Seq<char>)>, key: Seq<char>) -> Option<
    Seq<char>,
>
    decreases flags.len(),
{
    if flags.len() == 0 {
        None
    } else if flags.last().0 == key {
        Some(flags.last().1)
    } else {
        last_value(flags.drop_last(), key)
    }
}

/// Separates the `key=value` flags from the other arguments; both keep their order.
pub fn get_flags(args: Vec<&str>) -> (r: (Vec<(String, String)>, Vec<&str>))
    ensures
        pairs_view(r.0@) == flags_of(args@),
        r.1@ == non_flags(args@),
{
    let mut flags: Vec<(String, String)> = Vec::new();
    let mut rest: Vec<&str> = Vec::new();
    let mut i: usize = 0;
    while i < args.len()
        invariant
            i <= args@.len(),
            pairs_view(flags@) == flags_of(args@.subrange(0, i as int)),
            rest@ == non_flags(args@.subrange(0, i as int)),
        decreases args.len() - i,
    {
        let a: &str = args[i];
        let ghost pre = args@.subrange(0, i as int);
        let ghost next = args@.subrange(0, i + 1);
        assert(next.drop_last() =~= pre);
        assert(next.last() == a);
        let n = a.unicode_len();
        let p = find_char(a, '=', 0);
        let is_flag_arg = if p < n {
            find_char(a, '=', p + 1) == n
        } else {
            false
        };
        if is_flag_arg {
            let key = String::from_str(a.substring_char(0, p));
            let value = String::from_str(a.substring_char(p + 1, n));
            let ghost old_flags = flags@;
            flags.push((key, value));
            assert(pairs_view(flags@) =~= pairs_view(old_flags).push(flag_of(a@)));
        } else {
            rest.push(a);
        }
        i += 1;
    }
    assert(args@.subrange(0, args@.len() as int) =~= args@);
    (flags, rest)
}

/// Looks up the value of the flag `key`; a later flag overrides an earlier one.
pub fn flag_value(flags: &Vec<(String, String)>, key: &str) -> (r: Option<String>)
    ensures
        r.is_some() == last_value(pairs_view(flags@), key@).is_some(),
        r.is_some() ==> r.unwrap()@ == last_value(pairs_view(flags@), key@).unwrap(),
{
    let mut i: usize = flags.len();
    assert(flags@.subrange(0, i as int) =~= flags@);
    while i > 0
        invariant
            i <= flags@.len(),
            last_value(pairs_view(flags@), key@) == last_value(
                pairs_view(flags@.subrange(0, i as int)),
                key@,
            ),
        decreases i,
    {
        let ghost pre = pairs_view(flags@.subrange(0, i as int));
        assert(pre.drop_last() =~= pairs_view(flags@.subrange(0, i - 1)));
        let (k, v) = &flags[i - 1];
        if crate::text::str_eq(k.as_str(), key) {
            return Some(v.clone());
        }
        i -= 1;
    }
    None
}

// ---------------------------------------------------------------- mods

/// Whether rosu-mods reads `s` as a run of modifier acronyms.
pub uninterp spec fn acronyms_parse(s: Seq<char>) -> bool;

/// Whether rosu-mods knows `s` as the acronym of one modifier.
pub uninterp spec fn known_acronym(s: Seq<char>) -> bool;

/// Whether rosu-mods' acronym reader can be handed `s`: it is ASCII, and it
/// does not end in a known three-letter acronym and one more character. On
/// such an ending the reader would read its last piece, one byte long, as
/// three bytes, past the end of the text.
pub open spec fn acronyms_readable(s: Seq<char>) -> bool {
    is_ascii_chars(s) && !(s.len() >= 4 && known_acronym(s.subrange(s.len() - 4, s.len() - 1)))
}

/// Relies on `GameModsIntermode::try_from_acronyms` (rosu-mods, through
/// rosu-v2): whether the text reads as a combination of modifier acronyms.
/// On the texts that `acronyms_readable` admits every byte it reads is in the
/// text, so the answer depends on the text alone.
#[verifier::external_body]
fn parses_as_mods(s: &str) -> (r: bool)
    requires
        acronyms_readable(s@),
    ensures
        r == acronyms_parse(s@),
{
    GameModsIntermode::try_from_acronyms(s).is_some()
}

/// Relies on `Acronym::from_str` and `GameModIntermode::from_acronym`
/// (rosu-mods, through rosu-v2): whether the text, upper-cased, is the
/// acronym of a known modifier; a text of other than two or three bytes is none.
#[verifier::external_body]
fn is_known_acronym(s: &str) -> (r: bool)
    ensures
        r == known_acronym(s@),
{
    match s.parse::<Acronym>() {
        Ok(acronym) => !matches!(GameModIntermode::from_acronym(acronym), GameModIntermode::Unknown(_)),
        Err(_) => false,
    }
}

/// Decides whether `s` can be handed to the acronym reader.
fn readable_acronyms(s: &str) -> (r: bool)
    ensures
        r == acronyms_readable(s@),
{
    if !s.is_ascii() {
        return false;
    }
    let n = s.unicode_len();
    if n >= 4 && is_known_acronym(s.substring_char(n - 4, n - 1)) {
        return false;
    }
    true
}

/// Whether an argument is `+` followed by modifier acronyms that the reader
/// can be handed.
pub open spec fn is_mod_arg(s: Seq<char>) -> bool {
    &&& s.len() > 0
    &&& s[0] == '+'
    &&& acronyms_readable(s.subrange(1, s.len() as int))
    &&& acronyms_parse(s.subrange(1, s.len() as int))
}

/// The acronyms of the modifier arguments, in order, without their `+`.
pub open spec fn mods_of(args: Seq<&str>) -> Seq<Seq<char>>
    decreases args.len(),
{
    if args.len() == 0 {
        Seq::empty()
    } else if is_mod_arg(args.last()@) {
        mods_of(args.drop_last()).push(args.last()@.subrange(1, args.last()@.len() as int))
    } else {
        mods_of(args.drop_last())
    }
}

/// The arguments that are not modifier arguments, in order.
pub open spec fn non_mods(args: Seq<&str>) -> Seq<&str>
    decreases args.len(),
{
    if args.len() == 0 {
        Seq::empty()
    } else if is_mod_arg(args.last()@) {
        non_mods(args.drop_last())
    } else {
        non_mods(args.drop_last()).push(args.last())
    }
}

/// The views of a list of string slices.
pub open spec fn strs_view(v: Seq<&str>) -> Seq<Seq<char>> {
    v.map_values(|s: &str| s@)
}

/// Separates the `+MODS` arguments from the others; both keep their order.
/// Text that the acronym reader cannot be handed stays among the others.
pub fn get_mods<'a>(args: Vec<&'a str>) -> (r: (Vec<&'a str>, Vec<&'a str>))
    ensures
        strs_view(r.0@) == mods_of(args@),
        r.1@ == non_mods(args@),
{
    let mut mods: Vec<&'a str> = Vec::new();
    let mut rest: Vec<&'a str> = Vec::new();
    let mut i: usize = 0;
    while i < args.len()
        invariant
            i <= args@.len(),
            strs_view(mods@) == mods_of(args@.subrange(0, i as int)),
            rest@ == non_mods(args@.subrange(0, i as int)),
        decreases args.len() - i,
    {
        let a: &'a str = args[i];
        let ghost next = args@.subrange(0, i + 1);
        assert(next.drop_last() =~= args@.subrange(0, i as int));
        assert(next.last() == a);
        let n = a.unicode_len();
        let mut taken = false;
        if n > 0 && a.get_char(0) == '+' {
            let acronyms: &'a str = a.substring_char(1, n);
            if readable_acronyms(acronyms) && parses_as_mods(acronyms) {
                let ghost old_mods = mods@;
                mods.push(acronyms);
                assert(strs_view(mods@) =~= strs_view(old_mods).push(acronyms@));
                taken = true;
            }
        }
        if !taken {
            rest.push(a);
        }
        i += 1;
    }
    assert(args@.subrange(0, args@.len() as int) =~= args@);
    (mods, rest)
}

// ---------------------------------------------------------------- beatmap links

/// What the first group of `pattern` captures in `text`, where the regex
/// crate compiles `pattern` and it matches.
pub uninterp spec fn regex_capture(pattern: Seq<char>, text: Seq<char>) -> Option<Seq<char>>;

/// Relies on `Regex::new` and `Regex::captures` (regex): compiles `pattern`
/// and returns the text of its first group in the leftmost match in `text`;
/// `None` where the pattern does not compile, does not match, or its first
/// group took no part. The result depends on the two texts alone.
#[verifier::external_body]
fn first_capture(pattern: &str, text: &str) -> (r: Option<String>)
    ensures
        r.is_some() == regex_capture(pattern@, text@).is_some(),
        r.is_some() ==> r.unwrap()@ == regex_capture(pattern@, text@).unwrap(),
{
    let regex = Regex::new(pattern).ok()?;
    let caps = regex.captures(text)?;
    caps.get(1).map(|m| m.as_str().to_string())
}

/// The pattern of a beatmap link; `\d` is any Unicode decimal digit.
pub open spec fn link_pattern() -> Seq<char> {
    "^https://osu\\.ppy\\.sh/b/(\\d+)"@
}

/// The id in a beatmap link: the digits that the link pattern captures.
pub open spec fn link_id(s: Seq<char>) -> Option<Seq<char>> {
    regex_capture(link_pattern(), s)
}

/// A link to a beatmap and the beatmap id that it names.
pub struct BeatmapURL {
    pub url: String,
    pub id: String,
}

/// Reads a beatmap link; `None` where `url` is not one.
fn parse_url(url: &str) -> (r: Option<BeatmapURL>)
    ensures
        r.is_some() == link_id(url@).is_some(),
        r.is_some() ==> r.unwrap().url@ == url@ && r.unwrap().id@ == link_id(url@).unwrap(),
{
    match first_capture("^https://osu\\.ppy\\.sh/b/(\\d+)", url) {
        Some(id) => Some(BeatmapURL { url: String::from_str(url), id }),
        None => None,
    }
}

/// The index of the first argument at or after `i` that is a beatmap link, or
/// the number of arguments.
pub open spec fn link_index(args: Seq<&str>, i: int) -> int
    decreases args.len() - i,
{
    if i < 0 || i >= args.len() {
        args.len() as int
    } else if link_id(args[i]@).is_some() {
        i
    } else {
        link_index(args, i + 1)
    }
}

/// Takes the first beatmap link out of the arguments; the others keep their order.
pub fn get_beatmap_link(args: Vec<&str>) -> (r: (Option<BeatmapURL>, Vec<&str>))
    ensures
        link_index(args@, 0) == args@.len() ==> r.0.is_none() && r.1@ == args@,
        link_index(args@, 0) < args@.len() ==> {
            let k = link_index(args@, 0);
            &&& r.0.is_some()
            &&& r.0.unwrap().url@ == args@[k]@
            &&& r.0.unwrap().id@ == link_id(args@[k]@).unwrap()
            &&& r.1@ == args@.remove(k)
        },
{
    let mut rest = args;
    let ghost all = rest@;
    let mut i: usize = 0;
    while i < rest.len()
        invariant
            rest@ == all,
            all == args@,
            i <= all.len(),
            link_index(all, i as int) == link_index(all, 0),
        decreases all.len() - i,
    {
        if let Some(b) = parse_url(rest[i]) {
            rest.remove(i);
            return (Some(b), rest);
        }
        i += 1;
    }
    (None, rest)
}

// ---------------------------------------------------------------- player names

/// The text between the first pair of double quotes, at or after `i`, that
/// encloses at least one character and no quote.
pub open spec fn quoted_from(s: Seq<char>, i: int) -> Option<Seq<char>>
    decreases s.len() - i,
{
    if i < 0 || i >= s.len() {
        None
    } else if s[i] == '"' && next_index(s, '"', i + 1) < s.len() && next_index(s, '"', i + 1)
        > i + 1 {
        Some(s.subrange(i + 1, next_index(s, '"', i + 1)))
    } else {
        quoted_from(s, i + 1)
    }
}

/// The quoted text of the first argument, at or after `i`, that holds one.
pub open spec fn first_quoted(args: Seq<&str>, i: int) -> Option<Seq<char>>
    decreases args.len() - i,
{
    if i < 0 || i >= args.len() {
        None
    } else if quoted_from(args[i]@, 0).is_some() {
        quoted_from(args[i]@, 0)
    } else {
        first_quoted(args, i + 1)
    }
}

/// The player named by the arguments: quoted text if any, else the first argument.
pub open spec fn username_of(args: Seq<&str>) -> Option<Seq<char>> {
    if first_quoted(args, 0).is_some() {
        first_quoted(args, 0)
    } else if args.len() > 0 {
        Some(args[0]@)
    } else {
        None
    }
}

/// The quoted part of one argument.
fn quoted(s: &str) -> (r: Option<String>)
    ensures
        r.is_some() == quoted_from(s@, 0).is_some(),
        r.is_some() ==> r.unwrap()@ == quoted_from(s@, 0).unwrap(),
{
    let n = s.unicode_len();
    let mut i: usize = 0;
    while i < n
        invariant
            i <= n,
            n == s@.len(),
            quoted_from(s@, i as int) == quoted_from(s@, 0),
        decreases n - i,
    {
        if s.get_char(i) == '"' {
            let k = find_char(s, '"', i + 1);
            if k < n && k > i + 1 {
                return Some(String::from_str(s.substring_char(i + 1, k)));
            }
        }
        i += 1;
    }
    None
}

/// Finds the player name in the arguments: the first quoted text, else the
/// first argument; `None` where there are no arguments.
pub fn get_username(args: Vec<&str>) -> (r: Option<String>)
    ensures
        r.is_some() == username_of(args@).is_some(),
        r.is_some() ==> r.unwrap()@ == username_of(args@).unwrap(),
{
    let mut i: usize = 0;
    while i < args.len()
        invariant
            i <= args@.len(),
            first_quoted(args@, i as int) == first_quoted(args@, 0),
        decreases args.len() - i,
    {
        if let Some(q) = quoted(args[i]) {
            return Some(q);
        }
        i += 1;
    }
    if args.len() > 0 {
        Some(String::from_str(args[0]))
    } else {
        None
    }
}

} // verus!
