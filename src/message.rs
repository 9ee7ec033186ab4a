//! Reading a chat message as a command invocation.

use vstd::prelude::*;

use crate::selector::{
    command_kind, command_name, command_number, command_of, is_command_word, split_command,
    CommandKind, CommandToken,
};
use crate::text::{has_prefix, starts_with};

verus! {

/// Whether `c` is white space, as `char::is_whitespace` decides it.
pub open spec fn is_space(c: char) -> bool {
    c == ' ' || ('\t' <= c && c <= '\r') || c == '\u{85}' || c == '\u{a0}' || c == '\u{1680}' || (
    '\u{2000}' <= c && c <= '\u{200a}') || c == '\u{2028}' || c == '\u{2029}' || c == '\u{202f}'
        || c == '\u{205f}' || c == '\u{3000}'
}

/// Whether `c` is white space.
fn space(c: char) -> (r: bool)
    ensures
        r == is_space(c),
{
    c == ' ' || ('\t' <= c && c <= '\r') || c == '\u{85}' || c == '\u{a0}' || c == '\u{1680}' || (
    '\u{2000}' <= c && c <= '\u{200a}') || c == '\u{2028}' || c == '\u{2029}' || c == '\u{202f}'
        || c == '\u{205f}' || c == '\u{3000}'
}

/// The words read so far and the word being read, after the characters of `s`.
pub open spec fn split_state(s: Seq<char>) -> (Seq<Seq<char>>, Seq<char>)
    decreases s.len(),
{
    if s.len() == 0 {
        (Seq::empty(), Seq::empty())
    } else {
        let (ws, cur) = split_state(s.drop_last());
        if is_space(s.last()) {
            if cur.len() > 0 {
                (ws.push(cur), Seq::empty())
            } else {
                (ws, Seq::empty())
            }
        } else {
            (ws, cur.push(s.last()))
        }
    }
}

/// The words of `s`: its maximal runs of characters that are not white space.
pub open spec fn words_of(s: Seq<char>) -> Seq<Seq<char>> {
    if split_state(s).1.len() > 0 {
        split_state(s).0.push(split_state(s).1)
    } else {
        split_state(s).0
    }
}

/// The views of a list of strings.
pub open spec fn strings_view(v: Seq<String>) -> Seq<Seq<char>> {
    v.map_values(|s: String| s@)
}

/// Splits `s` at white space, as `str::split_whitespace` does.
pub fn split_words(s: &str) -> (r: Vec<String>)
    ensures
        strings_view(r@) == words_of(s@),
{
    let n = s.unicode_len();
    let mut words: Vec<String> = Vec::new();
    let mut start: usize = 0;
    let mut i: usize = 0;
    assert(s@.subrange(0, 0) =~= Seq::<char>::empty());
    while i < n
        invariant
            start <= i <= n,
            n == s@.len(),
            split_state(s@.subrange(0, i as int)) == (strings_view(words@), s@.subrange(
                start as int,
                i as int,
            )),
        decreases n - i,
    {
        let c = s.get_char(i);
        let ghost pre = s@.subrange(0, i as int);
        let ghost next = s@.subrange(0, i + 1);
        assert(next.drop_last() =~= pre);
        assert(next.last() == c);
        if space(c) {
            if start < i {
                let ghost old_words = words@;
                words.push(String::from_str(s.substring_char(start, i)));
                assert(strings_view(words@) =~= strings_view(old_words).push(
                    s@.subrange(start as int, i as int),
                ));
            }
            assert(s@.subrange(i + 1, i + 1) =~= Seq::<char>::empty());
            start = i + 1;
        } else {
            assert(s@.subrange(start as int, i + 1) =~= s@.subrange(start as int, i as int).push(c));
        }
        i += 1;
    }
    assert(s@.subrange(0, n as int) =~= s@);
    if start < n {
        let ghost old_words = words@;
        words.push(String::from_str(s.substring_char(start, n)));
        assert(strings_view(words@) =~= strings_view(old_words).push(s@.subrange(start as int, n as int)));
    }
    words
}

/// The character that opens a command message.
pub open spec fn prefix() -> Seq<char> {
    "]"@
}

/// A command invocation read from a message.
pub struct Invocation {
    /// The command word, split into name and number.
    pub command: CommandToken,
    pub kind: CommandKind,
    /// The words after the command word.
    pub args: Vec<String>,
}

/// Whether a message from a bot (`from_bot`) with text `content` invokes a
/// command: a human wrote it, it opens with the prefix, and its first word is
/// a command word that names a command.
pub open spec fn invokes(content: Seq<char>, from_bot: bool) -> bool {
    let words = words_of(content.subrange(prefix().len() as int, content.len() as int));
    &&& !from_bot
    &&& has_prefix(content, prefix())
    &&& words.len() > 0
    &&& is_command_word(words[0])
    &&& match command_number(words[0]) {
        Some(v) => v <= usize::MAX,
        None => true,
    }
    &&& command_of(command_name(words[0])).is_some()
}

/// Reads a message as a command invocation; `None` where it is not one.
pub fn parse_message(content: &str, from_bot: bool) -> (r: Option<Invocation>)
    ensures
        r.is_some() == invokes(content@, from_bot),
        r.is_some() ==> {
            let words = words_of(content@.subrange(prefix().len() as int, content@.len() as int));
            let inv = r.unwrap();
            &&& inv.command.name@ == command_name(words[0])
            &&& inv.kind == command_of(command_name(words[0])).unwrap()
            &&& strings_view(inv.args@) == words.subrange(1, words.len() as int)
        },
{
    if from_bot {
        return None;
    }
    let p = "]";
    if !starts_with(content, p) {
        return None;
    }
    let n = content.unicode_len();
    let plen = p.unicode_len();
    let mut words = split_words(content.substring_char(plen, n));
    if words.len() == 0 {
        return None;
    }
    let first = words.remove(0);
    let ghost rest = words@;
    let command = match split_command(first.as_str()) {
        Some(c) => c,
        None => {
            return None;
        },
    };
    let kind = match command_kind(command.name.as_str()) {
        Some(k) => k,
        None => {
            return None;
        },
    };
    assert(strings_view(words@) =~= words_of(
        content@.subrange(plen as int, n as int),
    ).subrange(1, words_of(content@.subrange(plen as int, n as int)).len() as int));
    Some(Invocation { command, kind, args: words })
}

} // verus!
