//! The arguments of the profile command.

use vstd::prelude::*;

use crate::error::PipelineError;
use crate::link::User;
use crate::mode::GameMode;
use crate::selector::PlayerRef;
use crate::text::str_eq;

verus! {

/// The mode that a profile command name asks for; `None` for a name that
/// names no mode.
pub open spec fn profile_mode(n: Seq<char>) -> Option<GameMode> {
    if n == "osu"@ || n == "o"@ || n == "profile"@ {
        Some(GameMode::Osu)
    } else if n == "taiko"@ || n == "t"@ {
        Some(GameMode::Taiko)
    } else if n == "mania"@ || n == "m"@ {
        Some(GameMode::Mania)
    } else if n == "ctb"@ || n == "catch"@ || n == "fruits"@ {
        Some(GameMode::Catch)
    } else {
        None
    }
}

/// The concatenation of the views of `args`.
pub open spec fn joined(args: Seq<&str>) -> Seq<char>
    decreases args.len(),
{
    if args.len() == 0 {
        Seq::empty()
    } else {
        joined(args.drop_last()) + args.last()@
    }
}

/// The views of `args` written one after another with a space between.
pub open spec fn spaced(args: Seq<&str>) -> Seq<char>
    decreases args.len(),
{
    if args.len() == 0 {
        Seq::empty()
    } else if args.len() == 1 {
        args[0]@
    } else {
        spaced(args.drop_last()) + seq![' '] + args.last()@
    }
}

/// Writes the arguments one after another with a space between.
pub fn join_spaced(args: &Vec<&str>) -> (r: String)
    ensures
        r@ == spaced(args@),
{
    let mut out = String::new();
    let mut i: usize = 0;
    assert(args@.subrange(0, 0) =~= Seq::<&str>::empty());
    while i < args.len()
        invariant
            i <= args@.len(),
            out@ == spaced(args@.subrange(0, i as int)),
        decreases args.len() - i,
    {
        let ghost next = args@.subrange(0, i + 1);
        assert(next.drop_last() =~= args@.subrange(0, i as int));
        if i > 0 {
            let ghost before = out@;
            out.append(" ");
            proof {
                reveal_strlit(" ");
            }
            assert(out@ =~= before + seq![' ']);
        } else {
            assert(next =~= seq![args@[0]]);
        }
        out.append(args[i]);
        i += 1;
    }
    assert(args@.subrange(0, args@.len() as int) =~= args@);
    out
}

/// A profile request: the player named, and the mode.
pub struct ProfileT {
    name: Option<String>,
    mode: GameMode,
}

impl ProfileT {
    /// The player name, the arguments written together.
    pub closed spec fn spec_name(&self) -> Option<String> {
        self.name
    }

    pub closed spec fn spec_mode(&self) -> GameMode {
        self.mode
    }

    /// Builds the request: the name is the arguments joined without separator.
    pub fn args(mode: GameMode, args: Vec<&str>) -> (r: ProfileT)
        ensures
            r.spec_mode() == mode,
            r.spec_name().is_some(),
            r.spec_name().unwrap()@ == joined(args@),
    {
        let mut name = String::new();
        let mut i: usize = 0;
        assert(args@.subrange(0, 0) =~= Seq::<&str>::empty());
        while i < args.len()
            invariant
                i <= args@.len(),
                name@ == joined(args@.subrange(0, i as int)),
            decreases args.len() - i,
        {
            assert(args@.subrange(0, i + 1).drop_last() =~= args@.subrange(0, i as int));
            name.append(args[i]);
            i += 1;
        }
        assert(args@.subrange(0, args@.len() as int) =~= args@);
        ProfileT { name: Some(name), mode }
    }

    /// The player name.
    pub fn name(&self) -> (r: Option<String>)
        ensures
            r == self.spec_name(),
    {
        self.name.clone()
    }

    /// The mode.
    pub fn mode(&self) -> (r: GameMode)
        ensures
            r == self.spec_mode(),
    {
        self.mode
    }

    /// Reads the mode from the name the profile command was called by.
    pub fn str_to_mode(mode: &str) -> (r: Result<GameMode, String>)
        ensures
            profile_mode(mode@).is_some() ==> r == Ok::<GameMode, String>(profile_mode(mode@).unwrap()),
            profile_mode(mode@).is_none() ==> r.is_err() && r->Err_0@ == "Couldn't parse the mode."@,
    {
        if str_eq(mode, "osu") || str_eq(mode, "o") || str_eq(mode, "profile") {
            Ok(GameMode::Osu)
        } else if str_eq(mode, "taiko") || str_eq(mode, "t") {
            Ok(GameMode::Taiko)
        } else if str_eq(mode, "mania") || str_eq(mode, "m") {
            Ok(GameMode::Mania)
        } else if str_eq(mode, "ctb") || str_eq(mode, "catch") || str_eq(mode, "fruits") {
            Ok(GameMode::Catch)
        } else {
            Err(String::from_str("Couldn't parse the mode."))
        }
    }
}

/// Finds the player of a profile request: the arguments joined by spaces,
/// else the linked account; `NoPlayerSpecified` where there is neither.
pub fn resolve_profile_player(args: Vec<&str>, linked: Option<User>) -> (r: Result<
    PlayerRef,
    PipelineError,
>)
    ensures
        r.is_err() == (spaced(args@).len() == 0 && linked.is_none()),
        r.is_err() ==> r == Err::<PlayerRef, PipelineError>(PipelineError::NoPlayerSpecified),
        r.is_ok() ==> match r.unwrap() {
            PlayerRef::Name(s) => spaced(args@).len() > 0 && s@ == spaced(args@),
            PlayerRef::Id(i) => spaced(args@).len() == 0 && linked.is_some()
                && linked.unwrap().bancho_id == i,
        },
{
    let name = join_spaced(&args);
    if name.as_str().unicode_len() > 0 {
        return Ok(PlayerRef::Name(name));
    }
    match linked {
        Some(u) => Ok(PlayerRef::Id(u.bancho_id)),
        None => Err(PipelineError::NoPlayerSpecified),
    }
}

} // verus!
