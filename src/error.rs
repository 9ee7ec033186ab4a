//! The ways in which one request can fail.

use vstd::prelude::*;

verus! {

/// Why a request failed; each ends the request it belongs to.
#[derive(Clone, Copy, Debug, PartialEq, Eq, Structural)]
pub enum PipelineError {
    /// Neither the arguments nor a linked account name a player.
    NoPlayerSpecified,
    /// The stats service knows no such player.
    UserNotFound,
    /// The stats service knows no such beatmap.
    UnknownBeatmap,
    /// The chart was not cached and could not be fetched.
    BeatmapUnavailable,
    /// The chart text could not be read.
    ChartParseError,
    /// The requested play is past the end of the list.
    SelectorOutOfRange,
    /// The stats service did not return the scores.
    ScoresUnavailable,
}

} // verus!
