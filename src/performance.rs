//! Difficulty and performance of a play, computed by rosu-pp from the chart.

use vstd::prelude::*;

use rosu_pp::any::{DifficultyAttributes, PerformanceAttributes};
use rosu_pp::model::mode::GameMode as RulesetMode;
use rosu_pp::{Beatmap, Difficulty, Performance};
use vstd::string::StringSliceAdditionalSpecFns;

use crate::error::PipelineError;
use crate::mode::GameMode;
use crate::score::{
    accuracy, accuracy_of, fc_projection_needed, fc_projection_wanted, fc_statistics,
    fc_statistics_of, total_hits_of, HitStatistics,
};

verus! {

/// rosu-pp's parsed chart, carried through unopened.
#[verifier::external_type_specification]
#[verifier::external_body]
pub struct ExBeatmap(Beatmap);

/// rosu-pp's difficulty attributes, carried through unopened.
#[verifier::external_type_specification]
#[verifier::external_body]
pub struct ExDifficultyAttributes(DifficultyAttributes);

/// rosu-pp's performance attributes, carried through unopened.
#[verifier::external_type_specification]
#[verifier::external_body]
pub struct ExPerformanceAttributes(PerformanceAttributes);

/// Whether a byte ends the field of a slider path as rosu-pp's decoder reads
/// it: a comma, a line end, or the `/` that opens a comment.
pub open spec fn ends_path_field(b: u8) -> bool {
    b == 44 || b == 10 || b == 13 || b == 47
}

/// Whether a byte is an ASCII letter.
pub open spec fn is_ascii_letter(b: u8) -> bool {
    (65 <= b && b <= 90) || (97 <= b && b <= 122)
}

/// Whether no `|` comes at or after `k` before the field ends.
pub open spec fn no_pipe_before_field_end(s: Seq<u8>, k: int) -> bool
    decreases s.len() - k,
{
    if k < 0 || k >= s.len() {
        true
    } else if ends_path_field(s[k]) {
        true
    } else if s[k] == 124 {
        false
    } else {
        no_pipe_before_field_end(s, k + 1)
    }
}

/// Whether the `|` at `j` opens the last piece of its field and that piece
/// starts with a letter: a slider path that ends in a lone path type.
pub open spec fn bare_path_letter_at(s: Seq<u8>, j: int) -> bool {
    &&& 0 <= j
    &&& j + 1 < s.len()
    &&& s[j] == 124
    &&& is_ascii_letter(s[j + 1])
    &&& no_pipe_before_field_end(s, j + 1)
}

/// Whether a chart holds a slider path that ends in a lone path type, on
/// which rosu-pp's decoder indexes an empty list and panics.
pub open spec fn has_bare_path_letter(s: Seq<u8>) -> bool {
    exists|j: int| bare_path_letter_at(s, j)
}

/// Looks for a slider path that ends in a lone path type.
pub fn find_bare_path_letter(s: &[u8]) -> (r: bool)
    ensures
        r == has_bare_path_letter(s@),
{
    let n = s.len();
    let mut clear = true;
    let mut i: usize = n;
    while i > 0
        invariant
            i <= n,
            n == s@.len(),
            clear == no_pipe_before_field_end(s@, i as int),
            forall|j: int| i <= j < n ==> !bare_path_letter_at(s@, j),
        decreases i,
    {
        let j = i - 1;
        let b = s[j];
        if b == 124 && j + 1 < n && clear {
            let c = s[j + 1];
            if (65 <= c && c <= 90) || (97 <= c && c <= 122) {
                assert(bare_path_letter_at(s@, j as int));
                return true;
            }
        }
        clear = if b == 44 || b == 10 || b == 13 || b == 47 {
            true
        } else if b == 124 {
            false
        } else {
            clear
        };
        i = j;
    }
    assert forall|j: int| !bare_path_letter_at(s@, j) by {
        if 0 <= j < n {
        }
    }
    false
}

/// The chart that rosu-pp reads from a text.
pub uninterp spec fn parsed_chart(text: Seq<char>) -> Beatmap;

/// A chart as rosu-pp converts it to the ruleset of `mode`.
pub uninterp spec fn converted_chart(map: Beatmap, mode: GameMode) -> Beatmap;

/// The difficulty attributes that rosu-pp computes for a chart under the
/// modifier bitmask `mods`.
pub uninterp spec fn difficulty_of(map: Beatmap, mods: u32) -> DifficultyAttributes;

/// The maximum combo held in difficulty attributes.
pub uninterp spec fn max_combo_of(attrs: DifficultyAttributes) -> u32;

/// The performance that rosu-pp gives a perfect play.
pub uninterp spec fn best_perf_of(attrs: DifficultyAttributes) -> PerformanceAttributes;

/// The performance that rosu-pp gives a play with these judgments and combo.
pub uninterp spec fn play_perf_of(
    attrs: DifficultyAttributes,
    s: HitStatistics,
    combo: u32,
) -> PerformanceAttributes;

/// Relies on `Beatmap::from_bytes` (rosu-pp, through rosu-map): reads the
/// chart from its text. The decoder passes over lines it cannot read, and
/// over the bytes of a `str` it meets no read error, so it always returns a
/// chart; it reads neither chance, the clock nor the environment, so the chart
/// depends on the text alone. It panics on a slider path that ends in a lone
/// path type, which `has_bare_path_letter` keeps out.
#[verifier::external_body]
fn parse_chart(text: &str) -> (r: Option<Beatmap>)
    requires
        !has_bare_path_letter(text.spec_bytes()),
    ensures
        r == Some(parsed_chart(text@)),
{
    Beatmap::from_bytes(text.as_bytes()).ok()
}

/// Relies on `Beatmap::convert_in_place` (rosu-pp): converts the chart to the
/// ruleset of `mode` where rosu-pp can, and leaves it as it is where it cannot.
#[verifier::external_body]
fn convert_chart(map: &mut Beatmap, mode: GameMode)
    ensures
        *final(map) == converted_chart(*old(map), mode),
{
    let ruleset = match mode {
        GameMode::Osu => RulesetMode::Osu,
        GameMode::Taiko => RulesetMode::Taiko,
        GameMode::Catch => RulesetMode::Catch,
        GameMode::Mania => RulesetMode::Mania,
    };
    map.convert_in_place(ruleset);
}

/// Relies on `Difficulty::calculate` (rosu-pp): the difficulty attributes of
/// the chart under the modifier bitmask `mods`, in the chart's own ruleset.
#[verifier::external_body]
fn difficulty(map: &Beatmap, mods: u32) -> (r: DifficultyAttributes)
    ensures
        r == difficulty_of(*map, mods),
{
    Difficulty::new().mods(mods).calculate(map)
}

/// Relies on `DifficultyAttributes::max_combo` (rosu-pp): the chart's maximum combo.
#[verifier::external_body]
fn max_combo(attrs: &DifficultyAttributes) -> (r: u32)
    ensures
        r == max_combo_of(*attrs),
{
    attrs.max_combo()
}

/// Relies on `Performance::calculate` (rosu-pp) without a play: the
/// performance of a perfect play.
#[verifier::external_body]
fn best_performance(attrs: &DifficultyAttributes) -> (r: PerformanceAttributes)
    ensures
        r == best_perf_of(*attrs),
{
    Performance::new(attrs.clone()).calculate()
}

/// Relies on `Performance::calculate` (rosu-pp): the performance of a play
/// with these judgments and this combo.
#[verifier::external_body]
fn play_performance(
    attrs: &DifficultyAttributes,
    s: &HitStatistics,
    combo: u32,
) -> (r: PerformanceAttributes)
    ensures
        r == play_perf_of(*attrs, *s, combo),
{
    Performance::new(attrs.clone())
        .n_geki(s.perfect)
        .n300(s.great)
        .n_katu(s.good)
        .n100(s.ok)
        .n50(s.meh)
        .misses(s.miss)
        .combo(combo)
        .calculate()
}

/// A chart text read and converted to the ruleset of `mode`.
pub open spec fn chart_map(text: Seq<char>, mode: GameMode) -> Beatmap {
    converted_chart(parsed_chart(text), mode)
}

/// One chart text, mode and modifier bitmask always give the same converted
/// chart, the same difficulty attributes, maximum combo and perfect-play
/// performance.
pub proof fn lemma_difficulty_deterministic(a: Seq<char>, b: Seq<char>, mode: GameMode, mods: u32)
    requires
        a == b,
    ensures
        chart_map(a, mode) == chart_map(b, mode),
        difficulty_of(chart_map(a, mode), mods) == difficulty_of(chart_map(b, mode), mods),
        max_combo_of(difficulty_of(chart_map(a, mode), mods)) == max_combo_of(
            difficulty_of(chart_map(b, mode), mods),
        ),
        best_perf_of(difficulty_of(chart_map(a, mode), mods)) == best_perf_of(
            difficulty_of(chart_map(b, mode), mods),
        ),
{
}

/// The difficulty of a chart and the three performance figures of a play
/// over it.
pub struct GetPerformance {
    pub diff_attrs: DifficultyAttributes,
    /// The chart's maximum combo.
    pub max_combo: u32,
    /// A perfect play.
    pub max_perf: PerformanceAttributes,
    /// The play as it was.
    pub curr_perf: PerformanceAttributes,
    /// The play without its misses and at the chart's maximum combo; only
    /// where that differs enough from the play.
    pub fc_perf: Option<PerformanceAttributes>,
    /// The chart, converted to the requested ruleset.
    pub map: Beatmap,
}

/// Computes difficulty under `mods` and the performance figures of a play
/// with `statistics` and `combo` on a chart, converted to `ruleset`. A chart
/// that holds a slider path that ends in a lone path type is
/// `ChartParseError`. The full-combo projection is computed only where the
/// play missed or fell 20 or more short of the chart's maximum combo.
pub fn get_performance(
    chart: &str,
    ruleset: GameMode,
    mods_bits: u32,
    combo: u32,
    statistics: &HitStatistics,
) -> (r: Result<GetPerformance, PipelineError>)
    ensures
        r.is_err() == has_bare_path_letter(chart.spec_bytes()),
        r.is_err() ==> r == Err::<GetPerformance, PipelineError>(PipelineError::ChartParseError),
        r.is_ok() ==> performance_of_play(r.unwrap(), chart@, ruleset, mods_bits, combo, *statistics),
{
    if find_bare_path_letter(chart.as_bytes()) {
        return Err(PipelineError::ChartParseError);
    }
    let mut map = match parse_chart(chart) {
        Some(m) => m,
        None => {
            return Err(PipelineError::ChartParseError);
        },
    };
    convert_chart(&mut map, ruleset);
    let diff_attrs = difficulty(&map, mods_bits);
    let chart_max = max_combo(&diff_attrs);
    let max_perf = best_performance(&diff_attrs);
    let curr_perf = play_performance(&diff_attrs, statistics, combo);
    let fc_perf = if fc_projection_needed(statistics.miss, combo, chart_max) {
        let fc = fc_statistics(*statistics);
        Some(play_performance(&diff_attrs, &fc, chart_max))
    } else {
        None
    };
    Ok(GetPerformance { diff_attrs, max_combo: chart_max, max_perf, curr_perf, fc_perf, map })
}

/// Whether `p` holds the figures of a play with `s` and `combo` on the chart
/// `text`, converted to `mode`, under `mods`: the chart's difficulty and
/// maximum combo, a perfect play, the play as it was, and, where the play
/// missed or fell 20 or more short of the maximum combo, the play without its
/// misses at the maximum combo.
pub open spec fn performance_of_play(
    p: GetPerformance,
    text: Seq<char>,
    mode: GameMode,
    mods: u32,
    combo: u32,
    s: HitStatistics,
) -> bool {
    &&& p.map == chart_map(text, mode)
    &&& p.diff_attrs == difficulty_of(p.map, mods)
    &&& p.max_combo == max_combo_of(p.diff_attrs)
    &&& p.max_perf == best_perf_of(p.diff_attrs)
    &&& p.curr_perf == play_perf_of(p.diff_attrs, s, combo)
    &&& p.fc_perf.is_some() == fc_projection_wanted(s.miss, combo, p.max_combo)
    &&& p.fc_perf.is_some() ==> p.fc_perf.unwrap() == play_perf_of(
        p.diff_attrs,
        fc_statistics_of(s),
        p.max_combo,
    )
}

/// A play as the stats service reports it.
#[derive(Clone, Copy, Debug, PartialEq, Eq, Structural)]
pub struct ScoreInfo {
    pub mode: GameMode,
    pub mods: u32,
    /// The highest combo reached.
    pub combo: u32,
    pub statistics: HitStatistics,
}

/// Everything computed for one play.
pub struct ScoreReport {
    pub performance: GetPerformance,
    /// Accuracy in hundredths of a percent; `None` where nothing was judged.
    pub accuracy: Option<u64>,
    /// Accuracy of the full-combo projection, where there is one.
    pub fc_accuracy: Option<u64>,
}

/// The accuracy of a play, or `None` where it judged no object.
pub open spec fn accuracy_if_judged(s: HitStatistics, mode: GameMode) -> Option<u64> {
    if total_hits_of(s, mode) > 0 {
        Some(accuracy_of(s, mode) as u64)
    } else {
        None
    }
}

/// Computes the figures of one play on its chart: performance, accuracy, and
/// the accuracy of its full-combo projection where that is shown.
pub fn score_report(chart: &str, score: &ScoreInfo) -> (r: Result<ScoreReport, PipelineError>)
    ensures
        r.is_err() == has_bare_path_letter(chart.spec_bytes()),
        r.is_err() ==> r == Err::<ScoreReport, PipelineError>(PipelineError::ChartParseError),
        r.is_ok() ==> {
            let p = r.unwrap();
            &&& performance_of_play(
                p.performance,
                chart@,
                score.mode,
                score.mods,
                score.combo,
                score.statistics,
            )
            &&& p.accuracy == accuracy_if_judged(score.statistics, score.mode)
            &&& p.fc_accuracy == if p.performance.fc_perf.is_some() {
                accuracy_if_judged(fc_statistics_of(score.statistics), score.mode)
            } else {
                None
            }
        },
{
    let performance = match get_performance(
        chart,
        score.mode,
        score.mods,
        score.combo,
        &score.statistics,
    ) {
        Ok(p) => p,
        Err(e) => {
            return Err(e);
        },
    };
    let acc = judged_accuracy(score.statistics, score.mode);
    let fc_accuracy = if performance.fc_perf.is_some() {
        judged_accuracy(fc_statistics(score.statistics), score.mode)
    } else {
        None
    };
    Ok(ScoreReport { performance, accuracy: acc, fc_accuracy })
}

/// The accuracy of a play, or `None` where it judged no object.
pub fn judged_accuracy(s: HitStatistics, mode: GameMode) -> (r: Option<u64>)
    ensures
        r == accuracy_if_judged(s, mode),
{
    if s.total_hits(mode) > 0 {
        Some(accuracy(s, mode))
    } else {
        None
    }
}

} // verus!
