//! Hit statistics of a score, its accuracy, and when a full-combo projection
//! is worth showing.

use vstd::prelude::*;

use vstd::arithmetic::div_mod::lemma_fundamental_div_mod_converse;

use crate::mode::GameMode;

verus! {

/// The counts of each hit judgment of a score; which ones a mode uses varies.
/// Under catch, `great` counts caught fruits, `ok` caught droplets, `meh`
/// caught tiny droplets and `good` missed tiny droplets.
#[derive(Clone, Copy, Debug, PartialEq, Eq, Structural)]
pub struct HitStatistics {
    pub perfect: u32,
    pub great: u32,
    pub good: u32,
    pub ok: u32,
    pub meh: u32,
    pub miss: u32,
    pub large_tick_hit: u32,
    pub large_tick_miss: u32,
    pub small_tick_hit: u32,
}

/// The number of judged objects of a score under `mode`.
pub open spec fn total_hits_of(s: HitStatistics, mode: GameMode) -> nat {
    match mode {
        GameMode::Osu => (s.ok + s.meh + s.great + s.miss) as nat,
        GameMode::Taiko => (s.ok + s.great + s.miss) as nat,
        GameMode::Catch => (s.great + s.ok + s.meh + s.good + s.miss) as nat,
        GameMode::Mania => (s.ok + s.meh + s.good + s.miss + s.great + s.perfect) as nat,
    }
}

/// Accuracy as a fraction: its numerator and denominator under `mode`.
/// Under catch the caught fruits, droplets and tiny droplets count, over all
/// judgments.
pub open spec fn accuracy_fraction(s: HitStatistics, mode: GameMode) -> (nat, nat) {
    let total = total_hits_of(s, mode);
    match mode {
        GameMode::Taiko => ((s.ok + 2 * s.great) as nat, 2 * total),
        GameMode::Catch => ((s.great + s.ok + s.meh) as nat, total),
        GameMode::Osu => ((50 * s.meh + 100 * s.ok + 300 * s.great) as nat, 300 * total),
        GameMode::Mania => (
            (50 * s.meh + 100 * s.ok + 200 * s.good + 300 * (s.great + s.perfect)) as nat,
            300 * total,
        ),
    }
}

/// `n / d` as a percentage in hundredths, rounded half up.
pub open spec fn rounded_hundredths(n: nat, d: nat) -> nat
    recommends
        d > 0,
{
    (20000 * n + d) / (2 * d)
}

/// The accuracy of a score under `mode`, in hundredths of a percent.
pub open spec fn accuracy_of(s: HitStatistics, mode: GameMode) -> nat {
    rounded_hundredths(accuracy_fraction(s, mode).0, accuracy_fraction(s, mode).1)
}

impl HitStatistics {
    /// Counts the judged objects under `mode`.
    pub fn total_hits(&self, mode: GameMode) -> (r: u64)
        ensures
            r == total_hits_of(*self, mode),
    {
        let s = self;
        match mode {
            GameMode::Osu => s.ok as u64 + s.meh as u64 + s.great as u64 + s.miss as u64,
            GameMode::Taiko => s.ok as u64 + s.great as u64 + s.miss as u64,
            GameMode::Catch => s.great as u64 + s.ok as u64 + s.meh as u64 + s.good as u64
                + s.miss as u64,
            GameMode::Mania => s.ok as u64 + s.meh as u64 + s.good as u64 + s.miss as u64
                + s.great as u64 + s.perfect as u64,
        }
    }
}

/// The accuracy of a score under `mode` in hundredths of a percent
/// (`10000` is 100.00%), rounded half up. The caller makes sure that the
/// score judged at least one object.
pub fn accuracy(statistics: HitStatistics, mode: GameMode) -> (r: u64)
    requires
        total_hits_of(statistics, mode) > 0,
    ensures
        r == accuracy_of(statistics, mode),
        r <= 10000,
{
    let s = statistics;
    let total = s.total_hits(mode);
    let (n, d): (u64, u64) = match mode {
        GameMode::Taiko => (s.ok as u64 + 2 * s.great as u64, 2 * total),
        GameMode::Catch => (s.great as u64 + s.ok as u64 + s.meh as u64, total),
        GameMode::Osu => (
            50 * s.meh as u64 + 100 * s.ok as u64 + 300 * s.great as u64,
            300 * total,
        ),
        GameMode::Mania => (
            50 * s.meh as u64 + 100 * s.ok as u64 + 200 * s.good as u64 + 300 * (s.great as u64
                + s.perfect as u64),
            300 * total,
        ),
    };
    assert(n as nat == accuracy_fraction(s, mode).0 && d as nat == accuracy_fraction(s, mode).1);
    assert(0 < d <= 10_000_000_000_000 && n <= 10_000_000_000_000);
    assert(n <= d);
    assert((20000 * n + d) / (2 * d) <= 10000) by (nonlinear_arith)
        requires
            0 < d,
            n <= d,
    {
        assert(20000 * n + d < 10001 * (2 * d));
    }
    (20000 * n + d) / (2 * d)
}

/// Statistics in which every one of `n` objects got the same standard judgment:
/// a 300 (`great`) or, where `great` is false, a 50.
pub open spec fn uniform_standard(n: u32, great: bool) -> HitStatistics {
    HitStatistics {
        perfect: 0,
        great: if great { n } else { 0 },
        good: 0,
        ok: 0,
        meh: if great { 0 } else { n },
        miss: 0,
        large_tick_hit: 0,
        large_tick_miss: 0,
        small_tick_hit: 0,
    }
}

/// Under standard, a play of only 300s has accuracy 100.00% and a play of only
/// 50s has 16.67% (50/300, rounded), whatever the number of objects.
pub proof fn lemma_uniform_standard_accuracy(n: u32)
    requires
        n > 0,
    ensures
        accuracy_of(uniform_standard(n, true), GameMode::Osu) == 10000,
        accuracy_of(uniform_standard(n, false), GameMode::Osu) == 1667,
{
    let m = n as int;
    assert(20000 * (300 * m) + 300 * m == 10000 * (600 * m) + 300 * m) by (nonlinear_arith);
    lemma_fundamental_div_mod_converse(20000 * (300 * m) + 300 * m, 600 * m, 10000, 300 * m);
    assert(20000 * (50 * m) + 300 * m == 1667 * (600 * m) + 100 * m) by (nonlinear_arith);
    lemma_fundamental_div_mod_converse(20000 * (50 * m) + 300 * m, 600 * m, 1667, 100 * m);
}

/// Whether a full-combo projection differs enough from the play to show:
/// the play missed, or its combo fell at least 20 short of the maximum.
pub open spec fn fc_projection_wanted(miss: u32, combo: u32, max_combo: u32) -> bool {
    miss > 0 || combo + 20 <= max_combo
}

/// A play without misses that ends within 20 combo of the maximum gets no
/// full-combo projection.
pub proof fn lemma_full_combo_projection_suppressed(miss: u32, combo: u32, max_combo: u32)
    requires
        miss == 0,
        max_combo < combo + 20,
    ensures
        !fc_projection_wanted(miss, combo, max_combo),
{
}

/// Decides whether to compute the full-combo projection of a play.
pub fn fc_projection_needed(miss: u32, combo: u32, max_combo: u32) -> (r: bool)
    ensures
        r == fc_projection_wanted(miss, combo, max_combo),
{
    miss > 0 || combo as u64 + 20 <= max_combo as u64
}

/// The statistics of a play with its misses taken away, as a full combo
/// would have it.
pub open spec fn fc_statistics_of(s: HitStatistics) -> HitStatistics {
    HitStatistics { miss: 0, ..s }
}

/// Takes the misses out of a play's statistics.
pub fn fc_statistics(statistics: HitStatistics) -> (r: HitStatistics)
    ensures
        r == fc_statistics_of(statistics),
{
    HitStatistics { miss: 0, ..statistics }
}

/// The judgment counts that a mode shows, in the order it shows them.
pub open spec fn shown_counts(s: HitStatistics, mode: GameMode) -> Seq<u32> {
    match mode {
        GameMode::Osu => seq![s.great, s.ok, s.meh, s.miss],
        GameMode::Mania => seq![s.perfect, s.great, s.good, s.ok, s.meh, s.miss],
        GameMode::Taiko => seq![s.great, s.ok, s.miss],
        GameMode::Catch => seq![s.great, s.large_tick_hit, s.large_tick_miss, s.miss],
    }
}

/// Lists the judgment counts that `mode` shows.
pub fn hit_counts(statistics: &HitStatistics, mode: GameMode) -> (r: Vec<u32>)
    ensures
        r@ == shown_counts(*statistics, mode),
{
    let s = statistics;
    let r = match mode {
        GameMode::Osu => vec![s.great, s.ok, s.meh, s.miss],
        GameMode::Mania => vec![s.perfect, s.great, s.good, s.ok, s.meh, s.miss],
        GameMode::Taiko => vec![s.great, s.ok, s.miss],
        GameMode::Catch => vec![s.great, s.large_tick_hit, s.large_tick_miss, s.miss],
    };
    assert(r@ =~= shown_counts(*statistics, mode));
    r
}

} // verus!
