use osubot::error::PipelineError;
use osubot::mode::GameMode;
use osubot::performance::{get_performance, score_report, ScoreInfo};
use osubot::score::{accuracy, HitStatistics};
use osubot::selector::{resolve_request, select_index, split_command, PlayerRef, Selector};

fn chart(mode: u32, objects: u32) -> String {
    let mut text = format!(
        "osu file format v14\n\n[General]\nMode: {mode}\n\n[Difficulty]\nHPDrainRate:5\n\
         CircleSize:4\nOverallDifficulty:8\nApproachRate:9\nSliderMultiplier:1.4\n\
         SliderTickRate:1\n\n[TimingPoints]\n0,400,4,2,0,100,1,0\n\n[HitObjects]\n"
    );
    for i in 0..objects {
        let x = 64 + 128 * (i % 4);
        let y = 100 + 40 * (i % 5);
        let time = 1000 + 250 * i;
        text.push_str(&format!("{x},{y},{time},1,0,0:0:0:0:\n"));
    }
    text
}

fn stats() -> HitStatistics {
    HitStatistics {
        perfect: 0,
        great: 0,
        good: 0,
        ok: 0,
        meh: 0,
        miss: 0,
        large_tick_hit: 0,
        large_tick_miss: 0,
        small_tick_hit: 0,
    }
}

#[test]
fn difficulty_is_deterministic() {
    let text = chart(0, 60);
    let s = HitStatistics { great: 55, ok: 3, miss: 2, ..stats() };
    let a = get_performance(&text, GameMode::Osu, 64, 40, &s).unwrap();
    let b = get_performance(&text, GameMode::Osu, 64, 40, &s).unwrap();
    assert!(a.diff_attrs == b.diff_attrs);
    assert_eq!(a.diff_attrs.stars().to_bits(), b.diff_attrs.stars().to_bits());
    assert_eq!(a.max_perf.pp().to_bits(), b.max_perf.pp().to_bits());
    assert_eq!(a.curr_perf.pp().to_bits(), b.curr_perf.pp().to_bits());
    assert_eq!(a.max_combo, b.max_combo);
}

#[test]
fn modifiers_change_difficulty() {
    let text = chart(0, 60);
    let s = HitStatistics { great: 60, ..stats() };
    let plain = get_performance(&text, GameMode::Osu, 0, 60, &s).unwrap();
    let double_time = get_performance(&text, GameMode::Osu, 64, 60, &s).unwrap();
    assert!(double_time.diff_attrs.stars() > plain.diff_attrs.stars());
}

#[test]
fn near_full_combo_gets_no_projection() {
    let text = chart(0, 50);
    let s = HitStatistics { great: 50, ..stats() };
    let p = get_performance(&text, GameMode::Osu, 0, 45, &s).unwrap();
    assert_eq!(p.max_combo, 50);
    assert!(p.fc_perf.is_none());
}

#[test]
fn dropped_combo_or_miss_gets_a_projection() {
    let text = chart(0, 50);
    let s = HitStatistics { great: 50, ..stats() };
    let p = get_performance(&text, GameMode::Osu, 0, 30, &s).unwrap();
    assert!(p.fc_perf.is_some());
    let s = HitStatistics { great: 49, miss: 1, ..stats() };
    let p = get_performance(&text, GameMode::Osu, 0, 49, &s).unwrap();
    let fc = p.fc_perf.unwrap();
    assert!(fc.pp() >= p.curr_perf.pp());
    assert!(p.max_perf.pp() >= p.curr_perf.pp());
}

#[test]
fn slider_path_ending_in_a_lone_type_is_refused() {
    let text = format!("{}256,192,1000,2,0,B|P,1,100\n", chart(0, 3));
    let s = HitStatistics { great: 3, ..stats() };
    let r = get_performance(&text, GameMode::Osu, 0, 3, &s);
    assert!(matches!(r, Err(PipelineError::ChartParseError)));
    let score = ScoreInfo { mode: GameMode::Osu, mods: 0, combo: 3, statistics: s };
    assert!(matches!(score_report(&text, &score), Err(PipelineError::ChartParseError)));
}

#[test]
fn ordinary_slider_paths_are_read() {
    let text = format!("{}256,192,2000,2,0,B|300:200|350:250,1,100\n", chart(0, 3));
    let s = HitStatistics { great: 4, ..stats() };
    assert!(get_performance(&text, GameMode::Osu, 0, 4, &s).is_ok());
}

#[test]
fn report_without_judgments_has_no_accuracy() {
    let text = chart(0, 10);
    let score = ScoreInfo { mode: GameMode::Osu, mods: 0, combo: 0, statistics: stats() };
    let r = score_report(&text, &score).unwrap();
    assert_eq!(r.accuracy, None);
}

#[test]
fn recent_mania_scenario_end_to_end() {
    let token = split_command("recent3mania").unwrap();
    let request = resolve_request(&token, vec!["alice"], None).unwrap();
    assert_eq!(request.selector, Selector::SingleIndex(2));
    assert_eq!(request.mode, GameMode::Mania);
    assert!(matches!(request.player, PlayerRef::Name(ref n) if n == "alice"));

    let text = chart(3, 40);
    let scores: Vec<ScoreInfo> = (0..5u32)
        .map(|i| ScoreInfo {
            mode: GameMode::Mania,
            mods: 0,
            combo: 40 - i,
            statistics: HitStatistics {
                perfect: 30 - i,
                great: 5,
                good: 3,
                ok: 1,
                meh: 1,
                miss: i,
                ..stats()
            },
        })
        .collect();
    let index = match request.selector {
        Selector::SingleIndex(i) => i,
        Selector::Page(_) => panic!("a single play was asked for"),
    };
    let picked = select_index(scores.len(), index).unwrap();
    assert_eq!(picked, 2);
    let report = score_report(&text, &scores[picked]).unwrap();
    // (50*1 + 100*1 + 200*3 + 300*(5+28)) / (300*40) = 88.75%
    assert_eq!(report.accuracy, Some(8875));
    assert_eq!(accuracy(scores[picked].statistics, GameMode::Mania), 8875);
    assert!(report.performance.fc_perf.is_some());
    // the projection drops the two misses: 10650 / (300*38) = 93.42%
    assert_eq!(report.fc_accuracy, Some(9342));
    assert!(report.performance.max_perf.pp() >= report.performance.curr_perf.pp());
    assert_eq!(select_index(scores.len(), 10).err(), Some(PipelineError::SelectorOutOfRange));
}
