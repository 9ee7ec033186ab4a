use osubot::error::PipelineError;
use osubot::link::User;
use osubot::mode::GameMode;
use osubot::selector::{
    command_kind, page_bounds, resolve_request, select_index, split_command, CommandKind, PlayerRef,
    ScoreList, Selector,
};

#[test]
fn command_word_splits_into_name_and_number() {
    let t = split_command("topmania5").unwrap();
    assert_eq!(t.name, "topmania");
    assert_eq!(t.suffix, Some(5));
    let t = split_command("rp3").unwrap();
    assert_eq!(t.name, "rp");
    assert_eq!(t.suffix, Some(3));
    let t = split_command("recent3mania").unwrap();
    assert_eq!(t.name, "recentmania");
    assert_eq!(t.suffix, Some(3));
    let t = split_command("top").unwrap();
    assert_eq!(t.suffix, None);
}

#[test]
fn malformed_command_words_are_refused() {
    assert!(split_command("5top").is_none());
    assert!(split_command("to5p5").is_none());
    assert!(split_command("").is_none());
    assert!(split_command("top99999999999999999999999").is_none());
}

#[test]
fn command_names_are_dispatched() {
    assert_eq!(command_kind("recentmania"), Some(CommandKind::Recent));
    assert_eq!(command_kind("rs"), Some(CommandKind::Recent));
    assert_eq!(command_kind("topm"), Some(CommandKind::Top));
    assert_eq!(command_kind("mania"), Some(CommandKind::Profile));
    assert_eq!(command_kind("ping"), Some(CommandKind::Ping));
    assert_eq!(command_kind("link"), Some(CommandKind::Link));
    assert_eq!(command_kind("help"), None);
}

#[test]
fn number_in_command_outranks_page_flag() {
    let t = split_command("top5").unwrap();
    let q = resolve_request(&t, vec!["alice", "page=2"], None).unwrap();
    assert_eq!(q.selector, Selector::SingleIndex(4));
    assert_eq!(q.list, ScoreList::Best);
}

#[test]
fn page_flag_selects_a_page_without_number() {
    let t = split_command("top").unwrap();
    let q = resolve_request(&t, vec!["alice", "page=2"], None).unwrap();
    assert_eq!(q.selector, Selector::Page(2));
    let q = resolve_request(&t, vec!["alice", "page=x"], None).unwrap();
    assert_eq!(q.selector, Selector::Page(0));
    let q = resolve_request(&t, vec!["alice", "index=3", "page=2"], None).unwrap();
    assert_eq!(q.selector, Selector::SingleIndex(3));
}

#[test]
fn suffix_zero_means_first_play() {
    let t = split_command("top0").unwrap();
    let q = resolve_request(&t, vec!["alice"], None).unwrap();
    assert_eq!(q.selector, Selector::SingleIndex(0));
}

#[test]
fn recent_defaults_to_latest_play_with_fails() {
    let t = split_command("recent").unwrap();
    let q = resolve_request(&t, vec!["alice"], None).unwrap();
    assert_eq!(q.selector, Selector::SingleIndex(0));
    assert_eq!(q.list, ScoreList::Recent { include_fails: true });
    assert_eq!(q.mode, GameMode::Osu);
    let t = split_command("rp").unwrap();
    let q = resolve_request(&t, vec!["alice"], None).unwrap();
    assert_eq!(q.list, ScoreList::Recent { include_fails: false });
}

#[test]
fn linked_account_fills_in_player_and_mode() {
    let linked = Some(User { bancho_id: 42, mode: GameMode::Taiko });
    let t = split_command("top").unwrap();
    let q = resolve_request(&t, vec!["page=1"], linked).unwrap();
    assert!(matches!(q.player, PlayerRef::Id(42)));
    assert_eq!(q.mode, GameMode::Taiko);
    let t = split_command("topc").unwrap();
    let q = resolve_request(&t, vec![], linked).unwrap();
    assert_eq!(q.mode, GameMode::Catch);
}

#[test]
fn no_player_and_no_link_is_an_error() {
    let t = split_command("top").unwrap();
    let r = resolve_request(&t, vec!["page=1"], None);
    assert!(matches!(r, Err(PipelineError::NoPlayerSpecified)));
}

#[test]
fn index_past_the_list_is_out_of_range() {
    assert_eq!(select_index(3, 10), Err(PipelineError::SelectorOutOfRange));
    assert_eq!(select_index(3, 3), Err(PipelineError::SelectorOutOfRange));
    assert_eq!(select_index(0, 0), Err(PipelineError::SelectorOutOfRange));
    assert_eq!(select_index(5, 2), Ok(2));
}

#[test]
fn pages_hold_five_plays() {
    assert_eq!(page_bounds(100, 0), (0, 5));
    assert_eq!(page_bounds(12, 2), (10, 12));
    assert_eq!(page_bounds(12, 3), (12, 12));
    assert_eq!(page_bounds(12, usize::MAX), (12, 12));
}
