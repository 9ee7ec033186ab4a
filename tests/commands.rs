use osubot::link::{link_decision, linked_user, LinkOutcome, User};
use osubot::message::{parse_message, split_words};
use osubot::mode::{mode_from_stored, GameMode};
use osubot::error::PipelineError;
use osubot::profile::{resolve_profile_player, ProfileT};
use osubot::selector::PlayerRef;
use osubot::selector::CommandKind;

#[test]
fn words_split_at_any_white_space() {
    assert_eq!(split_words("  a b\t\tc\n"), vec!["a", "b", "c"]);
    assert_eq!(split_words("x\u{3000}y"), vec!["x", "y"]);
    assert_eq!(split_words("   "), Vec::<String>::new());
}

#[test]
fn message_becomes_an_invocation() {
    let inv = parse_message("]top5 alice page=2", false).unwrap();
    assert_eq!(inv.command.name, "top");
    assert_eq!(inv.command.suffix, Some(5));
    assert_eq!(inv.kind, CommandKind::Top);
    assert_eq!(inv.args, vec!["alice", "page=2"]);
}

#[test]
fn messages_that_are_not_commands_are_ignored() {
    assert!(parse_message("]top5 alice", true).is_none());
    assert!(parse_message("top5 alice", false).is_none());
    assert!(parse_message("]", false).is_none());
    assert!(parse_message("]   ", false).is_none());
    assert!(parse_message("]unknown", false).is_none());
    assert!(parse_message("] top", false).is_some());
}

#[test]
fn stored_mode_names() {
    assert_eq!(mode_from_stored("mania"), GameMode::Mania);
    assert_eq!(mode_from_stored("taiko"), GameMode::Taiko);
    assert_eq!(mode_from_stored("ctb"), GameMode::Catch);
    assert_eq!(mode_from_stored("osu"), GameMode::Osu);
    assert_eq!(mode_from_stored("catch"), GameMode::Osu);
}

#[test]
fn linked_user_needs_a_player_id() {
    assert_eq!(linked_user(None, Some("mania")), None);
    assert_eq!(linked_user(Some(7), None), Some(User { bancho_id: 7, mode: GameMode::Osu }));
    assert_eq!(
        linked_user(Some(7), Some("taiko")),
        Some(User { bancho_id: 7, mode: GameMode::Taiko })
    );
}

#[test]
fn linking_twice_is_refused() {
    assert_eq!(link_decision(Some(3), 9), LinkOutcome::AlreadyLinked(3));
    assert_eq!(link_decision(None, 9), LinkOutcome::Link(9));
}

#[test]
fn profile_modes_by_name() {
    assert_eq!(ProfileT::str_to_mode("o"), Ok(GameMode::Osu));
    assert_eq!(ProfileT::str_to_mode("profile"), Ok(GameMode::Osu));
    assert_eq!(ProfileT::str_to_mode("t"), Ok(GameMode::Taiko));
    assert_eq!(ProfileT::str_to_mode("mania"), Ok(GameMode::Mania));
    assert_eq!(ProfileT::str_to_mode("fruits"), Ok(GameMode::Catch));
    assert_eq!(ProfileT::str_to_mode("x"), Err("Couldn't parse the mode.".to_string()));
}

#[test]
fn profile_name_joins_arguments() {
    let p = ProfileT::args(GameMode::Mania, vec!["a", "b c"]);
    assert_eq!(p.name(), Some("ab c".to_string()));
    assert_eq!(p.mode(), GameMode::Mania);
}

#[test]
fn profile_player_from_arguments_else_link() {
    let linked = Some(User { bancho_id: 11, mode: GameMode::Osu });
    assert!(matches!(resolve_profile_player(vec!["a", "b"], linked), Ok(PlayerRef::Name(ref n)) if n == "a b"));
    assert!(matches!(resolve_profile_player(vec![], linked), Ok(PlayerRef::Id(11))));
    assert!(matches!(resolve_profile_player(vec![""], None), Err(PipelineError::NoPlayerSpecified)));
}
