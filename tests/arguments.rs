use osubot::args::{flag_value, get_beatmap_link, get_flags, get_mods, get_username};

#[test]
fn flags_are_split_from_other_arguments() {
    let (flags, rest) = get_flags(vec!["alice", "page=2", "index=3", "bob"]);
    assert_eq!(
        flags,
        vec![("page".to_string(), "2".to_string()), ("index".to_string(), "3".to_string())]
    );
    assert_eq!(rest, vec!["alice", "bob"]);
}

#[test]
fn consecutive_flags_are_all_taken() {
    let (flags, rest) = get_flags(vec!["a=1", "b=2", "c"]);
    assert_eq!(flags.len(), 2);
    assert_eq!(rest, vec!["c"]);
}

#[test]
fn tokens_with_two_equal_signs_are_not_flags() {
    let (flags, rest) = get_flags(vec!["a=b=c", "=", "x="]);
    assert_eq!(
        flags,
        vec![("".to_string(), "".to_string()), ("x".to_string(), "".to_string())]
    );
    assert_eq!(rest, vec!["a=b=c"]);
}

#[test]
fn later_flag_overrides_earlier() {
    let (flags, _) = get_flags(vec!["page=1", "page=4"]);
    assert_eq!(flag_value(&flags, "page"), Some("4".to_string()));
    assert_eq!(flag_value(&flags, "index"), None);
}

#[test]
fn mods_are_taken_from_plus_arguments() {
    let (mods, rest) = get_mods(vec!["+HDHR", "alice", "+QQ", "+DT"]);
    assert_eq!(mods, vec!["HDHR", "DT"]);
    assert_eq!(rest, vec!["alice", "+QQ"]);
}

#[test]
fn acronyms_the_reader_cannot_take_are_not_mods() {
    // a known three-letter acronym and one more character, and non-ASCII text
    let (mods, rest) = get_mods(vec!["+SV21", "+HDSV2", "+HD\u{e9}"]);
    assert_eq!(mods, vec!["HDSV2"]);
    assert_eq!(rest, vec!["+SV21", "+HD\u{e9}"]);
}

#[test]
fn beatmap_link_takes_any_decimal_digits() {
    let (link, rest) = get_beatmap_link(vec!["https://osu.ppy.sh/b/12\u{663}x"]);
    assert_eq!(link.unwrap().id, "12\u{663}");
    assert!(rest.is_empty());
}

#[test]
fn beatmap_link_is_found_and_removed() {
    let (link, rest) =
        get_beatmap_link(vec!["alice", "https://osu.ppy.sh/b/12345?m=0", "https://osu.ppy.sh/b/7"]);
    let link = link.unwrap();
    assert_eq!(link.url, "https://osu.ppy.sh/b/12345?m=0");
    assert_eq!(link.id, "12345");
    assert_eq!(rest, vec!["alice", "https://osu.ppy.sh/b/7"]);
}

#[test]
fn link_without_digits_is_not_a_beatmap_link() {
    let (link, rest) = get_beatmap_link(vec!["https://osu.ppy.sh/b/", "https://osu.ppy.sh/s/1"]);
    assert!(link.is_none());
    assert_eq!(rest.len(), 2);
}

#[test]
fn quoted_name_wins_over_first_argument() {
    assert_eq!(get_username(vec!["x", "\"bob\""]), Some("bob".to_string()));
    assert_eq!(get_username(vec!["a\"\"c\"d\""]), Some("c".to_string()));
}

#[test]
fn first_argument_is_the_name_without_quotes() {
    assert_eq!(get_username(vec!["alice", "bob"]), Some("alice".to_string()));
    assert_eq!(get_username(vec!["\"\""]), Some("\"\"".to_string()));
    assert_eq!(get_username(vec![]), None);
}
