use screm_counter::auth::{allow_edit, allow_reset, has_badge};
use screm_counter::command::{parse_command, parse_u32, Command};
use screm_counter::render::render_value;

fn badges(names: &[&str]) -> Vec<String> {
    names.iter().map(|b| String::from(*b)).collect()
}

#[test]
fn exact_commands_parse() {
    assert_eq!(parse_command("!screm"), Command::Screm);
    assert_eq!(parse_command("!noscrem"), Command::Noscrem);
    assert_eq!(parse_command("!reset"), Command::Reset);
    assert_eq!(parse_command("!scremset 42"), Command::SetTo(42));
}

#[test]
fn near_misses_do_not_parse() {
    assert_eq!(parse_command("!screm "), Command::Other);
    assert_eq!(parse_command("!Screm"), Command::Other);
    assert_eq!(parse_command("screm"), Command::Other);
    assert_eq!(parse_command(""), Command::Other);
    assert_eq!(parse_command("!scremset"), Command::Other);
    assert_eq!(parse_command("!scremset "), Command::Other);
}

#[test]
fn scremset_argument_edges() {
    assert_eq!(parse_command("!scremset 0"), Command::SetTo(0));
    assert_eq!(parse_command("!scremset 007"), Command::SetTo(7));
    assert_eq!(parse_command("!scremset +7"), Command::SetTo(7));
    assert_eq!(parse_command("!scremset 4294967295"), Command::SetTo(u32::MAX));
    assert_eq!(parse_command("!scremset 4294967296"), Command::Other);
    assert_eq!(parse_command("!scremset -1"), Command::Other);
    assert_eq!(parse_command("!scremset 4 2"), Command::Other);
    assert_eq!(parse_command("!scremset 42 "), Command::Other);
}

#[test]
fn parse_u32_matches_from_str() {
    for s in ["0", "42", "+42", "007", "4294967295", "4294967296", "", "+", "++1", "a1", "1a",
        " 1", "1 ", "-0"] {
        assert_eq!(parse_u32(s), s.parse::<u32>().ok(), "input {:?}", s);
    }
}

#[test]
fn badge_lookup() {
    assert!(has_badge(&badges(&["vip", "moderator"]), "moderator"));
    assert!(!has_badge(&badges(&["vip"]), "moderator"));
    assert!(!has_badge(&badges(&[]), "moderator"));
}

#[test]
fn reset_level_is_broadcaster_or_moderator() {
    assert!(allow_reset(&badges(&["broadcaster"])));
    assert!(allow_reset(&badges(&["moderator", "subscriber"])));
    assert!(!allow_reset(&badges(&["vip", "subscriber"])));
    assert!(!allow_reset(&badges(&[])));
}

#[test]
fn edit_level_extends_reset_level() {
    assert!(allow_edit(&badges(&["broadcaster"])));
    assert!(allow_edit(&badges(&["vip"])));
    assert!(allow_edit(&badges(&["subscriber"])));
    assert!(!allow_edit(&badges(&["founder"])));
    assert!(!allow_edit(&badges(&[])));
}

#[test]
fn render_is_base_ten_text() {
    assert_eq!(render_value(0), "0");
    assert_eq!(render_value(7), "7");
    assert_eq!(render_value(42), "42");
    assert_eq!(render_value(1000), "1000");
    assert_eq!(render_value(u32::MAX), "4294967295");
}

#[test]
fn render_then_parse_round_trips() {
    for v in [0u32, 1, 9, 10, 99, 100, 123456789, u32::MAX] {
        assert_eq!(parse_u32(&render_value(v)), Some(v));
    }
}
