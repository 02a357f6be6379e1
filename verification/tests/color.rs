use rclock::cli::{invalid_command_message, select_mode, Mode};
use rclock::color::{parse_color, parse_color_option, Color, UnknownColor};

#[test]
fn every_palette_name_is_found() {
    assert_eq!(parse_color("red"), Some(Color::Red));
    assert_eq!(parse_color("green"), Some(Color::Green));
    assert_eq!(parse_color("blue"), Some(Color::Blue));
    assert_eq!(parse_color("yellow"), Some(Color::Yellow));
    assert_eq!(parse_color("cyan"), Some(Color::Cyan));
    assert_eq!(parse_color("magenta"), Some(Color::Magenta));
    assert_eq!(parse_color("white"), Some(Color::White));
}

#[test]
fn names_outside_the_palette_are_not_found() {
    assert_eq!(parse_color("Red"), None);
    assert_eq!(parse_color("RED"), None);
    assert_eq!(parse_color("orange"), None);
    assert_eq!(parse_color(""), None);
    assert_eq!(parse_color("black"), None);
    assert_eq!(parse_color("red "), None);
    assert_eq!(parse_color(" red"), None);
    assert_eq!(parse_color("grey"), None);
    assert_eq!(parse_color("White"), None);
    assert_eq!(parse_color("purple"), None);
}

#[test]
fn no_name_means_no_override() {
    assert_eq!(parse_color_option(None), Ok(None));
}

#[test]
fn a_palette_name_is_the_override() {
    assert_eq!(parse_color_option(Some("blue")), Ok(Some(Color::Blue)));
    assert_eq!(parse_color_option(Some("white")), Ok(Some(Color::White)));
}

#[test]
fn a_name_outside_the_palette_is_an_error() {
    assert_eq!(parse_color_option(Some("nonsense")), Err(UnknownColor));
    assert_eq!(parse_color_option(Some("Red")), Err(UnknownColor));
    assert_eq!(parse_color_option(Some("orange")), Err(UnknownColor));
    assert_eq!(parse_color_option(Some("")), Err(UnknownColor));
}

#[test]
fn unknown_colour_has_its_message() {
    assert_eq!(
        UnknownColor.message(),
        "Unknown color. Use red, green, blue, yellow, cyan, magenta or white."
    );
}

#[test]
fn palette_names_round_trip() {
    let palette = Color::palette();
    assert_eq!(palette.len(), 7);
    for color in palette.iter() {
        assert_eq!(parse_color(color.name()), Some(*color));
        assert_eq!(parse_color_option(Some(color.name())), Ok(Some(*color)));
    }
    let names: Vec<&str> = palette.iter().map(|c| c.name()).collect();
    assert_eq!(names, vec!["red", "green", "blue", "yellow", "cyan", "magenta", "white"]);
}

#[test]
fn modes_are_selected_by_name() {
    assert_eq!(select_mode("stopwatch"), Some(Mode::Stopwatch));
    assert_eq!(select_mode("alarm"), Some(Mode::Alarm));
    assert_eq!(select_mode("pomodoro"), Some(Mode::Pomodoro));
    assert_eq!(select_mode("timer"), None);
    assert_eq!(select_mode(""), None);
    assert_eq!(select_mode("Alarm"), None);
    for mode in [Mode::Stopwatch, Mode::Alarm, Mode::Pomodoro] {
        assert_eq!(select_mode(mode.name()), Some(mode));
    }
}

#[test]
fn unknown_command_has_its_message() {
    assert_eq!(invalid_command_message(), "Invalid command. Use --help for usage.");
}
