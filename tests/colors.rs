use ff::{colorize, colorize_when, Color};

const ALL: [Color; 11] = [
    Color::Plain,
    Color::Black,
    Color::Red,
    Color::Green,
    Color::Yellow,
    Color::Blue,
    Color::Magenta,
    Color::Cyan,
    Color::White,
    Color::Gray,
    Color::Bold,
];

#[test]
fn test_proper_colorization() {
    assert_eq!(colorize("Lorem ipsum", Color::Black), "\x1B[30mLorem ipsum\x1B[0m");
    assert_eq!(colorize("Lorem ipsum", Color::Red), "\x1B[31mLorem ipsum\x1B[0m");
    assert_eq!(colorize("Lorem ipsum", Color::Green), "\x1B[32mLorem ipsum\x1B[0m");
    assert_eq!(colorize("Lorem ipsum", Color::Yellow), "\x1B[33mLorem ipsum\x1B[0m");
    assert_eq!(colorize("Lorem ipsum", Color::Blue), "\x1B[34mLorem ipsum\x1B[0m");
    assert_eq!(colorize("Lorem ipsum", Color::Magenta), "\x1B[35mLorem ipsum\x1B[0m");
    assert_eq!(colorize("Lorem ipsum", Color::Cyan), "\x1B[36mLorem ipsum\x1B[0m");
    assert_eq!(colorize("Lorem ipsum", Color::White), "\x1B[37mLorem ipsum\x1B[0m");

    assert_eq!(colorize("Lorem ipsum", Color::Bold), "\x1B[97mLorem ipsum\x1B[0m");

    assert_eq!(colorize("Lorem ipsum", Color::Gray), "\x1B[90mLorem ipsum\x1B[0m");
}

#[test]
fn plain_color_leaves_text_alone() {
    assert_eq!(colorize("Lorem ipsum", Color::Plain), "Lorem ipsum");
    assert_eq!(colorize_when("Lorem ipsum", Color::Plain, true), "Lorem ipsum");
}

#[test]
fn disabled_coloring_is_identity_for_every_color() {
    for color in ALL {
        assert_eq!(colorize_when("a\x1B[1mb", color, false), "a\x1B[1mb");
        assert_eq!(colorize_when("", color, false), "");
    }
}

#[test]
fn enabled_coloring_matches_colorize() {
    for color in ALL {
        assert_eq!(colorize_when("x", color, true), colorize("x", color));
    }
    assert_eq!(colorize("", Color::Red), "\x1B[31m\x1B[0m");
}
