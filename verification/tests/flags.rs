use pop_theme_switcher::flags::{FlagState, ThemeVariant, DARK, SLIM};
use pop_theme_switcher::text::{chars_of, contains};

fn modes(name: &str) -> (bool, bool) {
    let state = FlagState::from_theme_name(name);
    (state.is_dark(), state.is_slim())
}

#[test]
fn the_mode_bits_are_distinct() {
    assert_eq!(DARK, 1);
    assert_eq!(SLIM, 2);
    assert_eq!(DARK & SLIM, 0);
}

#[test]
fn modes_follow_the_words_in_the_name() {
    assert_eq!(modes("Pop"), (false, false));
    assert_eq!(modes("Pop-dark"), (true, false));
    assert_eq!(modes("Pop-slim"), (false, true));
    assert_eq!(modes("Pop-slim-dark"), (true, true));
    assert_eq!(modes(""), (false, false));
}

#[test]
fn modes_match_contains_of_std() {
    let names = [
        "Pop", "Pop-dark", "Pop-slim", "Pop-slim-dark", "dark", "slim", "darkslim", "slimdark",
        "dar", "sli", "ddark", "sslim", "dar-k", "Adwaita", "Adwaita-dark", "d\u{e4}rk", "",
        "darkdark", "xx-slim-yy", "Pop-Dark", "SLIM",
    ];
    for name in names {
        assert_eq!(modes(name), (name.contains("dark"), name.contains("slim")), "{}", name);
    }
}

#[test]
fn modes_are_case_sensitive() {
    assert_eq!(modes("Pop-Dark"), (false, false));
    assert_eq!(modes("Pop-SLIM"), (false, false));
    assert_eq!(modes("Pop-Slim-dark"), (true, false));
}

#[test]
fn resolve_matches_the_table() {
    let unset = FlagState::from_theme_name("Pop");
    let dark = unset.apply(ThemeVariant::Dark, true);
    let slim = unset.apply(ThemeVariant::Slim, true);
    let both = dark.apply(ThemeVariant::Slim, true);
    assert_eq!(both.resolve(), ("Pop-slim-dark", "pop-dark"));
    assert_eq!(dark.resolve(), ("Pop-dark", "pop-dark"));
    assert_eq!(slim.resolve(), ("Pop-slim", "pop-light"));
    assert_eq!(unset.resolve(), ("Pop", "pop-light"));
}

#[test]
fn apply_sets_one_mode_and_keeps_the_other() {
    let both = FlagState::from_theme_name("Pop-slim-dark");
    let no_dark = both.apply(ThemeVariant::Dark, false);
    assert_eq!((no_dark.is_dark(), no_dark.is_slim()), (false, true));
    let no_slim = both.apply(ThemeVariant::Slim, false);
    assert_eq!((no_slim.is_dark(), no_slim.is_slim()), (true, false));
    let neither = no_dark.apply(ThemeVariant::Slim, false);
    assert_eq!((neither.is_dark(), neither.is_slim()), (false, false));
    assert_eq!(neither, FlagState::from_theme_name("Pop"));
}

#[test]
fn apply_twice_is_apply_once() {
    for name in ["Pop", "Pop-dark", "Pop-slim", "Pop-slim-dark"] {
        let state = FlagState::from_theme_name(name);
        for axis in [ThemeVariant::Dark, ThemeVariant::Slim] {
            for active in [false, true] {
                let once = state.apply(axis, active);
                assert_eq!(once.apply(axis, active), once);
            }
        }
    }
}

#[test]
fn the_two_modes_commute() {
    for name in ["Pop", "Pop-dark", "Pop-slim", "Pop-slim-dark"] {
        let state = FlagState::from_theme_name(name);
        for dark in [false, true] {
            for slim in [false, true] {
                let one = state.apply(ThemeVariant::Dark, dark).apply(ThemeVariant::Slim, slim);
                let other = state.apply(ThemeVariant::Slim, slim).apply(ThemeVariant::Dark, dark);
                assert_eq!(one, other);
                assert_eq!((one.is_dark(), one.is_slim()), (dark, slim));
            }
        }
    }
}

#[test]
fn contains_finds_substrings() {
    assert!(contains("Pop-dark", "dark"));
    assert!(contains("dark", "dark"));
    assert!(contains("xdarkx", "dark"));
    assert!(contains("dadark", "dark"));
    assert!(!contains("dar", "dark"));
    assert!(!contains("", "dark"));
    assert!(!contains("d-a-r-k", "dark"));
    assert!(!contains("DARK", "dark"));
}

#[test]
fn contains_finds_the_empty_needle_everywhere() {
    assert!(contains("", ""));
    assert!(contains("Pop", ""));
}

#[test]
fn contains_compares_characters_not_bytes() {
    assert!(contains("th\u{e8}me-\u{1f319}-dark", "\u{1f319}-d"));
    assert!(!contains("th\u{e8}me", "e\u{300}"));
    assert_eq!(chars_of("a\u{e8}\u{1f319}"), vec!['a', '\u{e8}', '\u{1f319}']);
    assert_eq!(chars_of(""), Vec::<char>::new());
}
