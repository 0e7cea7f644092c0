use pop_theme_switcher::catalog::ThemeDescriptor;
use pop_theme_switcher::controller::{
    after_shell_write, theme_name_or_empty, Action, ModeToggler, ThemeSelector, SHELL_KEY,
    SHELL_SCHEMA,
};
use pop_theme_switcher::flags::ThemeVariant;
use pop_theme_switcher::focus::find_active;

fn theme(name: &str, gedit: Option<&str>, shell: Option<&str>) -> ThemeDescriptor {
    ThemeDescriptor {
        name: name.to_string(),
        display_name: name.to_string(),
        preview: "/usr/share/icons/pop-os-branding/pop_icon.svg".to_string(),
        gedit_theme: gedit.map(|s| s.to_string()),
        shell_theme: shell.map(|s| s.to_string()),
    }
}

fn pop_catalog() -> Vec<ThemeDescriptor> {
    vec![theme("Pop", None, Some("Pop")), theme("Pop-dark", Some("pop-dark"), Some("Pop-dark"))]
}

fn armed(themes: Vec<ThemeDescriptor>) -> ThemeSelector {
    let mut selector = ThemeSelector::new(themes);
    selector.arm();
    selector
}

#[test]
fn the_shell_setting() {
    assert_eq!(SHELL_SCHEMA, "org.gnome.shell.extensions.user-theme");
    assert_eq!(SHELL_KEY, "name");
}

#[test]
fn selecting_a_theme_writes_editor_shell_and_gtk_in_order() {
    let selector = armed(pop_catalog());
    assert_eq!(
        selector.on_select(1),
        vec![
            Action::SetColorScheme("pop-dark".to_string()),
            Action::SetShellTheme("Pop-dark".to_string()),
            Action::SetGtkTheme("Pop-dark".to_string()),
        ]
    );
    assert_eq!(after_shell_write(true), Action::SyncSettings);
}

#[test]
fn selecting_a_theme_without_editor_scheme_skips_the_editor() {
    let selector = armed(pop_catalog());
    assert_eq!(
        selector.on_select(0),
        vec![Action::SetShellTheme("Pop".to_string()), Action::SetGtkTheme("Pop".to_string())]
    );
}

#[test]
fn selecting_a_theme_without_shell_theme_skips_the_shell() {
    let selector = armed(vec![theme("A", Some("a-scheme"), None), theme("B", None, None)]);
    assert_eq!(
        selector.on_select(0),
        vec![Action::SetColorScheme("a-scheme".to_string()), Action::SetGtkTheme("A".to_string())]
    );
    assert_eq!(selector.on_select(1), vec![Action::SetGtkTheme("B".to_string())]);
}

#[test]
fn a_failed_shell_write_is_reported() {
    assert_eq!(after_shell_write(false), Action::ReportShellError);
}

#[test]
fn selecting_twice_gives_the_same_writes() {
    let selector = armed(pop_catalog());
    for index in 0..2 {
        let first = selector.on_select(index);
        let other = selector.on_select(1 - index);
        let second = selector.on_select(index);
        assert_eq!(first, second);
        assert_ne!(first, other);
    }
    assert_eq!(selector.themes(), &pop_catalog());
}

#[test]
fn nothing_is_written_before_the_selector_is_armed() {
    let mut selector = ThemeSelector::new(pop_catalog());
    assert!(!selector.is_armed());
    assert_eq!(selector.on_select(0), Vec::new());
    assert_eq!(selector.on_select(1), Vec::new());
    assert_eq!(selector.on_select(7), Vec::new());
    selector.arm();
    assert!(selector.is_armed());
    assert_eq!(selector.on_select(0).len(), 2);
}

#[test]
fn the_active_entry_is_the_one_named_like_the_current_theme() {
    let selector = ThemeSelector::new(pop_catalog());
    assert_eq!(selector.active_flags(Some("Pop-dark")), vec![false, true]);
    assert_eq!(selector.active_flags(Some("Pop")), vec![true, false]);
    assert_eq!(selector.active_flags(Some("pop")), vec![false, false]);
    assert_eq!(selector.active_flags(Some("Pop-dar")), vec![false, false]);
    assert_eq!(selector.active_flags(None), vec![false, false]);
    assert_eq!(ThemeSelector::new(Vec::new()).active_flags(Some("Pop")), Vec::<bool>::new());
}

#[test]
fn no_current_theme_counts_as_the_empty_name() {
    assert_eq!(theme_name_or_empty(None), "");
    assert_eq!(theme_name_or_empty(Some("Pop")), "Pop");
    let selector = ThemeSelector::new(vec![theme("", None, None), theme("Pop", None, None)]);
    assert_eq!(selector.active_flags(None), vec![true, false]);
}

#[test]
fn toggling_dark_on_a_slim_theme() {
    let mut toggler = ModeToggler::new(Some("Pop-slim"));
    assert!(!toggler.flags().is_dark());
    assert!(toggler.flags().is_slim());
    let actions = toggler.on_toggle(ThemeVariant::Dark, true);
    assert_eq!(
        actions,
        vec![
            Action::SetColorScheme("pop-dark".to_string()),
            Action::SetGtkTheme("Pop-slim-dark".to_string()),
        ]
    );
    assert!(actions.iter().all(|a| !matches!(a, Action::SetShellTheme(_) | Action::SyncSettings)));
    assert_eq!(toggler.flags().resolve(), ("Pop-slim-dark", "pop-dark"));
}

#[test]
fn toggling_walks_through_all_four_themes() {
    let mut toggler = ModeToggler::new(None);
    assert_eq!(toggler.flags().resolve(), ("Pop", "pop-light"));
    assert_eq!(
        toggler.on_toggle(ThemeVariant::Slim, true),
        vec![
            Action::SetColorScheme("pop-light".to_string()),
            Action::SetGtkTheme("Pop-slim".to_string()),
        ]
    );
    assert_eq!(
        toggler.on_toggle(ThemeVariant::Dark, true),
        vec![
            Action::SetColorScheme("pop-dark".to_string()),
            Action::SetGtkTheme("Pop-slim-dark".to_string()),
        ]
    );
    assert_eq!(
        toggler.on_toggle(ThemeVariant::Slim, false),
        vec![
            Action::SetColorScheme("pop-dark".to_string()),
            Action::SetGtkTheme("Pop-dark".to_string()),
        ]
    );
    assert_eq!(
        toggler.on_toggle(ThemeVariant::Dark, false),
        vec![
            Action::SetColorScheme("pop-light".to_string()),
            Action::SetGtkTheme("Pop".to_string()),
        ]
    );
}

#[test]
fn toggling_to_the_same_value_twice_changes_nothing_more() {
    let mut toggler = ModeToggler::new(Some("Pop-dark"));
    let first = toggler.on_toggle(ThemeVariant::Dark, true);
    let state = toggler.flags();
    let second = toggler.on_toggle(ThemeVariant::Dark, true);
    assert_eq!(first, second);
    assert_eq!(toggler.flags(), state);
}

#[test]
fn find_active_gives_the_first_active_item() {
    assert_eq!(find_active(&vec![Some(false), None, Some(true), Some(true)]), Some(2));
    assert_eq!(find_active(&vec![Some(true)]), Some(0));
    assert_eq!(find_active(&vec![None, Some(false), Some(true)]), Some(2));
}

#[test]
fn find_active_gives_none_without_an_active_item() {
    assert_eq!(find_active(&Vec::new()), None);
    assert_eq!(find_active(&vec![None, None]), None);
    assert_eq!(find_active(&vec![Some(false), None, Some(false)]), None);
}

fn perform_all(actions: Vec<Action>, shell_written: bool) -> Vec<Action> {
    let mut performed = Vec::new();
    for action in actions {
        let follows = matches!(action, Action::SetShellTheme(_));
        performed.push(action);
        if follows {
            performed.push(after_shell_write(shell_written));
        }
    }
    performed
}

#[test]
fn the_store_is_flushed_between_the_shell_write_and_the_gtk_theme() {
    let selector = armed(pop_catalog());
    assert_eq!(
        perform_all(selector.on_select(1), true),
        vec![
            Action::SetColorScheme("pop-dark".to_string()),
            Action::SetShellTheme("Pop-dark".to_string()),
            Action::SyncSettings,
            Action::SetGtkTheme("Pop-dark".to_string()),
        ]
    );
    assert_eq!(
        perform_all(selector.on_select(0), false),
        vec![
            Action::SetShellTheme("Pop".to_string()),
            Action::ReportShellError,
            Action::SetGtkTheme("Pop".to_string()),
        ]
    );
}
