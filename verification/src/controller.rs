//! The two controllers. Each takes the user's events one at a time and answers
//! with the writes to make, in the order in which they are to be made; making
//! them is the caller's part.

use vstd::prelude::*;
use crate::catalog::{DescriptorView, ThemeDescriptor};
use crate::flags::{
    applied, flags_of_name, resolved_scheme, resolved_theme, FlagState, Flags, ThemeVariant,
};

verus! {

/// The settings schema that holds the shell theme.
pub const SHELL_SCHEMA: &'static str = "org.gnome.shell.extensions.user-theme";

/// The key of the shell theme in `SHELL_SCHEMA`.
pub const SHELL_KEY: &'static str = "name";

/// One step for the caller to perform.
#[derive(Clone, Debug, PartialEq, Eq)]
pub enum Action {
    /// Set the editor's colour scheme; nothing to do where the editor is absent.
    SetColorScheme(String),
    /// Write the shell theme under `SHELL_KEY`, then perform what
    /// `after_shell_write` answers to the outcome, before any later step.
    SetShellTheme(String),
    /// Flush the settings store.
    SyncSettings,
    /// Report that the shell theme could not be written, and go on.
    ReportShellError,
    /// Set the GTK theme of the desktop interface.
    SetGtkTheme(String),
}

/// `Action` as plain sequences of characters.
pub enum ActionView {
    SetColorScheme(Seq<char>),
    SetShellTheme(Seq<char>),
    SyncSettings,
    ReportShellError,
    SetGtkTheme(Seq<char>),
}

impl View for Action {
    type V = ActionView;

    open spec fn view(&self) -> ActionView {
        match self {
            Action::SetColorScheme(scheme) => ActionView::SetColorScheme(scheme@),
            Action::SetShellTheme(theme) => ActionView::SetShellTheme(theme@),
            Action::SyncSettings => ActionView::SyncSettings,
            Action::ReportShellError => ActionView::ReportShellError,
            Action::SetGtkTheme(theme) => ActionView::SetGtkTheme(theme@),
        }
    }
}

impl DeepView for Action {
    type V = ActionView;

    open spec fn deep_view(&self) -> ActionView {
        self@
    }
}

/// What follows a write of the shell theme: a flush of the store where the
/// write succeeded, a report where it failed.
pub open spec fn shell_follow_up(succeeded: bool) -> ActionView {
    if succeeded {
        ActionView::SyncSettings
    } else {
        ActionView::ReportShellError
    }
}

/// What follows a write of the shell theme: a flush of the store where the
/// write succeeded, a report where it failed.
pub fn after_shell_write(succeeded: bool) -> (action: Action)
    ensures
        action@ == shell_follow_up(succeeded),
{
    if succeeded {
        Action::SyncSettings
    } else {
        Action::ReportShellError
    }
}

/// The name of the active theme, or the empty name where none is known.
pub open spec fn name_or_empty(current_theme: Option<Seq<char>>) -> Seq<char> {
    match current_theme {
        Some(name) => name,
        None => Seq::empty(),
    }
}

/// The name of the active theme, or the empty name where none is known.
pub fn theme_name_or_empty<'a>(current_theme: Option<&'a str>) -> (name: &'a str)
    ensures
        name@ == name_or_empty(current_theme.deep_view()),
{
    match current_theme {
        Some(name) => name,
        None => {
            proof {
                reveal_strlit("");
            }
            assert(""@ =~= Seq::<char>::empty());
            ""
        },
    }
}

/// The writes that the choice of `theme` asks for: its editor scheme where it
/// names one, its shell theme where it names one, and its own name as the GTK
/// theme, in this order.
pub open spec fn selection_writes(theme: DescriptorView) -> Seq<ActionView> {
    (match theme.gedit_theme {
        Some(scheme) => seq![ActionView::SetColorScheme(scheme)],
        None => Seq::empty(),
    }) + (match theme.shell_theme {
        Some(shell) => seq![ActionView::SetShellTheme(shell)],
        None => Seq::empty(),
    }) + seq![ActionView::SetGtkTheme(theme.name)]
}

/// All that is performed for `writes` where the write of the shell theme has
/// the outcome `shell_written`: each write in its place, and directly after a
/// write of the shell theme, before any later write, what follows it.
pub open spec fn performed(writes: Seq<ActionView>, shell_written: bool) -> Seq<ActionView>
    decreases writes.len(),
{
    if writes.len() == 0 {
        Seq::empty()
    } else {
        performed(writes.drop_last(), shell_written) + (match writes.last() {
            ActionView::SetShellTheme(_) => seq![writes.last(), shell_follow_up(shell_written)],
            _ => seq![writes.last()],
        })
    }
}

/// All that is performed for the choice of `theme`, in order: its editor scheme
/// where it names one; where it names a shell theme, the write of it and then
/// the flush of the store, or the report where the write failed; and last its
/// own name as the GTK theme.
pub open spec fn selection_steps(theme: DescriptorView, shell_written: bool) -> Seq<ActionView> {
    (match theme.gedit_theme {
        Some(scheme) => seq![ActionView::SetColorScheme(scheme)],
        None => Seq::empty(),
    }) + (match theme.shell_theme {
        Some(shell) => seq![ActionView::SetShellTheme(shell), shell_follow_up(shell_written)],
        None => Seq::empty(),
    }) + seq![ActionView::SetGtkTheme(theme.name)]
}

/// The writes that a combination of modes asks for: its editor scheme, then its
/// GTK theme. The shell theme is not written.
pub open spec fn toggle_writes(flags: Flags) -> Seq<ActionView> {
    seq![
        ActionView::SetColorScheme(resolved_scheme(flags)),
        ActionView::SetGtkTheme(resolved_theme(flags)),
    ]
}

/// The state of a theme picker as plain values.
pub struct SelectorView {
    pub catalog: Seq<DescriptorView>,
    pub armed: bool,
}

/// The writes with which a theme picker answers the choice of entry `index`:
/// none before it is armed, those of the chosen entry after.
pub open spec fn writes_on_select(selector: SelectorView, index: int) -> Seq<ActionView> {
    if selector.armed {
        selection_writes(selector.catalog[index])
    } else {
        Seq::empty()
    }
}

/// The controller of a theme picker. It holds the catalog and a latch that is
/// off while the picker is being put together, so that the events which arise
/// then write nothing.
pub struct ThemeSelector {
    themes: Vec<ThemeDescriptor>,
    ready: bool,
}

impl View for ThemeSelector {
    type V = SelectorView;

    closed spec fn view(&self) -> SelectorView {
        SelectorView { catalog: self.themes.deep_view(), armed: self.ready }
    }
}

impl ThemeSelector {
    /// A picker over `themes`, not armed yet.
    pub fn new(themes: Vec<ThemeDescriptor>) -> (selector: ThemeSelector)
        ensures
            selector@.catalog == themes.deep_view(),
            !selector@.armed,
    {
        ThemeSelector { themes, ready: false }
    }

    /// Arms the picker: from now on a choice is answered with its writes.
    pub fn arm(&mut self)
        ensures
            final(self)@.armed,
            final(self)@.catalog == old(self)@.catalog,
    {
        self.ready = true;
    }

    /// Whether the picker is armed.
    pub fn is_armed(&self) -> (armed: bool)
        ensures
            armed == self@.armed,
    {
        self.ready
    }

    /// The catalog, in its order; an event carries the position of an entry.
    pub fn themes(&self) -> (themes: &Vec<ThemeDescriptor>)
        ensures
            themes.deep_view() == self@.catalog,
    {
        &self.themes
    }

    /// For each entry of the catalog, whether it is the active theme: whether
    /// its name is, character for character, `current_theme`, or the empty name
    /// where that is `None`.
    pub fn active_flags(&self, current_theme: Option<&str>) -> (flags: Vec<bool>)
        ensures
            flags@.len() == self@.catalog.len(),
            forall|i: int|
                0 <= i < flags@.len() ==> flags@[i] == (self@.catalog[i].name == name_or_empty(
                    current_theme.deep_view(),
                )),
    {
        let current: String = theme_name_or_empty(current_theme).to_owned();
        let mut flags: Vec<bool> = Vec::new();
        let mut i: usize = 0;
        while i < self.themes.len()
            invariant
                i <= self.themes.len(),
                flags@.len() == i,
                current@ == name_or_empty(current_theme.deep_view()),
                forall|k: int|
                    0 <= k < i ==> flags@[k] == (self.themes@[k].name@ == current@),
            decreases self.themes.len() - i,
        {
            flags.push(self.themes[i].name == current);
            i += 1;
        }
        flags
    }

    /// Answers the choice of the entry at `index`. Before the picker is armed
    /// the answer is empty. After, it is the entry's editor scheme where it has
    /// one, its shell theme where it has one, and its name as the GTK theme, in
    /// this order. With what follows the shell write performed in its place,
    /// the store is flushed, or the failure reported, before the GTK theme is
    /// set. The picker itself is left as it was.
    pub fn on_select(&self, index: usize) -> (actions: Vec<Action>)
        requires
            self@.armed ==> index < self@.catalog.len(),
        ensures
            actions.deep_view() == writes_on_select(self@, index as int),
            !self@.armed ==> actions@.len() == 0,
            forall|shell_written: bool|
                self@.armed ==> #[trigger] performed(actions.deep_view(), shell_written)
                    == selection_steps(self@.catalog[index as int], shell_written),
    {
        proof {
            if self@.armed {
                lemma_flush_follows_shell_write(self@.catalog[index as int], true);
                lemma_flush_follows_shell_write(self@.catalog[index as int], false);
            }
        }
        let mut actions: Vec<Action> = Vec::new();
        if !self.ready {
            assert(actions.deep_view() =~= Seq::empty());
            return actions;
        }
        let theme = &self.themes[index];
        assert(self.themes.deep_view()[index as int] == theme@);
        match &theme.gedit_theme {
            Some(scheme) => {
                actions.push(Action::SetColorScheme(scheme.clone()));
            },
            None => {},
        }
        let ghost first = actions.deep_view();
        assert(first =~= match theme@.gedit_theme {
            Some(scheme) => seq![ActionView::SetColorScheme(scheme)],
            None => Seq::empty(),
        });
        match &theme.shell_theme {
            Some(shell) => {
                actions.push(Action::SetShellTheme(shell.clone()));
            },
            None => {},
        }
        let ghost second = actions.deep_view();
        assert(second =~= first + match theme@.shell_theme {
            Some(shell) => seq![ActionView::SetShellTheme(shell)],
            None => Seq::empty(),
        });
        actions.push(Action::SetGtkTheme(theme.name.clone()));
        assert(actions.deep_view() =~= second + seq![ActionView::SetGtkTheme(theme@.name)]);
        actions
    }
}

/// The controller of the dark and slim switches: the state of the two modes.
pub struct ModeToggler {
    flags: FlagState,
}

impl View for ModeToggler {
    type V = Flags;

    closed spec fn view(&self) -> Flags {
        self.flags@
    }
}

impl ModeToggler {
    /// The switches as the name of the active theme shows them; with no
    /// active theme both are off.
    pub fn new(current_theme: Option<&str>) -> (toggler: ModeToggler)
        ensures
            toggler@ == flags_of_name(name_or_empty(current_theme.deep_view())),
    {
        ModeToggler { flags: FlagState::from_theme_name(theme_name_or_empty(current_theme)) }
    }

    /// The state of the two modes.
    pub fn flags(&self) -> (flags: FlagState)
        ensures
            flags@ == self@,
    {
        self.flags
    }

    /// Answers a switch: the mode `axis` is set to `active`, the other mode
    /// stays, and the answer is the editor scheme and then the GTK theme of the
    /// new combination.
    pub fn on_toggle(&mut self, axis: ThemeVariant, active: bool) -> (actions: Vec<Action>)
        ensures
            final(self)@ == applied(old(self)@, axis, active),
            actions.deep_view() == toggle_writes(final(self)@),
    {
        self.flags = self.flags.apply(axis, active);
        let (gtk_theme, gedit_scheme) = self.flags.resolve();
        let mut actions: Vec<Action> = Vec::new();
        actions.push(Action::SetColorScheme(gedit_scheme.to_owned()));
        actions.push(Action::SetGtkTheme(gtk_theme.to_owned()));
        assert(actions.deep_view() =~= toggle_writes(self.flags@));
        actions
    }
}

/// Choosing the same entry again gives the same writes. The writes depend on
/// the latch and on the chosen descriptor alone, and a choice leaves the picker
/// as it was: so two pickers in the same state of the latch answer with the same
/// writes wherever the descriptors chosen are the same.
pub proof fn lemma_select_is_repeatable(
    first: SelectorView,
    first_index: int,
    second: SelectorView,
    second_index: int,
)
    requires
        first.armed == second.armed,
        0 <= first_index < first.catalog.len(),
        0 <= second_index < second.catalog.len(),
        first.catalog[first_index] == second.catalog[second_index],
    ensures
        writes_on_select(first, first_index) == writes_on_select(second, second_index),
{
}

/// A picker that is not armed answers every choice with no write at all.
pub proof fn lemma_unarmed_writes_nothing(selector: SelectorView, index: int)
    requires
        !selector.armed,
    ensures
        writes_on_select(selector, index).len() == 0,
{
}

/// The writes of a choice end with the GTK theme, which is the name of the
/// chosen entry. Before it stand the editor scheme and the shell theme, each
/// exactly where the entry names one, the editor scheme first; there is no
/// other write.
pub proof fn lemma_selection_writes_in_order(theme: DescriptorView)
    ensures
        selection_writes(theme).len() == 1 + (if theme.gedit_theme is Some {
            1int
        } else {
            0int
        }) + (if theme.shell_theme is Some {
            1int
        } else {
            0int
        }),
        selection_writes(theme).last() == ActionView::SetGtkTheme(theme.name),
        theme.gedit_theme matches Some(scheme) ==> selection_writes(theme)[0]
            == ActionView::SetColorScheme(scheme),
        theme.shell_theme matches Some(shell) ==> selection_writes(theme)[selection_writes(
            theme,
        ).len() - 2] == ActionView::SetShellTheme(shell),
{
}

/// Setting a mode twice to the same value is setting it once, and the two
/// modes do not touch each other: setting one and then the other gives the same
/// state in either order.
pub proof fn lemma_modes_are_independent(flags: Flags, active: bool, other: bool)
    ensures
        applied(applied(flags, ThemeVariant::Dark, active), ThemeVariant::Dark, active) == applied(
            flags,
            ThemeVariant::Dark,
            active,
        ),
        applied(applied(flags, ThemeVariant::Slim, active), ThemeVariant::Slim, active) == applied(
            flags,
            ThemeVariant::Slim,
            active,
        ),
        applied(applied(flags, ThemeVariant::Dark, active), ThemeVariant::Slim, other) == applied(
            applied(flags, ThemeVariant::Slim, other),
            ThemeVariant::Dark,
            active,
        ),
{
}

/// `performed` of writes that end with `last`.
proof fn lemma_performed_push(writes: Seq<ActionView>, last: ActionView, shell_written: bool)
    ensures
        performed(writes.push(last), shell_written) == performed(writes, shell_written) + (
        match last {
            ActionView::SetShellTheme(_) => seq![last, shell_follow_up(shell_written)],
            _ => seq![last],
        }),
{
    assert(writes.push(last).drop_last() =~= writes);
}

/// What is performed for the writes of a choice is the editor scheme, the shell
/// theme with its flush or report directly behind it, and then the GTK theme:
/// the store is flushed after the shell write and before the GTK theme is set.
pub proof fn lemma_flush_follows_shell_write(theme: DescriptorView, shell_written: bool)
    ensures
        performed(selection_writes(theme), shell_written) == selection_steps(theme, shell_written),
{
    let none = Seq::<ActionView>::empty();
    let editor = match theme.gedit_theme {
        Some(scheme) => seq![ActionView::SetColorScheme(scheme)],
        None => none,
    };
    let gtk = ActionView::SetGtkTheme(theme.name);
    assert(performed(none, shell_written) =~= none);
    assert(performed(editor, shell_written) =~= editor) by {
        if theme.gedit_theme is Some {
            let scheme = ActionView::SetColorScheme(theme.gedit_theme->0);
            assert(editor =~= none.push(scheme));
            lemma_performed_push(none, scheme, shell_written);
        }
    }
    match theme.shell_theme {
        Some(shell) => {
            let write = ActionView::SetShellTheme(shell);
            assert(selection_writes(theme) =~= editor.push(write).push(gtk));
            lemma_performed_push(editor, write, shell_written);
            lemma_performed_push(editor.push(write), gtk, shell_written);
            assert(selection_steps(theme, shell_written) =~= editor + seq![
                write,
                shell_follow_up(shell_written),
            ] + seq![gtk]);
        },
        None => {
            assert(selection_writes(theme) =~= editor.push(gtk));
            lemma_performed_push(editor, gtk, shell_written);
            assert(selection_steps(theme, shell_written) =~= editor + seq![gtk]);
        },
    }
}

} // verus!
