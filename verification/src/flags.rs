//! The two display modes, dark and slim, kept as a set of two bits, and the
//! theme and editor scheme that each combination of them stands for.

use vstd::prelude::*;
use crate::text::{contains, is_substring};

verus! {

/// The bit of the dark mode.
pub const DARK: u8 = 0b01;

/// The bit of the slim mode.
pub const SLIM: u8 = 0b10;

/// One of the two modes that a user can switch on and off.
#[derive(Clone, Copy, Debug, PartialEq, Eq)]
pub enum ThemeVariant {
    Dark,
    Slim,
}

/// The two modes as plain booleans.
pub struct Flags {
    pub dark: bool,
    pub slim: bool,
}

/// The modes that the name of a theme shows: each is on where the name holds
/// its word, in lower case.
pub open spec fn flags_of_name(name: Seq<char>) -> Flags {
    Flags { dark: is_substring(name, "dark"@), slim: is_substring(name, "slim"@) }
}

/// `flags` with the mode `axis` switched to `active`, the other mode as it was.
pub open spec fn applied(flags: Flags, axis: ThemeVariant, active: bool) -> Flags {
    match axis {
        ThemeVariant::Dark => Flags { dark: active, slim: flags.slim },
        ThemeVariant::Slim => Flags { dark: flags.dark, slim: active },
    }
}

/// The GTK theme that a combination of modes stands for.
pub open spec fn resolved_theme(flags: Flags) -> Seq<char> {
    match (flags.dark, flags.slim) {
        (true, true) => "Pop-slim-dark"@,
        (true, false) => "Pop-dark"@,
        (false, true) => "Pop-slim"@,
        (false, false) => "Pop"@,
    }
}

/// The editor scheme that a combination of modes stands for: it follows the
/// dark mode alone.
pub open spec fn resolved_scheme(flags: Flags) -> Seq<char> {
    if flags.dark {
        "pop-dark"@
    } else {
        "pop-light"@
    }
}

/// The state of the two modes. Of its bits only `DARK` and `SLIM` are ever set.
#[derive(Clone, Copy, Debug, PartialEq, Eq)]
pub struct FlagState {
    bits: u8,
}

impl View for FlagState {
    type V = Flags;

    closed spec fn view(&self) -> Flags {
        Flags { dark: self.bits & DARK != 0, slim: self.bits & SLIM != 0 }
    }
}

impl FlagState {
    #[verifier::type_invariant]
    spec fn only_known_bits(self) -> bool {
        self.bits <= (DARK | SLIM)
    }

    /// The state that the name of the active theme shows.
    pub fn from_theme_name(name: &str) -> (state: FlagState)
        ensures
            state@ == flags_of_name(name@),
    {
        assert(0u8 & DARK == 0 && 0u8 & SLIM == 0 && 0u8 <= (DARK | SLIM)) by (bit_vector);
        let unset = FlagState { bits: 0 };
        unset.apply(ThemeVariant::Dark, contains(name, "dark")).apply(
            ThemeVariant::Slim,
            contains(name, "slim"),
        )
    }

    /// Switches the mode `axis` to `active` and leaves the other mode alone.
    pub fn apply(self, axis: ThemeVariant, active: bool) -> (state: FlagState)
        ensures
            state@ == applied(self@, axis, active),
    {
        proof {
            use_type_invariant(&self);
        }
        let b = self.bits;
        assert(b <= (DARK | SLIM) ==> (b | DARK) <= (DARK | SLIM) && (b | SLIM) <= (DARK | SLIM) && (b
            & (255u8 ^ DARK)) <= (DARK | SLIM) && (b & (255u8 ^ SLIM)) <= (DARK | SLIM))
            by (bit_vector);
        assert((b | DARK) & DARK != 0 && (b | DARK) & SLIM == b & SLIM && (b | SLIM) & SLIM != 0 && (b
            | SLIM) & DARK == b & DARK) by (bit_vector);
        assert((b & (255u8 ^ DARK)) & DARK == 0 && (b & (255u8 ^ DARK)) & SLIM == b & SLIM && (b & (
        255u8 ^ SLIM)) & SLIM == 0 && (b & (255u8 ^ SLIM)) & DARK == b & DARK) by (bit_vector);
        let bits = match (axis, active) {
            (ThemeVariant::Dark, true) => b | DARK,
            (ThemeVariant::Dark, false) => b & (255 ^ DARK),
            (ThemeVariant::Slim, true) => b | SLIM,
            (ThemeVariant::Slim, false) => b & (255 ^ SLIM),
        };
        FlagState { bits }
    }

    /// The GTK theme and the editor scheme that the state stands for, in this
    /// order.
    pub fn resolve(self) -> (names: (&'static str, &'static str))
        ensures
            names.0@ == resolved_theme(self@),
            names.1@ == resolved_scheme(self@),
    {
        let b = self.bits;
        assert((b & (DARK | SLIM) == DARK | SLIM) <==> (b & DARK != 0 && b & SLIM != 0))
            by (bit_vector);
        if b & (DARK | SLIM) == DARK | SLIM {
            ("Pop-slim-dark", "pop-dark")
        } else if b & DARK != 0 {
            ("Pop-dark", "pop-dark")
        } else if b & SLIM != 0 {
            ("Pop-slim", "pop-light")
        } else {
            ("Pop", "pop-light")
        }
    }

    /// Whether the dark mode is on.
    pub fn is_dark(&self) -> (dark: bool)
        ensures
            dark == self@.dark,
    {
        self.bits & DARK != 0
    }

    /// Whether the slim mode is on.
    pub fn is_slim(&self) -> (slim: bool)
        ensures
            slim == self@.slim,
    {
        self.bits & SLIM != 0
    }
}

} // verus!
