//! The texts that are kept from the JSON parser. The parser counts the digits
//! of a fraction in a 16-bit exponent that it does not guard: for a number that
//! starts with `0.`, each digit behind the point that its mantissa takes lowers
//! the exponent by one. This module finds the texts in which such a number,
//! outside of any string, would take more digits than the exponent can count.

use vstd::prelude::*;
use crate::text::chars_of;

verus! {

/// From this mantissa on, the parser takes a further digit only where the
/// mantissa with that digit still fits in 64 bits.
pub const MAX_PRECISION: u64 = 576460752303423500;

/// The number of fraction digits that the parser's exponent can count.
pub const MAX_EXPONENT_STEPS: usize = 32768;

/// Where a position of a text stands with respect to the strings in it.
#[derive(Clone, Copy, Debug, PartialEq, Eq)]
pub enum Lex {
    /// Outside of any string.
    Outside,
    /// Inside a string.
    Inside,
    /// Inside a string, directly behind a backslash.
    Escaped,
}

/// The state behind the character `c`, read in the state `state`: a quote opens
/// and closes a string, and inside a string a backslash takes the character
/// behind it out of play.
pub open spec fn lex_step(state: Lex, c: char) -> Lex {
    match state {
        Lex::Outside => if c == '"' {
            Lex::Inside
        } else {
            Lex::Outside
        },
        Lex::Inside => if c == '\\' {
            Lex::Escaped
        } else if c == '"' {
            Lex::Outside
        } else {
            Lex::Inside
        },
        Lex::Escaped => Lex::Inside,
    }
}

/// The state in which the character at `upto` is read.
pub open spec fn lex_state(text: Seq<char>, upto: int) -> Lex
    decreases upto,
{
    if upto <= 0 || upto > text.len() {
        Lex::Outside
    } else {
        lex_step(lex_state(text, upto - 1), text[upto - 1])
    }
}

/// `c` is one of the decimal digits `0` to `9`.
pub open spec fn is_digit(c: char) -> bool {
    '0' <= c && c <= '9'
}

/// The value of the decimal digit `c`.
pub open spec fn digit_value(c: char) -> nat {
    (c as u32 - '0' as u32) as nat
}

/// `c` is one of the six characters that the parser skips between tokens.
pub open spec fn is_whitespace(c: char) -> bool {
    c == ' ' || ('\t' <= c && c <= '\r')
}

/// A value may start at `at` only at the start of the text or behind
/// whitespace, an opening bracket, a comma, a colon or a minus sign.
pub open spec fn may_start_value(text: Seq<char>, at: int) -> bool {
    at == 0 || (0 < at <= text.len() && (is_whitespace(text[at - 1]) || text[at - 1] == '['
        || text[at - 1] == ',' || text[at - 1] == ':' || text[at - 1] == '-'))
}

/// Whether a mantissa takes a further digit.
pub open spec fn takes_digit(mantissa: nat, digit: nat) -> bool {
    mantissa < MAX_PRECISION || mantissa * 10 + digit <= u64::MAX
}

/// How often the exponent is lowered for the digits that stand at `from` and
/// behind it, up to the first character that is no digit, by a number whose
/// mantissa so far is `mantissa`: once for each digit that the mantissa takes.
pub open spec fn exponent_steps(text: Seq<char>, from: int, mantissa: nat) -> nat
    decreases text.len() - from,
{
    if from < 0 || from >= text.len() || !is_digit(text[from]) {
        0
    } else if takes_digit(mantissa, digit_value(text[from])) {
        1 + exponent_steps(text, from + 1, mantissa * 10 + digit_value(text[from]))
    } else {
        exponent_steps(text, from + 1, mantissa)
    }
}

/// At `at`, outside of any string and where a value may start, stands `0.` with
/// more digits behind it than the exponent can count.
pub open spec fn overflows_at(text: Seq<char>, at: int) -> bool {
    &&& 0 <= at
    &&& at + 1 < text.len()
    &&& lex_state(text, at) == Lex::Outside
    &&& may_start_value(text, at)
    &&& text[at] == '0'
    &&& text[at + 1] == '.'
    &&& exponent_steps(text, at + 2, 0) > MAX_EXPONENT_STEPS
}

/// The text holds a number whose fraction the parser's exponent cannot count.
pub open spec fn overflows_exponent(text: Seq<char>) -> bool {
    exists|at: int| overflows_at(text, at)
}

/// Whether the digits from `from` on lower the exponent of a number with the
/// mantissa zero more often than it can count.
fn counts_too_many(chars: &Vec<char>, from: usize) -> (too_many: bool)
    requires
        from <= chars.len(),
    ensures
        too_many == (exponent_steps(chars@, from as int, 0) > MAX_EXPONENT_STEPS),
{
    let mut mantissa: u64 = 0;
    let mut steps: usize = 0;
    let mut at: usize = from;
    while at < chars.len()
        invariant
            from <= at <= chars.len(),
            steps <= MAX_EXPONENT_STEPS,
            exponent_steps(chars@, from as int, 0) == steps + exponent_steps(
                chars@,
                at as int,
                mantissa as nat,
            ),
        decreases chars.len() - at,
    {
        let c = chars[at];
        if !('0' <= c && c <= '9') {
            return false;
        }
        let digit: u64 = (c as u32 - '0' as u32) as u64;
        if mantissa < MAX_PRECISION {
            mantissa = mantissa * 10 + digit;
            steps += 1;
        } else if mantissa <= (u64::MAX - digit) / 10 {
            mantissa = mantissa * 10 + digit;
            steps += 1;
        }
        if steps > MAX_EXPONENT_STEPS {
            return true;
        }
        at += 1;
    }
    false
}

/// Whether `c` may stand directly before a value.
fn may_precede_value(c: char) -> (may: bool)
    ensures
        may == (is_whitespace(c) || c == '[' || c == ',' || c == ':' || c == '-'),
{
    c == ' ' || ('\t' <= c && c <= '\r') || c == '[' || c == ',' || c == ':' || c == '-'
}

/// Whether the text holds, outside of any string and where a value may start,
/// a number that starts with `0.` and has more digits behind the point than the
/// parser's exponent can count.
pub fn has_exponent_overflow(text: &str) -> (found: bool)
    ensures
        found == overflows_exponent(text@),
{
    let chars = chars_of(text);
    let mut state = Lex::Outside;
    let mut at: usize = 0;
    while at < chars.len()
        invariant
            chars@ == text@,
            at <= chars.len(),
            state == lex_state(chars@, at as int),
            forall|k: int| 0 <= k < at ==> !overflows_at(chars@, k),
        decreases chars.len() - at,
    {
        let c = chars[at];
        match state {
            Lex::Outside => {
                if c == '0' && at + 1 < chars.len() && chars[at + 1] == '.' && (at == 0
                    || may_precede_value(chars[at - 1])) {
                    if counts_too_many(&chars, at + 2) {
                        assert(overflows_at(chars@, at as int));
                        return true;
                    }
                }
                if c == '"' {
                    state = Lex::Inside;
                }
            },
            Lex::Inside => {
                if c == '\\' {
                    state = Lex::Escaped;
                } else if c == '"' {
                    state = Lex::Outside;
                }
            },
            Lex::Escaped => {
                state = Lex::Inside;
            },
        }
        at += 1;
    }
    assert forall|k: int| !overflows_at(chars@, k) by {}
    false
}

/// The exponent is lowered at most once for each character that is left.
pub proof fn lemma_steps_within_length(text: Seq<char>, from: int, mantissa: nat)
    requires
        0 <= from <= text.len(),
    ensures
        exponent_steps(text, from, mantissa) <= text.len() - from,
    decreases text.len() - from,
{
    if from < text.len() && is_digit(text[from]) {
        if takes_digit(mantissa, digit_value(text[from])) {
            lemma_steps_within_length(text, from + 1, mantissa * 10 + digit_value(text[from]));
        } else {
            lemma_steps_within_length(text, from + 1, mantissa);
        }
    }
}

/// A text of no more characters than `0.` and as many digits as the exponent
/// can count is never kept from the parser.
pub proof fn lemma_short_text_does_not_overflow(text: Seq<char>)
    requires
        text.len() <= MAX_EXPONENT_STEPS + 2,
    ensures
        !overflows_exponent(text),
{
    assert forall|at: int| !overflows_at(text, at) by {
        if 0 <= at && at + 1 < text.len() {
            lemma_steps_within_length(text, at + 2, 0);
        }
    }
}

} // verus!
