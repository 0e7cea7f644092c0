//! The metadata file of a theme: a flat JSON object with the optional string
//! members `Name`, `Preview`, `GEditTheme` and `ShellTheme`. The JSON itself is
//! read by the `json` crate; this module picks the four members out of it.

use vstd::prelude::*;
use crate::fraction::{has_exponent_overflow, overflows_exponent};

verus! {

/// `json::JsonValue`, a parsed JSON value. Nothing of its inside is known here
/// but what `text_of` and `string_members` name.
#[verifier::external_type_specification]
#[verifier::external_body]
pub struct ExJsonValue(json::JsonValue);

/// `json::Error`, the reason for which `json::parse` rejects a text.
#[verifier::external_type_specification]
#[verifier::external_body]
pub struct ExJsonError(json::Error);

/// The text of a JSON value that is a string; `None` for every other value.
pub uninterp spec fn text_of(value: json::JsonValue) -> Option<Seq<char>>;

/// The string members of a JSON value: where the value is an object, each key
/// under which it holds a string, with the text of that string; empty for any
/// other value.
pub uninterp spec fn string_members(doc: json::JsonValue) -> Map<Seq<char>, Seq<char>>;

/// What `json::parse` makes of `source`: `None` where it rejects the text,
/// else the string members of the value it builds.
pub uninterp spec fn parsed_string_members(source: Seq<char>) -> Option<Map<Seq<char>, Seq<char>>>;

/// The string under `key`, if `members` has one.
pub open spec fn member(members: Map<Seq<char>, Seq<char>>, key: Seq<char>) -> Option<Seq<char>> {
    if members.contains_key(key) {
        Some(members[key])
    } else {
        None
    }
}

/// `json::parse` is a function of the text alone. It returns `Err` exactly where
/// `parsed_string_members` is `None`, and else a value with those string members.
/// Nothing is claimed about which texts it accepts. The parser counts the digits
/// of a fraction in a 16-bit exponent that it does not guard; a text in which a
/// number would take more digits than that exponent can count is not to be
/// handed to it.
pub assume_specification[ json::parse ](source: &str) -> (parsed: Result<
    json::JsonValue,
    json::Error,
>)
    requires
        !overflows_exponent(source@),
    ensures
        match parsed {
            Ok(doc) => parsed_string_members(source@) == Some(string_members(doc)),
            Err(_) => parsed_string_members(source@) is None,
        },
;

/// `JsonValue::as_str` gives the text of a value that is a string, and `None`
/// for every other value.
pub assume_specification<'a>[ json::JsonValue::as_str ](value: &'a json::JsonValue) -> (text:
    Option<&'a str>)
    ensures
        match text {
            Some(s) => text_of(*value) == Some(s@),
            None => text_of(*value) is None,
        },
;

/// Indexing a `JsonValue` by a key (`doc[key]`). Where the value is an object
/// that has a member under `key`, the result is that member; in every other case
/// it is the null value. So the result is a string exactly where `doc` holds a
/// string under `key`, and then has that text.
#[verifier::external_body]
fn member_of<'a>(doc: &'a json::JsonValue, key: &str) -> (found: &'a json::JsonValue)
    ensures
        text_of(*found) == member(string_members(*doc), key@),
{
    &doc[key]
}

/// The string that `doc` holds under `key`, if it holds one.
fn string_member<'a>(doc: &'a json::JsonValue, key: &str) -> (text: Option<&'a str>)
    ensures
        text.deep_view() == member(string_members(*doc), key@),
{
    member_of(doc, key).as_str()
}

/// The four members that a metadata file may give, each absent or a string.
#[derive(Clone, Debug, PartialEq, Eq)]
pub struct ThemeMetadata {
    pub name: Option<String>,
    pub preview: Option<String>,
    pub gedit_theme: Option<String>,
    pub shell_theme: Option<String>,
}

/// `ThemeMetadata` as plain sequences of characters.
pub struct MetadataView {
    pub name: Option<Seq<char>>,
    pub preview: Option<Seq<char>>,
    pub gedit_theme: Option<Seq<char>>,
    pub shell_theme: Option<Seq<char>>,
}

impl View for ThemeMetadata {
    type V = MetadataView;

    open spec fn view(&self) -> MetadataView {
        MetadataView {
            name: self.name.deep_view(),
            preview: self.preview.deep_view(),
            gedit_theme: self.gedit_theme.deep_view(),
            shell_theme: self.shell_theme.deep_view(),
        }
    }
}

impl DeepView for ThemeMetadata {
    type V = MetadataView;

    open spec fn deep_view(&self) -> MetadataView {
        self@
    }
}

/// The string members that reading `text` as JSON gives: none where a number
/// in the text has a fraction that the parser cannot count, or where the parser
/// rejects the text.
pub open spec fn read_string_members(text: Seq<char>) -> Option<Map<Seq<char>, Seq<char>>> {
    if overflows_exponent(text) {
        None
    } else {
        parsed_string_members(text)
    }
}

/// The metadata that a document with the string members `members` gives.
pub open spec fn metadata_of(members: Map<Seq<char>, Seq<char>>) -> MetadataView {
    MetadataView {
        name: member(members, "Name"@),
        preview: member(members, "Preview"@),
        gedit_theme: member(members, "GEditTheme"@),
        shell_theme: member(members, "ShellTheme"@),
    }
}

/// An owned copy of an optional string slice.
pub fn str_to_string(s: Option<&str>) -> (owned: Option<String>)
    ensures
        owned.deep_view() == match s {
            Some(v) => Some(v@),
            None => None,
        },
{
    match s {
        Some(v) => Some(v.to_owned()),
        None => None,
    }
}

/// Reads the text of a metadata file. `None` where a number in the text has a
/// fraction that the parser cannot count, or where the text is not JSON; else
/// the four members, each present exactly where the document holds a string
/// under its key. A document that is no object has none of them.
pub fn parse_metadata(text: &str) -> (metadata: Option<ThemeMetadata>)
    ensures
        metadata.deep_view() == match read_string_members(text@) {
            Some(members) => Some(metadata_of(members)),
            None => None,
        },
{
    if has_exponent_overflow(text) {
        return None;
    }
    match json::parse(text) {
        Ok(doc) => Some(
            ThemeMetadata {
                name: str_to_string(string_member(&doc, "Name")),
                preview: str_to_string(string_member(&doc, "Preview")),
                gedit_theme: str_to_string(string_member(&doc, "GEditTheme")),
                shell_theme: str_to_string(string_member(&doc, "ShellTheme")),
            },
        ),
        Err(_) => None,
    }
}

} // verus!
