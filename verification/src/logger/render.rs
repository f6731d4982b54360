//! What the logger has from outside: the text of a time of day, and the
//! colouring of a text for the terminal. Nothing in this file is proved; each
//! contract says what is taken on trust.
use vstd::prelude::*;
use crate::logger::level::Color;

verus! {

/// The text that the `time` crate writes for the moment `nanos` nanoseconds
/// after the Unix epoch, in UTC, under the format description `description`;
/// nothing where the description is not well formed or the moment cannot be
/// written.
pub uninterp spec fn spec_format_unix_nanos(nanos: i128, description: Seq<char>) -> Option<Seq<char>>;

/// Calls `time::OffsetDateTime::format` on the date-time that
/// `time::OffsetDateTime::from_unix_timestamp_nanos` makes of `nanos`, with
/// the items that `time::format_description::parse` makes of `description`.
/// Trusted: the three are functions of their arguments alone (the date-time
/// is in UTC, no locale and no clock is consulted), so the text depends on
/// `nanos` and `description` only. An error of any of the three gives `None`.
#[verifier::external_body]
pub(crate) fn format_unix_nanos(nanos: i128, description: &str) -> (text: Option<String>)
    ensures
        text is Some <==> spec_format_unix_nanos(nanos, description@) is Some,
        text is Some ==> text->Some_0@ == spec_format_unix_nanos(nanos, description@)->Some_0,
{
    let items = time::format_description::parse(description).ok()?;
    let moment = time::OffsetDateTime::from_unix_timestamp_nanos(nanos).ok()?;
    moment.format(&items).ok()
}

/// Whether `styled` is `text` with something put before and behind it.
pub open spec fn spec_is_painted(styled: Seq<char>, text: Seq<char>) -> bool {
    exists|before: Seq<char>, behind: Seq<char>| styled == before + text + behind
}

/// Calls `console::style` on `text`, sets the foreground colour with
/// `StyledObject::fg` and writes the styled text out. Trusted: the text
/// itself is written unchanged; before and behind it stand the escape
/// sequences of the colour or, where the terminal or the environment of the
/// process has colours switched off, nothing. Which of the two is not said.
#[verifier::external_body]
pub(crate) fn paint(text: &str, color: Color) -> (styled: String)
    ensures
        spec_is_painted(styled@, text@),
{
    let fg = match color {
        Color::Red => console::Color::Red,
        Color::Yellow => console::Color::Yellow,
        Color::Green => console::Color::Green,
        Color::White => console::Color::White,
        Color::Color256(c) => console::Color::Color256(c),
    };
    console::style(text).fg(fg).to_string()
}

/// Calls `console::style` on `text`, sets the foreground colour with
/// `StyledObject::fg` and bold type with `StyledObject::bold`, and writes the
/// styled text out. Trusted: as for `paint`.
#[verifier::external_body]
pub(crate) fn paint_bold(text: &str, color: Color) -> (styled: String)
    ensures
        spec_is_painted(styled@, text@),
{
    let fg = match color {
        Color::Red => console::Color::Red,
        Color::Yellow => console::Color::Yellow,
        Color::Green => console::Color::Green,
        Color::White => console::Color::White,
        Color::Color256(c) => console::Color::Color256(c),
    };
    console::style(text).bold().fg(fg).to_string()
}

} // verus!

verus! {

/// Calls `String::from_utf8`. Trusted: where the bytes are valid UTF-8 the
/// result is the string that they encode, and otherwise there is none.
#[verifier::external_body]
pub(crate) fn string_from_utf8(bytes: Vec<u8>) -> (s: Option<String>)
    ensures
        vstd::utf8::valid_utf8(bytes@) ==> s is Some && s->Some_0@ == vstd::utf8::decode_utf8(
            bytes@,
        ),
        !vstd::utf8::valid_utf8(bytes@) ==> s is None,
{
    String::from_utf8(bytes).ok()
}

} // verus!
