//! The diagnostic printer: renders one line of the form
//! `<label><separator><message>` for the error stream and writes a whole
//! report under a single lock acquisition, so that the lines of one failure
//! are never interleaved with another writer's output.
//!
//! Styling is applied through `owo_colors`, and only when the error stream
//! is detected to support styled output at the moment of rendering; the
//! plain text of each line is fully specified either way.

use vstd::prelude::*;
use vstd::string::StringExecFns;

use owo_colors::OwoColorize;
use std::io::Write;

use crate::registry::caused_by_slot_resolved;
use crate::registry::error_slot_resolved;
use crate::registry::sep_slot_resolved;
use crate::registry::style_slot_resolved;
use crate::registry::Registry;
use crate::registry::Segment;
use crate::style::Color;
use crate::style::TextStyle;

verus! {

#[verifier::external_type_specification]
#[verifier::external_body]
pub struct ExOwoStyle(owo_colors::Style);

/// Relies on owo_colors::Style::new: an empty style to grow from.
pub assume_specification[ owo_colors::Style::new ]() -> owo_colors::Style;

/// Relies on owo_colors::Style::black: sets the foreground colour.
pub assume_specification[ owo_colors::Style::black ](s: owo_colors::Style) -> owo_colors::Style;

/// Relies on owo_colors::Style::red: sets the foreground colour.
pub assume_specification[ owo_colors::Style::red ](s: owo_colors::Style) -> owo_colors::Style;

/// Relies on owo_colors::Style::green: sets the foreground colour.
pub assume_specification[ owo_colors::Style::green ](s: owo_colors::Style) -> owo_colors::Style;

/// Relies on owo_colors::Style::yellow: sets the foreground colour.
pub assume_specification[ owo_colors::Style::yellow ](s: owo_colors::Style) -> owo_colors::Style;

/// Relies on owo_colors::Style::blue: sets the foreground colour.
pub assume_specification[ owo_colors::Style::blue ](s: owo_colors::Style) -> owo_colors::Style;

/// Relies on owo_colors::Style::magenta: sets the foreground colour.
pub assume_specification[ owo_colors::Style::magenta ](s: owo_colors::Style) -> owo_colors::Style;

/// Relies on owo_colors::Style::cyan: sets the foreground colour.
pub assume_specification[ owo_colors::Style::cyan ](s: owo_colors::Style) -> owo_colors::Style;

/// Relies on owo_colors::Style::white: sets the foreground colour.
pub assume_specification[ owo_colors::Style::white ](s: owo_colors::Style) -> owo_colors::Style;

/// Relies on owo_colors::Style::on_black: sets the background colour.
pub assume_specification[ owo_colors::Style::on_black ](s: owo_colors::Style) -> owo_colors::Style;

/// Relies on owo_colors::Style::on_red: sets the background colour.
pub assume_specification[ owo_colors::Style::on_red ](s: owo_colors::Style) -> owo_colors::Style;

/// Relies on owo_colors::Style::on_green: sets the background colour.
pub assume_specification[ owo_colors::Style::on_green ](s: owo_colors::Style) -> owo_colors::Style;

/// Relies on owo_colors::Style::on_yellow: sets the background colour.
pub assume_specification[ owo_colors::Style::on_yellow ](s: owo_colors::Style) -> owo_colors::Style;

/// Relies on owo_colors::Style::on_blue: sets the background colour.
pub assume_specification[ owo_colors::Style::on_blue ](s: owo_colors::Style) -> owo_colors::Style;

/// Relies on owo_colors::Style::on_magenta: sets the background colour.
pub assume_specification[ owo_colors::Style::on_magenta ](s: owo_colors::Style) -> owo_colors::Style;

/// Relies on owo_colors::Style::on_cyan: sets the background colour.
pub assume_specification[ owo_colors::Style::on_cyan ](s: owo_colors::Style) -> owo_colors::Style;

/// Relies on owo_colors::Style::on_white: sets the background colour.
pub assume_specification[ owo_colors::Style::on_white ](s: owo_colors::Style) -> owo_colors::Style;

/// Relies on owo_colors::Style::bold: sets the bold attribute.
pub assume_specification[ owo_colors::Style::bold ](s: owo_colors::Style) -> owo_colors::Style;

/// Relies on owo_colors::Style::italic: sets the italic attribute.
pub assume_specification[ owo_colors::Style::italic ](s: owo_colors::Style) -> owo_colors::Style;

/// Relies on owo_colors::Style::underline: sets the underline attribute.
pub assume_specification[ owo_colors::Style::underline ](s: owo_colors::Style) -> owo_colors::Style;

/// Relies on owo_colors::Style::dimmed: sets the dimmed attribute.
pub assume_specification[ owo_colors::Style::dimmed ](s: owo_colors::Style) -> owo_colors::Style;

/// The outer text shows the inner one whole and in one piece, possibly with
/// something before it and something after it.
pub open spec fn wraps(outer: Seq<char>, inner: Seq<char>) -> bool {
    exists|p: Seq<char>, s: Seq<char>| outer == p + inner + s
}

/// The rendered line shows the label, the separator and the message, whole
/// and in that order, each possibly surrounded by styling codes.
pub open spec fn styled_line_of(
    out: Seq<char>,
    label: Seq<char>,
    sep: Seq<char>,
    msg: Seq<char>,
) -> bool {
    exists|a: Seq<char>, b: Seq<char>, c: Seq<char>, d: Seq<char>|
        out == a + label + b + sep + c + msg + d
}

/// Relies on owo_colors's `OwoColorize::if_supports_color` for the error
/// stream: the result displays either the text itself, or the style's
/// prefix codes, then the text, then the style's suffix codes.
#[verifier::external_body]
fn style_for_stderr(style: owo_colors::Style, text: &str) -> (r: String)
    ensures
        wraps(r@, text@),
{
    format!("{}", text.if_supports_color(owo_colors::Stream::Stderr, |t| t.style(style)))
}

/// Relies on std's `write!` to the locked standard error stream: writes the
/// whole block under one lock acquisition.  A failed write has no channel
/// left to be reported on, so it aborts.
#[verifier::external_body]
fn write_stderr(block: &str) {
    write!(std::io::stderr().lock(), "{}", block).expect("failed printing to stderr");
}

/// Grows an `owo_colors` style with the same colours and attributes as the
/// given plain style description.
fn to_owo(style: &TextStyle) -> owo_colors::Style {
    let mut s = owo_colors::Style::new();
    s = match style.fg {
        None => s,
        Some(Color::Black) => s.black(),
        Some(Color::Red) => s.red(),
        Some(Color::Green) => s.green(),
        Some(Color::Yellow) => s.yellow(),
        Some(Color::Blue) => s.blue(),
        Some(Color::Magenta) => s.magenta(),
        Some(Color::Cyan) => s.cyan(),
        Some(Color::White) => s.white(),
    };
    s = match style.bg {
        None => s,
        Some(Color::Black) => s.on_black(),
        Some(Color::Red) => s.on_red(),
        Some(Color::Green) => s.on_green(),
        Some(Color::Yellow) => s.on_yellow(),
        Some(Color::Blue) => s.on_blue(),
        Some(Color::Magenta) => s.on_magenta(),
        Some(Color::Cyan) => s.on_cyan(),
        Some(Color::White) => s.on_white(),
    };
    if style.bold {
        s = s.bold();
    }
    if style.italic {
        s = s.italic();
    }
    if style.underline {
        s = s.underline();
    }
    if style.dimmed {
        s = s.dimmed();
    }
    s
}

impl Segment {
    /// Renders the segment for the error stream: its text, wrapped in the
    /// style's codes when the stream supports styled output.
    pub fn display(&self) -> (r: String)
        ensures
            wraps(r@, self.value@),
    {
        style_for_stderr(to_owo(&self.style), self.value.as_str())
    }
}

/// One rendered diagnostic line: the plain label, separator and message
/// texts it was built from, and the styled rendering that is written to the
/// error stream.
pub struct Line {
    /// The label text, without styling.
    pub label: String,
    /// The separator text, without styling.
    pub sep: String,
    /// The message text, without styling.
    pub message: String,
    /// The rendered line as written, styling codes included.
    pub styled: String,
}

impl Line {
    /// The line's text without any styling.
    pub open spec fn plain(self) -> Seq<char> {
        self.label@ + self.sep@ + self.message@
    }

    /// Returns the line's text without any styling.
    pub fn plain_text(&self) -> (r: String)
        ensures
            r@ == self.plain(),
    {
        let mut r = self.label.clone();
        r.append(self.sep.as_str());
        r.append(self.message.as_str());
        r
    }
}

/// The shared renderer: resolves the separator and the message style from
/// the registry, wraps the message in a segment with that style, and builds
/// the line `label + separator + message`.
pub fn print(reg: &mut Registry, label: Segment, message: &str) -> (l: Line)
    ensures
        sep_slot_resolved(old(reg).sep, final(reg).sep),
        style_slot_resolved(old(reg).message_style, final(reg).message_style),
        final(reg).error == old(reg).error,
        final(reg).caused_by == old(reg).caused_by,
        final(reg).message_on_none == old(reg).message_on_none,
        l.label == label.value,
        final(reg).sep matches Some(s) ==> l.sep == s.value,
        l.message@ == message@,
        styled_line_of(l.styled@, l.label@, l.sep@, l.message@),
{
    let sep_ref = reg.sep();
    let sep = Segment { style: sep_ref.style, value: sep_ref.value.clone() };
    let msg_style = reg.message_style();
    let message_seg = Segment { style: msg_style, value: String::from_str(message) };
    let styled_label = label.display();
    let styled_sep = sep.display();
    let styled_msg = message_seg.display();
    let mut styled = styled_label;
    styled.append(styled_sep.as_str());
    styled.append(styled_msg.as_str());
    proof {
        let (p1, s1) = choose|p: Seq<char>, s: Seq<char>| styled_label@ == p + label.value@ + s;
        let (p2, s2) = choose|p: Seq<char>, s: Seq<char>| styled_sep@ == p + sep.value@ + s;
        let (p3, s3) = choose|p: Seq<char>, s: Seq<char>|
            styled_msg@ == p + message_seg.value@ + s;
        assert(styled@ =~= p1 + label.value@ + (s1 + p2) + sep.value@ + (s2 + p3)
            + message_seg.value@ + s3);
        assert(styled_line_of(styled@, label.value@, sep.value@, message_seg.value@));
    }
    Line { label: label.value, sep: sep.value, message: message_seg.value, styled }
}

/// Renders a line that uses the *error* label.
pub fn print_error(reg: &mut Registry, message: &str) -> (l: Line)
    ensures
        error_slot_resolved(old(reg).error, final(reg).error),
        sep_slot_resolved(old(reg).sep, final(reg).sep),
        style_slot_resolved(old(reg).message_style, final(reg).message_style),
        final(reg).caused_by == old(reg).caused_by,
        final(reg).message_on_none == old(reg).message_on_none,
        final(reg).error matches Some(s) ==> l.label == s.value,
        final(reg).sep matches Some(s) ==> l.sep == s.value,
        l.message@ == message@,
        styled_line_of(l.styled@, l.label@, l.sep@, l.message@),
{
    let seg = reg.error();
    let label = Segment { style: seg.style, value: seg.value.clone() };
    print(reg, label, message)
}

/// Renders a line that uses the *caused by* label.
pub fn print_caused_by(reg: &mut Registry, message: &str) -> (l: Line)
    ensures
        caused_by_slot_resolved(old(reg).caused_by, final(reg).caused_by),
        sep_slot_resolved(old(reg).sep, final(reg).sep),
        style_slot_resolved(old(reg).message_style, final(reg).message_style),
        final(reg).error == old(reg).error,
        final(reg).message_on_none == old(reg).message_on_none,
        final(reg).caused_by matches Some(s) ==> l.label == s.value,
        final(reg).sep matches Some(s) ==> l.sep == s.value,
        l.message@ == message@,
        styled_line_of(l.styled@, l.label@, l.sep@, l.message@),
{
    let seg = reg.caused_by();
    let label = Segment { style: seg.style, value: seg.value.clone() };
    print(reg, label, message)
}

/// Writes every rendered line to the error stream, each followed by a line
/// break, all under one lock acquisition.
pub(crate) fn emit_lines(lines: &Vec<Line>) {
    let mut block = String::new();
    let mut i: usize = 0;
    while i < lines.len()
        decreases lines@.len() - i,
    {
        block.append(lines[i].styled.as_str());
        block.append("\n");
        i = i + 1;
    }
    write_stderr(block.as_str());
}

} // verus!
