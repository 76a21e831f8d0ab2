//! The terminate-on-failure operations.
//!
//! Applied to a success or a present value, an operation hands the value
//! back unchanged.  Applied to a failure, it renders one line per cause
//! message — the headline under the *error* label, every further cause under
//! the *caused by* label, in chain order — writes them to the error stream,
//! and returns a report that asks for the process to end with status 1.
//! Applied to an absent value, it does the same with a single line holding
//! the configured none-message.
//!
//! Ending the process is a one-line call that cannot return; it stays with
//! the caller, which performs it on seeing [`Termination::Halt`].

use vstd::prelude::*;

use crate::internal::Sealed;
use crate::printer::emit_lines;
use crate::printer::print_caused_by;
use crate::printer::print_error;
use crate::printer::styled_line_of;
use crate::printer::Line;
use crate::registry::caused_by_slot_resolved;
use crate::registry::error_slot_resolved;
use crate::registry::none_message_slot_resolved;
use crate::registry::sep_slot_resolved;
use crate::registry::style_slot_resolved;
use crate::registry::Registry;

verus! {

#[verifier::external_type_specification]
#[verifier::external_body]
pub struct ExAnyhowError(anyhow::Error);

/// Relies on `core::convert::Into`: turns the failure value into the
/// generic chained-error representation.
#[verifier::external_body]
fn into_error<E: Into<anyhow::Error>>(e: E) -> anyhow::Error {
    e.into()
}

/// Relies on `anyhow::Error::chain`: visits every cause message, beginning
/// with the error's own, so the result is never empty.
#[verifier::external_body]
fn chain_messages(error: &anyhow::Error) -> (r: Vec<String>)
    ensures
        r@.len() >= 1,
{
    let mut messages = Vec::new();
    for cause in error.chain() {
        messages.push(cause.to_string());
    }
    messages
}

/// A report of a failure that was printed: the rendered lines, and the
/// status the process is asked to end with.
pub struct Report {
    /// The rendered lines, headline first.
    pub lines: Vec<Line>,
    /// The exit status asked for: always 1.
    pub status: u8,
}

/// What a terminate-on-failure operation came to: either the carried value,
/// or a printed report with the demand to end the process.
pub enum Termination<T> {
    /// The input carried a value; nothing was printed.
    Proceed(T),
    /// The input was a failure or absent; the report's lines were written to
    /// the error stream and the process is to end with the report's status.
    Halt(Report),
}

/// One rendered line of a failure report: line `i` shows the `i`-th cause
/// message, under the *error* label for the headline and under the
/// *caused by* label for every later line, with the separator between label
/// and message.
pub open spec fn failure_line_matches(l: Line, i: int, reg: Registry, msg: Seq<char>) -> bool {
    &&& l.message@ == msg
    &&& if i == 0 {
        reg.error matches Some(s) && l.label == s.value
    } else {
        reg.caused_by matches Some(s) && l.label == s.value
    }
    &&& reg.sep matches Some(s) && l.sep == s.value
    &&& styled_line_of(l.styled@, l.label@, l.sep@, l.message@)
}

/// The lines of a failure report show exactly the given cause messages, in
/// order, labeled as a failure report labels them under the given registry
/// state.
pub open spec fn failure_lines_match(lines: Seq<Line>, reg: Registry, msgs: Seq<Seq<char>>) -> bool {
    &&& lines.len() == msgs.len()
    &&& forall|i: int|
        0 <= i < lines.len() ==> failure_line_matches(#[trigger] lines[i], i, reg, msgs[i])
}

/// Renders and writes one line per cause message — the headline under the
/// *error* label, the rest under the *caused by* label, in chain order —
/// and reports exit status 1.
pub fn report_failure(reg: &mut Registry, messages: &Vec<String>) -> (rep: Report)
    requires
        messages@.len() >= 1,
    ensures
        error_slot_resolved(old(reg).error, final(reg).error),
        sep_slot_resolved(old(reg).sep, final(reg).sep),
        style_slot_resolved(old(reg).message_style, final(reg).message_style),
        final(reg).message_on_none == old(reg).message_on_none,
        messages@.len() == 1 ==> final(reg).caused_by == old(reg).caused_by,
        messages@.len() > 1 ==> caused_by_slot_resolved(old(reg).caused_by, final(reg).caused_by),
        rep.status == 1,
        failure_lines_match(rep.lines@, *final(reg), messages.deep_view()),
{
    let first = print_error(reg, messages[0].as_str());
    let mut lines: Vec<Line> = Vec::new();
    lines.push(first);
    let mut i: usize = 1;
    while i < messages.len()
        invariant
            1 <= i <= messages@.len(),
            lines@.len() == i,
            error_slot_resolved(old(reg).error, reg.error),
            sep_slot_resolved(old(reg).sep, reg.sep),
            style_slot_resolved(old(reg).message_style, reg.message_style),
            reg.message_on_none == old(reg).message_on_none,
            i == 1 ==> reg.caused_by == old(reg).caused_by,
            i > 1 ==> caused_by_slot_resolved(old(reg).caused_by, reg.caused_by),
            forall|j: int|
                0 <= j < i ==> failure_line_matches(#[trigger] lines@[j], j, *reg, messages@[j]@),
        decreases messages@.len() - i,
    {
        let l = print_caused_by(reg, messages[i].as_str());
        lines.push(l);
        i = i + 1;
    }
    emit_lines(&lines);
    proof {
        assert(forall|j: int|
            0 <= j < messages@.len() ==> messages.deep_view()[j] == messages@[j]@);
    }
    Report { lines, status: 1 }
}

/// Renders and writes the single line for an absent value — the configured
/// or default none-message under the *error* label — and reports exit
/// status 1.
pub fn report_none(reg: &mut Registry) -> (rep: Report)
    ensures
        error_slot_resolved(old(reg).error, final(reg).error),
        sep_slot_resolved(old(reg).sep, final(reg).sep),
        style_slot_resolved(old(reg).message_style, final(reg).message_style),
        none_message_slot_resolved(old(reg).message_on_none, final(reg).message_on_none),
        final(reg).caused_by == old(reg).caused_by,
        rep.status == 1,
        final(reg).message_on_none matches Some(m) && failure_lines_match(
            rep.lines@,
            *final(reg),
            seq![m@],
        ),
{
    let message = reg.message_on_none().clone();
    let line = print_error(reg, message.as_str());
    let mut lines: Vec<Line> = Vec::new();
    lines.push(line);
    emit_lines(&lines);
    Report { lines, status: 1 }
}

/// What terminating on a success-or-failure value guarantees: a success
/// comes back untouched, a failure leaves behind a printed report whose
/// lines show some non-empty message chain, labeled and separated as the
/// resolved registry says, with exit status 1.
pub open spec fn result_exit_spec<T, E>(
    input: Result<T, E>,
    prev: Registry,
    next: Registry,
    r: Termination<T>,
) -> bool {
    match input {
        Ok(v) => r == Termination::Proceed(v) && next == prev,
        Err(_) => {
            &&& error_slot_resolved(prev.error, next.error)
            &&& sep_slot_resolved(prev.sep, next.sep)
            &&& style_slot_resolved(prev.message_style, next.message_style)
            &&& next.message_on_none == prev.message_on_none
            &&& (next.caused_by == prev.caused_by || caused_by_slot_resolved(
                prev.caused_by,
                next.caused_by,
            ))
            &&& r matches Termination::Halt(rep)
            &&& rep.status == 1
            &&& exists|msgs: Seq<Seq<char>>|
                msgs.len() >= 1 && #[trigger] failure_lines_match(rep.lines@, next, msgs)
        },
    }
}

/// What terminating on a present-or-absent value guarantees: a present
/// value comes back untouched, an absence leaves behind a printed report of
/// exactly one line showing the resolved none-message under the *error*
/// label, with exit status 1.
pub open spec fn option_exit_spec<T>(
    input: Option<T>,
    prev: Registry,
    next: Registry,
    r: Termination<T>,
) -> bool {
    match input {
        Some(v) => r == Termination::Proceed(v) && next == prev,
        None => {
            &&& error_slot_resolved(prev.error, next.error)
            &&& sep_slot_resolved(prev.sep, next.sep)
            &&& style_slot_resolved(prev.message_style, next.message_style)
            &&& none_message_slot_resolved(prev.message_on_none, next.message_on_none)
            &&& next.caused_by == prev.caused_by
            &&& r matches Termination::Halt(rep)
            &&& rep.status == 1
            &&& next.message_on_none matches Some(m)
            &&& failure_lines_match(rep.lines@, next, seq![m@])
        },
    }
}

/// A trait for exiting processes gracefully.
pub trait ExitOnError<T>: Sealed where Self: Sized {
    /// What the operation guarantees, relating the input, the registry
    /// before and after, and the outcome.
    spec fn exit_spec(self, prev: Registry, next: Registry, r: Termination<T>) -> bool;

    /// Hands a carried value back; on a failure or an absence, prints the
    /// diagnostic lines and demands that the process end with status 1.
    fn exit_on_error(self, reg: &mut Registry) -> (r: Termination<T>)
        ensures
            self.exit_spec(*old(reg), *final(reg), r),
    ;
}

/// Well, if you prefer the word *quit* to *exit*.
///
/// A trait for quitting processes gracefully.
pub trait QuitOnError<T>: Sealed where Self: Sized {
    /// What the operation guarantees, relating the input, the registry
    /// before and after, and the outcome.
    spec fn quit_spec(self, prev: Registry, next: Registry, r: Termination<T>) -> bool;

    /// Hands a carried value back; on a failure or an absence, prints the
    /// diagnostic lines and demands that the process end with status 1.
    fn quit_on_error(self, reg: &mut Registry) -> (r: Termination<T>)
        ensures
            self.quit_spec(*old(reg), *final(reg), r),
    ;
}

impl<T, E: Into<anyhow::Error>> ExitOnError<T> for Result<T, E> {
    open spec fn exit_spec(self, prev: Registry, next: Registry, r: Termination<T>) -> bool {
        result_exit_spec(self, prev, next, r)
    }

    /// Exits on a failure: prints the whole cause chain, headline first.
    fn exit_on_error(self, reg: &mut Registry) -> (r: Termination<T>) {
        match self {
            Ok(value) => Termination::Proceed(value),
            Err(error) => {
                let error: anyhow::Error = into_error(error);
                let messages = chain_messages(&error);
                let rep = report_failure(reg, &messages);
                proof {
                    assert(messages.deep_view().len() >= 1);
                }
                Termination::Halt(rep)
            },
        }
    }
}

impl<T> ExitOnError<T> for Option<T> {
    open spec fn exit_spec(self, prev: Registry, next: Registry, r: Termination<T>) -> bool {
        option_exit_spec(self, prev, next, r)
    }

    /// Exits on an absent value: prints the configured none-message.
    fn exit_on_error(self, reg: &mut Registry) -> (r: Termination<T>) {
        match self {
            Some(value) => Termination::Proceed(value),
            None => Termination::Halt(report_none(reg)),
        }
    }
}

impl<T, E: Into<anyhow::Error>> QuitOnError<T> for Result<T, E> {
    open spec fn quit_spec(self, prev: Registry, next: Registry, r: Termination<T>) -> bool {
        result_exit_spec(self, prev, next, r)
    }

    /// Quits on a failure: prints the whole cause chain, headline first.
    fn quit_on_error(self, reg: &mut Registry) -> (r: Termination<T>) {
        self.exit_on_error(reg)
    }
}

impl<T> QuitOnError<T> for Option<T> {
    open spec fn quit_spec(self, prev: Registry, next: Registry, r: Termination<T>) -> bool {
        option_exit_spec(self, prev, next, r)
    }

    /// Quits on an absent value: prints the configured none-message.
    fn quit_on_error(self, reg: &mut Registry) -> (r: Termination<T>) {
        self.exit_on_error(reg)
    }
}

} // verus!
