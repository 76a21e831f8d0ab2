//! The configuration registry: five independently settable, write-once
//! slots that control the labels, the separator, the message style and the
//! text shown when an absent value is terminated on.
//!
//! Each slot holds at most one value.  The first successful set wins and
//! later sets are no-ops; a read returns the configured value, or stores and
//! returns the built-in default, after which the slot never changes again.

use vstd::prelude::*;
use vstd::string::StringExecFns;

use crate::style::Color;
use crate::style::TextStyle;

verus! {

/// A styled piece of displayable text: a label, a separator or a message.
#[derive(Debug)]
pub struct Segment {
    /// The segment's style.
    pub style: TextStyle,
    /// The segment's text.
    pub value: String,
}

/// What a write-once slot holds after an attempt to set it: the first set
/// fills the slot, every later one leaves it as it is.
pub open spec fn slot_after_set<T>(slot: Option<T>, v: T) -> Option<T> {
    if slot is None {
        Some(v)
    } else {
        slot
    }
}

/// The style of the default labels and separator: bold red.
pub open spec fn default_label_style() -> TextStyle {
    TextStyle { fg: Some(Color::Red), bg: None, bold: true, italic: false, underline: false, dimmed: false }
}

/// The built-in *error* label.
pub open spec fn is_default_error(seg: Segment) -> bool {
    seg.style == default_label_style() && seg.value@ == "error"@
}

/// The built-in *caused by* label.
pub open spec fn is_default_caused_by(seg: Segment) -> bool {
    seg.style == default_label_style() && seg.value@ == "caused by"@
}

/// The built-in separator between a label and a message.
pub open spec fn is_default_sep(seg: Segment) -> bool {
    seg.style == default_label_style() && seg.value@ == ": "@
}

/// How a read resolves the *error* label slot: a configured value is kept,
/// an unset slot is fixed to its built-in default.
pub open spec fn error_slot_resolved(prev: Option<Segment>, next: Option<Segment>) -> bool {
    if prev is Some {
        next == prev
    } else {
        next matches Some(s) && is_default_error(s)
    }
}

/// How a read resolves the *caused by* label slot.
pub open spec fn caused_by_slot_resolved(prev: Option<Segment>, next: Option<Segment>) -> bool {
    if prev is Some {
        next == prev
    } else {
        next matches Some(s) && is_default_caused_by(s)
    }
}

/// How a read resolves the separator slot.
pub open spec fn sep_slot_resolved(prev: Option<Segment>, next: Option<Segment>) -> bool {
    if prev is Some {
        next == prev
    } else {
        next matches Some(s) && is_default_sep(s)
    }
}

/// How a read resolves the message-style slot.
pub open spec fn style_slot_resolved(prev: Option<TextStyle>, next: Option<TextStyle>) -> bool {
    if prev is Some {
        next == prev
    } else {
        next == Some(TextStyle::plain())
    }
}

/// How a read resolves the none-message slot.
pub open spec fn none_message_slot_resolved(prev: Option<String>, next: Option<String>) -> bool {
    if prev is Some {
        next == prev
    } else {
        next matches Some(m) && m@ == "unexpected None"@
    }
}

/// The write-once configuration registry.
///
/// A `None` slot is one that was never set and never read; reading it stores
/// the built-in default, so that the slot's effective value never changes
/// after its first resolution.
pub struct Registry {
    /// The *error* label.
    pub error: Option<Segment>,
    /// The *caused by* label.
    pub caused_by: Option<Segment>,
    /// The separator between a label and a message.
    pub sep: Option<Segment>,
    /// The style of messages.
    pub message_style: Option<TextStyle>,
    /// The message shown when an absent value is terminated on.
    pub message_on_none: Option<String>,
}

impl Registry {
    /// Makes a registry with every slot unset.
    pub fn new() -> (r: Registry)
        ensures
            r.error is None,
            r.caused_by is None,
            r.sep is None,
            r.message_style is None,
            r.message_on_none is None,
    {
        Registry {
            error: None,
            caused_by: None,
            sep: None,
            message_style: None,
            message_on_none: None,
        }
    }

    /// Sets the *error* label, unless the slot is already filled.  Returns
    /// whether this call filled the slot.
    pub fn set_error(&mut self, seg: Segment) -> (fresh: bool)
        ensures
            final(self).error == slot_after_set(old(self).error, seg),
            fresh == (old(self).error is None),
            final(self).caused_by == old(self).caused_by,
            final(self).sep == old(self).sep,
            final(self).message_style == old(self).message_style,
            final(self).message_on_none == old(self).message_on_none,
    {
        if self.error.is_none() {
            self.error = Some(seg);
            true
        } else {
            false
        }
    }

    /// Sets the *caused by* label, unless the slot is already filled.
    /// Returns whether this call filled the slot.
    pub fn set_caused_by(&mut self, seg: Segment) -> (fresh: bool)
        ensures
            final(self).caused_by == slot_after_set(old(self).caused_by, seg),
            fresh == (old(self).caused_by is None),
            final(self).error == old(self).error,
            final(self).sep == old(self).sep,
            final(self).message_style == old(self).message_style,
            final(self).message_on_none == old(self).message_on_none,
    {
        if self.caused_by.is_none() {
            self.caused_by = Some(seg);
            true
        } else {
            false
        }
    }

    /// Sets the separator, unless the slot is already filled.  Returns
    /// whether this call filled the slot.
    pub fn set_sep(&mut self, seg: Segment) -> (fresh: bool)
        ensures
            final(self).sep == slot_after_set(old(self).sep, seg),
            fresh == (old(self).sep is None),
            final(self).error == old(self).error,
            final(self).caused_by == old(self).caused_by,
            final(self).message_style == old(self).message_style,
            final(self).message_on_none == old(self).message_on_none,
    {
        if self.sep.is_none() {
            self.sep = Some(seg);
            true
        } else {
            false
        }
    }

    /// Sets the style of messages, unless the slot is already filled.
    /// Returns whether this call filled the slot.
    pub fn set_message_style(&mut self, style: TextStyle) -> (fresh: bool)
        ensures
            final(self).message_style == slot_after_set(old(self).message_style, style),
            fresh == (old(self).message_style is None),
            final(self).error == old(self).error,
            final(self).caused_by == old(self).caused_by,
            final(self).sep == old(self).sep,
            final(self).message_on_none == old(self).message_on_none,
    {
        if self.message_style.is_none() {
            self.message_style = Some(style);
            true
        } else {
            false
        }
    }

    /// Sets the message shown for an absent value, unless the slot is
    /// already filled.  Returns whether this call filled the slot.
    pub fn set_message_on_none(&mut self, message: String) -> (fresh: bool)
        ensures
            final(self).message_on_none == slot_after_set(old(self).message_on_none, message),
            fresh == (old(self).message_on_none is None),
            final(self).error == old(self).error,
            final(self).caused_by == old(self).caused_by,
            final(self).sep == old(self).sep,
            final(self).message_style == old(self).message_style,
    {
        if self.message_on_none.is_none() {
            self.message_on_none = Some(message);
            true
        } else {
            false
        }
    }

    /// The *error* label: the configured one, or the built-in bold red
    /// `error`, which the first read stores into the slot.
    pub fn error(&mut self) -> (r: &Segment)
        ensures
            final(self).error == Some(*r),
            old(self).error is Some ==> *final(self) == *old(self),
            old(self).error is None ==> is_default_error(*r),
            final(self).caused_by == old(self).caused_by,
            final(self).sep == old(self).sep,
            final(self).message_style == old(self).message_style,
            final(self).message_on_none == old(self).message_on_none,
    {
        if self.error.is_none() {
            self.error = Some(
                Segment { style: TextStyle::new().red().bold(), value: String::from_str("error") },
            );
        }
        self.error.as_ref().unwrap()
    }

    /// The *caused by* label: the configured one, or the built-in bold red
    /// `caused by`, which the first read stores into the slot.
    pub fn caused_by(&mut self) -> (r: &Segment)
        ensures
            final(self).caused_by == Some(*r),
            old(self).caused_by is Some ==> *final(self) == *old(self),
            old(self).caused_by is None ==> is_default_caused_by(*r),
            final(self).error == old(self).error,
            final(self).sep == old(self).sep,
            final(self).message_style == old(self).message_style,
            final(self).message_on_none == old(self).message_on_none,
    {
        if self.caused_by.is_none() {
            self.caused_by = Some(
                Segment { style: TextStyle::new().red().bold(), value: String::from_str("caused by") },
            );
        }
        self.caused_by.as_ref().unwrap()
    }

    /// The separator: the configured one, or the built-in bold red `: `,
    /// which the first read stores into the slot.
    pub fn sep(&mut self) -> (r: &Segment)
        ensures
            final(self).sep == Some(*r),
            old(self).sep is Some ==> *final(self) == *old(self),
            old(self).sep is None ==> is_default_sep(*r),
            final(self).error == old(self).error,
            final(self).caused_by == old(self).caused_by,
            final(self).message_style == old(self).message_style,
            final(self).message_on_none == old(self).message_on_none,
    {
        if self.sep.is_none() {
            self.sep = Some(
                Segment { style: TextStyle::new().red().bold(), value: String::from_str(": ") },
            );
        }
        self.sep.as_ref().unwrap()
    }

    /// The style of messages: the configured one, or no styling, which the
    /// first read stores into the slot.
    pub fn message_style(&mut self) -> (r: TextStyle)
        ensures
            final(self).message_style == Some(r),
            old(self).message_style is Some ==> *final(self) == *old(self),
            old(self).message_style is None ==> r == TextStyle::plain(),
            final(self).error == old(self).error,
            final(self).caused_by == old(self).caused_by,
            final(self).sep == old(self).sep,
            final(self).message_on_none == old(self).message_on_none,
    {
        if self.message_style.is_none() {
            self.message_style = Some(TextStyle::new());
        }
        *self.message_style.as_ref().unwrap()
    }

    /// The message shown for an absent value: the configured one, or the
    /// built-in `unexpected None`, which the first read stores into the slot.
    pub fn message_on_none(&mut self) -> (r: &String)
        ensures
            final(self).message_on_none == Some(*r),
            old(self).message_on_none is Some ==> *final(self) == *old(self),
            old(self).message_on_none is None ==> r@ == "unexpected None"@,
            final(self).error == old(self).error,
            final(self).caused_by == old(self).caused_by,
            final(self).sep == old(self).sep,
            final(self).message_style == old(self).message_style,
    {
        if self.message_on_none.is_none() {
            self.message_on_none = Some(String::from_str("unexpected None"));
        }
        self.message_on_none.as_ref().unwrap()
    }
}

/// The law of write-once slots: once a slot is filled, a later set changes
/// nothing, and the first set on an unset slot fixes the slot's value.
pub proof fn lemma_first_set_wins<T>(slot: Option<T>, a: T, b: T)
    ensures
        slot_after_set(slot_after_set(slot, a), b) == slot_after_set(slot, a),
        slot is None ==> slot_after_set(slot, a) == Some(a),
{
}

} // verus!
