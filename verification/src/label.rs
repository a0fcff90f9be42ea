//! Labels of virtual desktops.
//!
//! A desktop is known to the operating system by a display name, which may be
//! empty, and by its position among the desktops. The label under which it is
//! reported is the name where there is one, and a label made from the position
//! otherwise. A label is never empty.

use vstd::prelude::*;
use vstd::string::*;
use crate::decimal::{append_decimal, decimal_digits, lemma_decimal_digits_nonempty};

verus! {

/// The text that precedes the position in the label of an unnamed desktop.
pub open spec fn positional_prefix() -> Seq<char> {
    "Desktop "@
}

/// The label of the unnamed desktop at the zero-based position `index`: the
/// prefix followed by the one-based position in decimal.
pub open spec fn positional_label(index: u32) -> Seq<char> {
    positional_prefix() + decimal_digits((index + 1) as nat)
}

/// The label of a desktop with display name `name` at the zero-based position
/// `index`.
pub open spec fn normalized(name: Seq<char>, index: u32) -> Seq<char> {
    if name.len() == 0 {
        positional_label(index)
    } else {
        name
    }
}

/// Why a sample could not be taken.
#[derive(Clone, Copy, Debug, PartialEq, Eq, Structural)]
pub enum SampleError {
    /// The active desktop could not be determined.
    Desktop,
    /// The display name of the active desktop could not be read.
    Name,
    /// The position of the active desktop could not be read.
    Index,
    /// The clock gave an instant that cannot be reported.
    Clock,
}

/// The label of a virtual desktop. It is never empty.
#[derive(Debug)]
pub struct DesktopLabel {
    text: String,
}

/// What the display name of a desktop settles: either the label itself, or
/// that the position is needed to make one.
#[derive(Debug)]
pub enum NameReading {
    /// The desktop has a name, which is its label.
    Named(DesktopLabel),
    /// The desktop has no name; its label is made from its position.
    Unnamed,
}

impl View for DesktopLabel {
    type V = Seq<char>;

    closed spec fn view(&self) -> Seq<char> {
        self.text@
    }
}

impl DesktopLabel {
    #[verifier::type_invariant]
    spec fn nonempty(self) -> bool {
        self.text@.len() > 0
    }

    /// The label of a desktop with the given display name and zero-based
    /// position.
    pub fn normalize(name: String, index: u32) -> (label: DesktopLabel)
        ensures
            label@ == normalized(name@, index),
    {
        match DesktopLabel::from_name(name) {
            NameReading::Named(label) => label,
            NameReading::Unnamed => DesktopLabel::from_index(index),
        }
    }

    /// Decides from the display name alone. A non-empty name is the label; an
    /// empty one asks for the position.
    pub fn from_name(name: String) -> (reading: NameReading)
        ensures
            match reading {
                NameReading::Named(label) => name@.len() > 0 && label@ == name@,
                NameReading::Unnamed => name@.len() == 0,
            },
    {
        if name.as_str().is_empty() {
            NameReading::Unnamed
        } else {
            NameReading::Named(DesktopLabel { text: name })
        }
    }

    /// The label of an unnamed desktop at the zero-based position `index`.
    pub fn from_index(index: u32) -> (label: DesktopLabel)
        ensures
            label@ == positional_label(index),
    {
        let mut text = String::new();
        text.append("Desktop ");
        assert(text@ =~= positional_prefix());
        let position: u64 = index as u64 + 1;
        append_decimal(&mut text, position);
        proof {
            lemma_decimal_digits_nonempty(position as nat);
        }
        DesktopLabel { text }
    }

    /// The label as text.
    pub fn as_str(&self) -> (text: &str)
        ensures
            text@ == self@,
            text@.len() > 0,
    {
        proof {
            use_type_invariant(self);
        }
        self.text.as_str()
    }

    /// A copy of the label as an owned string.
    pub fn to_text(&self) -> (text: String)
        ensures
            text@ == self@,
            text@.len() > 0,
    {
        proof {
            use_type_invariant(self);
        }
        self.text.clone()
    }

    /// A copy of the label.
    pub fn duplicate(&self) -> (copy: DesktopLabel)
        ensures
            copy@ == self@,
    {
        proof {
            use_type_invariant(self);
        }
        DesktopLabel { text: self.text.clone() }
    }

    /// Whether two labels have the same text.
    pub fn same_as(&self, other: &DesktopLabel) -> (same: bool)
        ensures
            same == (self@ == other@),
    {
        self.text == other.text
    }
}

} // verus!
