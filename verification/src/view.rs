//! Values that the panels of the window are drawn from: texts with the tone
//! they are shown in, and label/value rows. Drawing them stays outside.

use vstd::prelude::*;
use vstd::string::*;

use crate::error::LumidoxError;
use crate::text::{copy_text, decimal, join2, text_with_number};

verus! {

/// The tone a text is shown in.
#[derive(Debug, Clone, Copy, PartialEq, Eq, Structural)]
pub enum Tone {
    /// Good news (green).
    Success,
    /// Needs attention (amber).
    Caution,
    /// Ready and waiting (blue).
    Ready,
    /// Armed (orange).
    Armed,
    /// A failure or a refusal (red).
    Danger,
    /// Nothing to report (grey).
    Neutral,
}

/// A text and its tone.
#[derive(Debug)]
pub struct Badge {
    /// The text.
    pub text: String,
    /// The tone.
    pub tone: Tone,
}

/// A label and its value.
#[derive(Debug)]
pub struct Row {
    /// The label.
    pub label: String,
    /// The value.
    pub value: String,
}

/// Whether a badge shows this text in this tone.
pub open spec fn badge_is(b: Badge, text: Seq<char>, tone: Tone) -> bool {
    b.text@ == text && b.tone == tone
}

/// Whether a row shows this label and value.
pub open spec fn row_is(r: Row, label: Seq<char>, value: Seq<char>) -> bool {
    r.label@ == label && r.value@ == value
}

/// A badge.
pub fn badge(text: &str, tone: Tone) -> (b: Badge)
    ensures
        badge_is(b, text@, tone),
{
    Badge { text: copy_text(text), tone }
}

/// A row.
pub fn row(label: &str, value: String) -> (r: Row)
    ensures
        row_is(r, label@, value@),
{
    Row { label: copy_text(label), value }
}

/// A current in milliamps as text: the number, then `mA`.
pub open spec fn milliamps(n: u16) -> Seq<char> {
    decimal(n as nat) + "mA"@
}

/// A current read from a device, after a prefix: the current in milliamps,
/// `Unknown` when the device failed to answer, `N/A` when there is no device.
pub open spec fn reading_text(prefix: Seq<char>, reading: Option<Result<u16, LumidoxError>>) -> Seq<char> {
    match reading {
        Some(Ok(n)) => prefix + milliamps(n),
        Some(Err(_)) => prefix + "Unknown"@,
        None => prefix + "N/A"@,
    }
}

/// A current read from a device, after a prefix.
pub fn reading_line(prefix: &str, reading: &Option<Result<u16, LumidoxError>>) -> (s: String)
    ensures
        s@ == reading_text(prefix@, *reading),
{
    match reading {
        Some(Ok(n)) => text_with_number(prefix, *n as u64, "mA"),
        Some(Err(_)) => join2(prefix, "Unknown"),
        None => join2(prefix, "N/A"),
    }
}

} // verus!
