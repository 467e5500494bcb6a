//! The validation messenger: which messages it is asked to deliver, and what
//! becomes of a delivered message.

use vstd::prelude::*;
use vstd::string::StringExecFns;
use crate::native::{message_type_label, message_type_text, severity_label, severity_text};

verus! {

/// Severity bit of diagnostic chatter.
pub const SEVERITY_VERBOSE: u32 = 0x1;

/// Severity bit of informational messages.
pub const SEVERITY_INFO: u32 = 0x10;

/// Severity bit of warnings.
pub const SEVERITY_WARNING: u32 = 0x100;

/// Severity bit of errors.
pub const SEVERITY_ERROR: u32 = 0x1000;

/// Category bit of messages unrelated to validation or performance.
pub const TYPE_GENERAL: u32 = 0x1;

/// Category bit of messages about invalid use of the API.
pub const TYPE_VALIDATION: u32 = 0x2;

/// Category bit of messages about inefficient use of the API.
pub const TYPE_PERFORMANCE: u32 = 0x4;

/// What the messenger callback hands back to the validation layer: the call
/// that raised the message is not to be aborted.
pub const CONTINUE: u32 = 0;

/// The settings that the validation messenger is created with.
#[derive(Clone, Copy, Debug, PartialEq, Eq)]
pub struct DebugCtx {
    /// The severities that are delivered, as a flag word.
    pub message_severity: u32,
    /// The categories that are delivered, as a flag word.
    pub message_type: u32,
}

impl DebugCtx {
    /// A messenger that delivers every severity and the general, validation
    /// and performance categories.
    pub fn new() -> (r: Self)
        ensures
            r.message_severity == 0x1111,
            r.message_type == 0x7,
    {
        assert(0x10u32 | 0x100u32 | 0x1000u32 | 0x1u32 == 0x1111u32) by (bit_vector);
        assert(0x1u32 | 0x2u32 | 0x4u32 == 0x7u32) by (bit_vector);
        DebugCtx {
            message_severity: SEVERITY_INFO | SEVERITY_WARNING | SEVERITY_ERROR | SEVERITY_VERBOSE,
            message_type: TYPE_GENERAL | TYPE_VALIDATION | TYPE_PERFORMANCE,
        }
    }
}

/// The color that a message is shown in.
#[derive(Clone, Copy, Debug, PartialEq, Eq)]
pub enum MessageColor {
    Yellow,
    Cyan,
    Red,
    Blue,
}

/// The color for a severity: yellow for a warning, cyan for information, red
/// for an error, blue for chatter. A flag word that is not exactly one of
/// these four has no color.
pub open spec fn color_of(severity: u32) -> Option<MessageColor> {
    if severity == SEVERITY_WARNING {
        Some(MessageColor::Yellow)
    } else if severity == SEVERITY_INFO {
        Some(MessageColor::Cyan)
    } else if severity == SEVERITY_ERROR {
        Some(MessageColor::Red)
    } else if severity == SEVERITY_VERBOSE {
        Some(MessageColor::Blue)
    } else {
        None
    }
}

/// Picks the display color for a message severity.
pub fn severity_color(severity: u32) -> (r: Option<MessageColor>)
    ensures
        r == color_of(severity),
{
    if severity == SEVERITY_WARNING {
        Some(MessageColor::Yellow)
    } else if severity == SEVERITY_INFO {
        Some(MessageColor::Cyan)
    } else if severity == SEVERITY_ERROR {
        Some(MessageColor::Red)
    } else if severity == SEVERITY_VERBOSE {
        Some(MessageColor::Blue)
    } else {
        None
    }
}

/// A report line: the severity and the category in square brackets, a colon
/// and a space, then the message.
pub open spec fn report_line(severity: Seq<char>, types: Seq<char>, message: Seq<char>) -> Seq<
    char,
> {
    seq!['['] + severity + seq![']', '['] + types + seq![']', ':', ' '] + message
}

/// Composes the report line from the severity text, the category text and the
/// message text.
pub fn format_report_line(severity: &str, types: &str, message: &str) -> (r: String)
    ensures
        r@ == report_line(severity@, types@, message@),
{
    proof {
        reveal_strlit("[");
        reveal_strlit("][");
        reveal_strlit("]: ");
    }
    let mut line = String::from_str("[");
    line.append(severity);
    line.append("][");
    line.append(types);
    line.append("]: ");
    line.append(message);
    assert(line@ =~= report_line(severity@, types@, message@));
    line
}

/// What is to be done about one delivered message.
#[derive(Debug, PartialEq, Eq)]
pub struct DebugReport {
    /// The line to print.
    pub line: String,
    /// The color to print it in, where the severity has one.
    pub color: Option<MessageColor>,
    /// The value to return to the validation layer.
    pub signal: u32,
}

/// Turns a message of the validation layer into the line to print, its color
/// and the value to hand back. `message` is the message text as it is to be
/// shown. The value handed back is always `CONTINUE`.
pub fn my_debug_callback(message_severity: u32, message_types: u32, message: &str) -> (r:
    DebugReport)
    ensures
        r.line@ == report_line(
            severity_text(message_severity),
            message_type_text(message_types),
            message@,
        ),
        r.color == color_of(message_severity),
        r.signal == CONTINUE,
{
    let severity = severity_label(message_severity);
    let types = message_type_label(message_types);
    let line = format_report_line(severity.as_str(), types.as_str(), message);
    DebugReport { line, color: severity_color(message_severity), signal: CONTINUE }
}

} // verus!
