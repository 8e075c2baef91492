//! What becomes of a message of the validation layers.

use vstd::prelude::*;

use super::flags::{
    DEBUG_SEVERITY_ERROR, DEBUG_SEVERITY_INFO, DEBUG_SEVERITY_VERBOSE, DEBUG_SEVERITY_WARNING,
    DEBUG_TYPE_GENERAL, DEBUG_TYPE_PERFORMANCE, DEBUG_TYPE_VALIDATION, FALSE, TRUE,
};

verus! {

/// How loudly a message is logged.
#[derive(Clone, Copy, Debug, PartialEq, Eq, Structural)]
pub enum LogLevel {
    Trace,
    Info,
    Warn,
    Error,
}

/// What becomes of a message of the validation layers: the level it is
/// logged at, the tag and the kind that the log line starts with, and what
/// the callback answers: `TRUE` to abort the call that caused the message,
/// `FALSE` to let it go on.
#[derive(Clone, Copy, Debug, PartialEq, Eq)]
pub struct DebugVerdict {
    pub level: LogLevel,
    pub tag: &'static str,
    pub kind: &'static str,
    pub answer: u32,
}

/// The name of a message type: that of the one type the mask holds, or
/// `UNKNOWN` for any other mask.
pub open spec fn kind_of(message_type: u32) -> Seq<char> {
    if message_type == DEBUG_TYPE_GENERAL {
        "GENERAL"@
    } else if message_type == DEBUG_TYPE_VALIDATION {
        "VALIDATION"@
    } else if message_type == DEBUG_TYPE_PERFORMANCE {
        "PERFORMANCE"@
    } else {
        "UNKNOWN"@
    }
}

/// The level a message of `message_severity` is logged at: that of the one
/// severity the mask holds, or the error level for any other mask.
pub open spec fn level_of(message_severity: u32) -> LogLevel {
    if message_severity == DEBUG_SEVERITY_VERBOSE {
        LogLevel::Trace
    } else if message_severity == DEBUG_SEVERITY_INFO {
        LogLevel::Info
    } else if message_severity == DEBUG_SEVERITY_WARNING {
        LogLevel::Warn
    } else {
        LogLevel::Error
    }
}

/// The tag of a message of `message_severity`. Warnings and errors go under
/// the tag of informations.
pub open spec fn tag_of(message_severity: u32) -> Seq<char> {
    if message_severity == DEBUG_SEVERITY_VERBOSE {
        "VERBOSE"@
    } else if message_severity == DEBUG_SEVERITY_INFO || message_severity
        == DEBUG_SEVERITY_WARNING || message_severity == DEBUG_SEVERITY_ERROR {
        "INFO"@
    } else {
        "UNKNOWN"@
    }
}

/// Decides what becomes of a message of the validation layers. Errors, and
/// messages of no single known severity, abort the call that caused them.
pub fn debug_callback(message_severity: u32, message_type: u32) -> (verdict: DebugVerdict)
    ensures
        verdict.level == level_of(message_severity),
        verdict.tag@ == tag_of(message_severity),
        verdict.kind@ == kind_of(message_type),
        verdict.answer == if message_severity == DEBUG_SEVERITY_VERBOSE || message_severity
            == DEBUG_SEVERITY_INFO || message_severity == DEBUG_SEVERITY_WARNING {
            FALSE
        } else {
            TRUE
        },
{
    let kind = if message_type == DEBUG_TYPE_GENERAL {
        "GENERAL"
    } else if message_type == DEBUG_TYPE_VALIDATION {
        "VALIDATION"
    } else if message_type == DEBUG_TYPE_PERFORMANCE {
        "PERFORMANCE"
    } else {
        "UNKNOWN"
    };
    if message_severity == DEBUG_SEVERITY_VERBOSE {
        DebugVerdict { level: LogLevel::Trace, tag: "VERBOSE", kind, answer: FALSE }
    } else if message_severity == DEBUG_SEVERITY_INFO {
        DebugVerdict { level: LogLevel::Info, tag: "INFO", kind, answer: FALSE }
    } else if message_severity == DEBUG_SEVERITY_WARNING {
        DebugVerdict { level: LogLevel::Warn, tag: "INFO", kind, answer: FALSE }
    } else if message_severity == DEBUG_SEVERITY_ERROR {
        DebugVerdict { level: LogLevel::Error, tag: "INFO", kind, answer: TRUE }
    } else {
        DebugVerdict { level: LogLevel::Error, tag: "UNKNOWN", kind, answer: TRUE }
    }
}

/// The severities and the types of the messages that the messenger is
/// created for: warnings and errors, of every type.
pub fn populate_debug_messenger_create_info() -> (masks: (u32, u32))
    ensures
        masks == (
            DEBUG_SEVERITY_ERROR | DEBUG_SEVERITY_WARNING,
            DEBUG_TYPE_GENERAL | DEBUG_TYPE_VALIDATION | DEBUG_TYPE_PERFORMANCE,
        ),
{
    (
        DEBUG_SEVERITY_ERROR | DEBUG_SEVERITY_WARNING,
        DEBUG_TYPE_GENERAL | DEBUG_TYPE_VALIDATION | DEBUG_TYPE_PERFORMANCE,
    )
}

} // verus!
