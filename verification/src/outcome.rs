//! Structured outcomes of one action execution.
//!
//! The executor never aborts the process: every failure of an OS subsystem
//! surfaces as one of these error kinds, and every success as an
//! [`ExecOutput`] carrying what the adapter reported.

use vstd::prelude::*;

verus! {

/// Why one `execute` call did not complete its effect.
#[derive(Debug, Clone, Copy, PartialEq, Eq, Structural, Hash)]
pub enum ExecError {
    /// The input-injection task consuming the emitter's queue has
    /// terminated, so a synthetic key event could not be delivered.
    ChannelClosed,
    /// The OS clipboard could not be opened.
    ClipboardUnavailable,
    /// The clipboard holds no text content.
    NotText,
    /// The OS could not resolve a default handler for the path, or the
    /// launch itself failed.
    LaunchFailed,
    /// The display enumeration source itself could not be opened.
    DeviceEnumerationFailed,
    /// The platform lacks the capability, or the action variant is an
    /// accepted stub that this engine intentionally does not perform.
    Unsupported,
}

/// One controllable display as the brightness adapter reads it: a
/// human-readable name and a brightness percentage in `0..=100`.
#[derive(Debug, Clone, PartialEq, Eq, Hash)]
pub struct DisplayInfo {
    pub name: String,
    pub level: u32,
}

/// What a successfully executed action reported.
#[derive(Debug, Clone, PartialEq, Eq, Hash)]
pub enum ExecOutput {
    /// The effect was performed; nothing further to report.
    Done,
    /// The current text content of the OS clipboard.
    ClipboardText { text: String },
    /// The displays whose name and level could be read, and how many
    /// enumerated devices failed a read (a single device's failure does
    /// not abort enumeration of the rest).
    DisplayLevels { entries: Vec<DisplayInfo>, failed: usize },
    /// How many enumerated displays took the new level, and how many
    /// failed the write.
    DisplaysSet { applied: usize, failed: usize },
}

} // verus!
