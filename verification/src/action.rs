//! Action descriptors: immutable values naming one requested OS effect.
//!
//! A descriptor carries no OS handles; all platform resources are acquired
//! only at execution time and released before execution returns.

use vstd::prelude::*;

verus! {

/// One requested system effect, as a closed tagged union.
#[derive(Debug, Clone, PartialEq, Eq, Hash)]
pub enum SystemAction {
    /// Open a filesystem path or URI with the OS-default handler.
    Open { path: String },
    /// Coarse, step-based volume control via synthetic multimedia keys.
    Volume { action: VolumeAction },
    /// Read or set the brightness of every controllable display.
    Brightness { action: MonitorBrightnessAction },
    /// Get or set the OS clipboard, or emit a copy/paste key combo.
    Clipboard { action: ClipboardAction },
    /// Networking control; accepted but intentionally unimplemented.
    Wifi { action: WifiAction },
}

/// Volume operations, each implemented by simulating the dedicated
/// multimedia key (no absolute-level set in this vocabulary).
#[derive(Debug, Clone, Copy, PartialEq, Eq, Hash)]
pub enum VolumeAction {
    LowerVolume,
    IncreaseVolume,
    ToggleMute,
}

/// Monitor brightness operations; levels are percentages in `0..=100`.
#[derive(Debug, Clone, Copy, PartialEq, Eq, Hash)]
pub enum MonitorBrightnessAction {
    Get,
    SetLevel { level: u32 },
}

/// Clipboard operations: direct get/set of text, or a synthetic key combo.
#[derive(Debug, Clone, PartialEq, Eq, Hash)]
pub enum ClipboardAction {
    SetClipboard { data: String },
    Copy,
    GetClipboard,
    Paste,
}

/// Wifi operations: a transmissible stub, not executed by this engine.
#[derive(Debug, Clone, Copy, PartialEq, Eq, Hash)]
pub enum WifiAction {
    Connect,
    Disconnect,
    Hotspot,
}

impl MonitorBrightnessAction {
    /// A brightness descriptor is well formed when a requested level is a
    /// percentage.
    pub open spec fn wf(self) -> bool {
        match self {
            MonitorBrightnessAction::Get => true,
            MonitorBrightnessAction::SetLevel { level } => level <= 100,
        }
    }
}

impl SystemAction {
    /// A descriptor is well formed when every level it carries is in range.
    pub open spec fn wf(self) -> bool {
        match self {
            SystemAction::Brightness { action } => action.wf(),
            _ => true,
        }
    }
}

} // verus!
