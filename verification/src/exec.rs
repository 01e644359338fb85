//! The action executor: dispatch one descriptor to the matching adapter or
//! to the synthetic input emitter.
//!
//! Dispatch is a pure match over the descriptor's tag with no shared
//! mutable state between branches: each branch either emits one fixed,
//! ordered event sequence, or calls one adapter once, so every execution is
//! a single bounded unit of work.

use vstd::prelude::*;

use crate::action::ClipboardAction;
use crate::action::MonitorBrightnessAction;
use crate::action::SystemAction;
use crate::clipboard::get_clipboard_text;
use crate::clipboard::set_clipboard_text;
use crate::display::brightness_get_info;
use crate::display::brightness_set_info;
use crate::emitter::Emitter;
use crate::events::action_events;
use crate::events::event_sequence;
use crate::launcher::open_path;
use crate::outcome::ExecError;
use crate::outcome::ExecOutput;

verus! {

impl SystemAction {
    /// Execute this action against the host operating system.
    ///
    /// An emitter-backed action delivers exactly its fixed event sequence,
    /// strictly in order; the exclusive borrow on `emitter` keeps two
    /// actions' sequences from interleaving. When the emitter's consumer
    /// has terminated, the call fails with `ChannelClosed` and nothing
    /// beyond the already-delivered prefix of the sequence went out. Every
    /// other action calls its adapter once; a subsystem failure surfaces as
    /// the branch's error kind, never as a process-level abort. The `Wifi`
    /// variants are accepted but intentionally unimplemented: they fail
    /// with `Unsupported` rather than pretending success.
    pub fn execute(&self, emitter: &mut Emitter) -> (r: Result<ExecOutput, ExecError>)
        requires
            self.wf(),
        ensures
            r != Err::<ExecOutput, ExecError>(ExecError::ChannelClosed) ==> final(emitter)@ == old(emitter)@
                + action_events(*self),
            r == Err::<ExecOutput, ExecError>(ExecError::ChannelClosed) ==> exists|k: int|
                0 <= k < action_events(*self).len() && final(emitter)@ == old(emitter)@
                    + action_events(*self).subrange(0, k),
            match *self {
                SystemAction::Open { .. } => r == Ok::<ExecOutput, ExecError>(ExecOutput::Done) || r == Err::<ExecOutput, ExecError>(
                    ExecError::LaunchFailed,
                ),
                SystemAction::Volume { .. } => r == Ok::<ExecOutput, ExecError>(ExecOutput::Done) || r == Err::<ExecOutput, ExecError>(
                    ExecError::ChannelClosed,
                ),
                SystemAction::Brightness { action } => match action {
                    MonitorBrightnessAction::Get => (r matches Ok(out) && out matches
                        ExecOutput::DisplayLevels { .. }) || r == Err::<ExecOutput, ExecError>(
                        ExecError::DeviceEnumerationFailed,
                    ),
                    MonitorBrightnessAction::SetLevel { .. } => (r matches Ok(out) && out matches
                        ExecOutput::DisplaysSet { .. }) || r == Err::<ExecOutput, ExecError>(
                        ExecError::DeviceEnumerationFailed,
                    ),
                },
                SystemAction::Clipboard { action } => match action {
                    ClipboardAction::SetClipboard { .. } => r == Ok::<ExecOutput, ExecError>(ExecOutput::Done) || r == Err::<ExecOutput, ExecError>(
                        ExecError::ClipboardUnavailable,
                    ),
                    ClipboardAction::GetClipboard => (r matches Ok(out) && out matches
                        ExecOutput::ClipboardText { .. }) || r == Err::<ExecOutput, ExecError>(ExecError::ClipboardUnavailable)
                        || r == Err::<ExecOutput, ExecError>(ExecError::NotText),
                    ClipboardAction::Copy | ClipboardAction::Paste => r == Ok::<ExecOutput, ExecError>(ExecOutput::Done)
                        || r == Err::<ExecOutput, ExecError>(ExecError::ChannelClosed),
                },
                SystemAction::Wifi { .. } => r == Err::<ExecOutput, ExecError>(ExecError::Unsupported),
            },
    {
        match self {
            SystemAction::Open { path } => {
                proof {
                    assert(old(emitter)@ + action_events(*self) =~= old(emitter)@);
                }
                match open_path(path) {
                    Ok(()) => Ok(ExecOutput::Done),
                    Err(e) => Err(e),
                }
            }
            SystemAction::Volume { .. }
            | SystemAction::Clipboard { action: ClipboardAction::Copy }
            | SystemAction::Clipboard { action: ClipboardAction::Paste } => {
                let events = event_sequence(self);
                match emitter.send_all(&events) {
                    Ok(()) => Ok(ExecOutput::Done),
                    Err(e) => Err(e),
                }
            }
            SystemAction::Brightness { action: MonitorBrightnessAction::Get } => {
                proof {
                    assert(old(emitter)@ + action_events(*self) =~= old(emitter)@);
                }
                brightness_get_info()
            }
            SystemAction::Brightness { action: MonitorBrightnessAction::SetLevel { level } } => {
                proof {
                    assert(old(emitter)@ + action_events(*self) =~= old(emitter)@);
                }
                brightness_set_info(*level)
            }
            SystemAction::Clipboard { action: ClipboardAction::SetClipboard { data } } => {
                proof {
                    assert(old(emitter)@ + action_events(*self) =~= old(emitter)@);
                }
                match set_clipboard_text(data) {
                    Ok(()) => Ok(ExecOutput::Done),
                    Err(e) => Err(e),
                }
            }
            SystemAction::Clipboard { action: ClipboardAction::GetClipboard } => {
                proof {
                    assert(old(emitter)@ + action_events(*self) =~= old(emitter)@);
                }
                match get_clipboard_text() {
                    Ok(text) => Ok(ExecOutput::ClipboardText { text }),
                    Err(e) => Err(e),
                }
            }
            SystemAction::Wifi { .. } => {
                proof {
                    assert(old(emitter)@ + action_events(*self) =~= old(emitter)@);
                }
                Err(ExecError::Unsupported)
            }
        }
    }
}

} // verus!
