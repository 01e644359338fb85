//! A pure model of the host state that action execution touches: the mock
//! host against which the executor's laws are stated and proved, and which
//! tests drive with concrete values.
//!
//! The real adapters act on OS state that no contract can pin down (whether
//! a clipboard exists, which displays are attached); here the same dispatch
//! acts on explicit state, so every branch's effect is exact: what
//! `SetClipboard` leaves for `GetClipboard`, what a mute toggle does to
//! every session, what setting a level leaves for a brightness read. Combo
//! and volume actions only emit key events (fixed by
//! [`crate::events::action_events`]); what the model tracks of a mute key
//! is the endpoint's response, a toggle of every session.

use vstd::prelude::*;

use crate::action::ClipboardAction;
use crate::action::MonitorBrightnessAction;
use crate::action::SystemAction;
use crate::action::VolumeAction;
use crate::audio::AudioSessions;
use crate::audio::toggled;
use crate::outcome::DisplayInfo;
use crate::outcome::ExecError;
use crate::outcome::ExecOutput;

verus! {

/// The clipboard after a `SetClipboard` of `data`: exactly that text.
pub open spec fn clip_set(clipboard: Option<Seq<char>>, data: Seq<char>) -> Option<Seq<char>> {
    Some(data)
}

/// What `GetClipboard` returns of a clipboard: its text content, or
/// `NotText` when it holds none.
pub open spec fn clip_get(clipboard: Option<Seq<char>>) -> Result<Seq<char>, ExecError> {
    match clipboard {
        Some(text) => Ok(text),
        None => Err(ExecError::NotText),
    }
}

/// The displays after applying `level` to every enumerated device.
pub open spec fn displays_at(displays: Seq<DisplayInfo>, level: u32) -> Seq<DisplayInfo> {
    Seq::new(displays.len(), |i: int| DisplayInfo { name: displays[i].name, level })
}

/// Law: setting the clipboard to a text and then reading it yields exactly
/// that text, whatever the clipboard held before.
pub proof fn lemma_clipboard_round_trip(clipboard: Option<Seq<char>>, data: Seq<char>)
    ensures
        clip_get(clip_set(clipboard, data)) == Ok::<Seq<char>, ExecError>(data),
{
}

/// Law: after setting a level on every display, a brightness read reports
/// every enumerated device at that level — and reports zero devices,
/// without erroring, when none exist.
pub proof fn lemma_displays_set_then_read(displays: Seq<DisplayInfo>, level: u32)
    ensures
        displays_at(displays, level).len() == displays.len(),
        forall|i: int| 0 <= i < displays.len() ==> displays_at(displays, level)[i].level == level,
{
}

/// A mock host: the state that executing actions reads and writes.
#[derive(Debug, Clone, PartialEq, Eq)]
pub struct HostModel {
    /// Text content of the clipboard, `None` when it holds no text.
    pub clipboard: Option<String>,
    /// The audio sessions of the default render endpoint.
    pub audio: AudioSessions,
    /// Every enumerated brightness device, with its current level.
    pub displays: Vec<DisplayInfo>,
}

impl HostModel {
    /// The clipboard's text content, as a sequence of characters.
    pub open spec fn clipboard_view(self) -> Option<Seq<char>> {
        match self.clipboard {
            Some(text) => Some(text@),
            None => None,
        }
    }

    /// Execute one action against the model host. Dispatch and outcome
    /// mirror [`SystemAction::execute`], with the OS state explicit: every
    /// branch's effect on the host is pinned exactly.
    pub fn apply(&mut self, action: &SystemAction) -> (r: Result<ExecOutput, ExecError>)
        requires
            action.wf(),
        ensures
            match *action {
                SystemAction::Open { .. } => r == Ok::<ExecOutput, ExecError>(ExecOutput::Done)
                    && *final(self) == *old(self),
                SystemAction::Volume { action: op } => match op {
                    VolumeAction::ToggleMute => r == Ok::<ExecOutput, ExecError>(ExecOutput::Done)
                        && final(self).audio.muted@ == toggled(old(self).audio.muted@)
                        && final(self).clipboard == old(self).clipboard
                        && final(self).displays == old(self).displays,
                    _ => r == Ok::<ExecOutput, ExecError>(ExecOutput::Done) && *final(self)
                        == *old(self),
                },
                SystemAction::Brightness { action: op } => match op {
                    MonitorBrightnessAction::Get => *final(self) == *old(self) && (r matches Ok(out)
                        && out matches ExecOutput::DisplayLevels { entries, failed } && entries@
                        == old(self).displays@ && failed == 0),
                    MonitorBrightnessAction::SetLevel { level } => final(self).displays@
                        == displays_at(old(self).displays@, level)
                        && final(self).clipboard == old(self).clipboard
                        && final(self).audio == old(self).audio
                        && (r matches Ok(out) && out matches ExecOutput::DisplaysSet {
                            applied,
                            failed,
                        } && applied == old(self).displays@.len() && failed == 0),
                },
                SystemAction::Clipboard { action: op } => match op {
                    ClipboardAction::SetClipboard { data } => final(self).clipboard_view()
                        == clip_set(old(self).clipboard_view(), data@)
                        && final(self).audio == old(self).audio
                        && final(self).displays == old(self).displays
                        && r == Ok::<ExecOutput, ExecError>(ExecOutput::Done),
                    ClipboardAction::GetClipboard => *final(self) == *old(self) && match clip_get(
                        old(self).clipboard_view(),
                    ) {
                        Ok(text) => r matches Ok(out) && out matches ExecOutput::ClipboardText {
                            text: got,
                        } && got@ == text,
                        Err(e) => r == Err::<ExecOutput, ExecError>(e),
                    },
                    ClipboardAction::Copy | ClipboardAction::Paste => r == Ok::<
                        ExecOutput,
                        ExecError,
                    >(ExecOutput::Done) && *final(self) == *old(self),
                },
                SystemAction::Wifi { .. } => r == Err::<ExecOutput, ExecError>(
                    ExecError::Unsupported,
                ) && *final(self) == *old(self),
            },
    {
        match action {
            SystemAction::Open { .. } => Ok(ExecOutput::Done),
            SystemAction::Volume { action: op } => {
                match op {
                    VolumeAction::ToggleMute => {
                        self.audio.toggle_mute_all();
                        Ok(ExecOutput::Done)
                    }
                    VolumeAction::LowerVolume | VolumeAction::IncreaseVolume => Ok(
                        ExecOutput::Done,
                    ),
                }
            }
            SystemAction::Brightness { action: op } => {
                match op {
                    MonitorBrightnessAction::Get => {
                        let entries = self.read_display_entries();
                        Ok(ExecOutput::DisplayLevels { entries, failed: 0 })
                    }
                    MonitorBrightnessAction::SetLevel { level } => {
                        let applied = self.set_display_levels(*level);
                        Ok(ExecOutput::DisplaysSet { applied, failed: 0 })
                    }
                }
            }
            SystemAction::Clipboard { action: op } => {
                match op {
                    ClipboardAction::SetClipboard { data } => {
                        self.clipboard = Some(data.clone());
                        Ok(ExecOutput::Done)
                    }
                    ClipboardAction::GetClipboard => {
                        match &self.clipboard {
                            Some(text) => {
                                let got = text.clone();
                                Ok(ExecOutput::ClipboardText { text: got })
                            }
                            None => Err(ExecError::NotText),
                        }
                    }
                    ClipboardAction::Copy | ClipboardAction::Paste => Ok(ExecOutput::Done),
                }
            }
            SystemAction::Wifi { .. } => Err(ExecError::Unsupported),
        }
    }

    /// Report every modelled display's name and current level.
    fn read_display_entries(&self) -> (entries: Vec<DisplayInfo>)
        ensures
            entries@ == self.displays@,
    {
        let mut entries: Vec<DisplayInfo> = Vec::new();
        let mut i: usize = 0;
        while i < self.displays.len()
            invariant
                i <= self.displays@.len(),
                entries@ == self.displays@.subrange(0, i as int),
            decreases self.displays@.len() - i,
        {
            let name = self.displays[i].name.clone();
            let level = self.displays[i].level;
            entries.push(DisplayInfo { name, level });
            proof {
                assert(self.displays@[i as int] == (DisplayInfo {
                    name: self.displays@[i as int].name,
                    level: self.displays@[i as int].level,
                }));
                assert(entries@ =~= self.displays@.subrange(0, i as int + 1));
            }
            i = i + 1;
        }
        proof {
            assert(self.displays@.subrange(0, self.displays@.len() as int) =~= self.displays@);
        }
        entries
    }

    /// Apply `level` to every modelled display, returning the count
    /// affected.
    fn set_display_levels(&mut self, level: u32) -> (applied: usize)
        ensures
            final(self).displays@ == displays_at(old(self).displays@, level),
            final(self).clipboard == old(self).clipboard,
            final(self).audio == old(self).audio,
            applied == old(self).displays@.len(),
    {
        let mut i: usize = 0;
        while i < self.displays.len()
            invariant
                i <= self.displays@.len(),
                self.displays@.len() == old(self).displays@.len(),
                self.clipboard == old(self).clipboard,
                self.audio == old(self).audio,
                forall|j: int| 0 <= j < i ==> self.displays@[j] == displays_at(
                    old(self).displays@,
                    level,
                )[j],
                forall|j: int| i <= j < self.displays@.len() ==> self.displays@[j]
                    == old(self).displays@[j],
            decreases self.displays@.len() - i,
        {
            let name = self.displays[i].name.clone();
            self.displays.set(i, DisplayInfo { name, level });
            i = i + 1;
        }
        proof {
            assert(self.displays@ =~= displays_at(old(self).displays@, level));
        }
        self.displays.len()
    }
}

} // verus!
