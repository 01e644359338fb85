//! Audio session adapter: mute control over the enumerated audio sessions
//! of the system's default multimedia render endpoint.
//!
//! The platform session objects are COM-style handles that only the host's
//! audio stack exposes; what the executor reads and writes of each session
//! is its mute flag, so the enumerated collection is carried here as one
//! flag per session, indexed in enumeration order. A mute operation applies
//! to every enumerated session — deliberately all of them, not only the
//! last one enumerated.

use vstd::prelude::*;

use crate::launcher::open_path;
use crate::outcome::ExecError;
use crate::outcome::ExecOutput;

verus! {

/// The mute flags after the endpoint handles one mute toggle: every
/// session's flag flipped.
pub open spec fn toggled(sessions: Seq<bool>) -> Seq<bool> {
    Seq::new(sessions.len(), |i: int| !sessions[i])
}

/// The mute flags after setting every session's mute to `muted`.
pub open spec fn all_set_to(sessions: Seq<bool>, muted: bool) -> Seq<bool> {
    Seq::new(sessions.len(), |i: int| muted)
}

/// The audio sessions enumerated from the default render endpoint, fresh
/// for one execution: the mute flag of each session, by enumeration index.
#[derive(Debug, Clone, PartialEq, Eq, Hash)]
pub struct AudioSessions {
    pub muted: Vec<bool>,
}

impl AudioSessions {
    /// Set every enumerated session's mute flag to `muted`, walking the
    /// collection by index from the first session to the last.
    pub fn set_mute_all(&mut self, muted: bool)
        ensures
            final(self).muted@ == all_set_to(old(self).muted@, muted),
    {
        let mut i: usize = 0;
        while i < self.muted.len()
            invariant
                i <= self.muted@.len(),
                self.muted@.len() == old(self).muted@.len(),
                forall|j: int| 0 <= j < i ==> self.muted@[j] == muted,
                forall|j: int| i <= j < self.muted@.len() ==> self.muted@[j]
                    == old(self).muted@[j],
            decreases self.muted@.len() - i,
        {
            self.muted.set(i, muted);
            i = i + 1;
        }
        proof {
            assert(self.muted@ =~= all_set_to(old(self).muted@, muted));
        }
    }

    /// Flip every enumerated session's mute flag, as the endpoint's mute
    /// toggle does.
    pub fn toggle_mute_all(&mut self)
        ensures
            final(self).muted@ == toggled(old(self).muted@),
    {
        let mut i: usize = 0;
        while i < self.muted.len()
            invariant
                i <= self.muted@.len(),
                self.muted@.len() == old(self).muted@.len(),
                forall|j: int| 0 <= j < i ==> self.muted@[j] == !old(self).muted@[j],
                forall|j: int| i <= j < self.muted@.len() ==> self.muted@[j]
                    == old(self).muted@[j],
            decreases self.muted@.len() - i,
        {
            let cur: bool = self.muted[i];
            self.muted.set(i, !cur);
            i = i + 1;
        }
        proof {
            assert(self.muted@ =~= toggled(old(self).muted@));
        }
    }
}

/// Law: toggling mute twice returns every audio session to its original
/// mute state.
pub proof fn lemma_toggle_mute_idempotent(sessions: Seq<bool>)
    ensures
        toggled(toggled(sessions)) == sessions,
{
    assert(toggled(toggled(sessions)) =~= sessions);
}

/// The audio-endpoint action vocabulary: open a path, or control the
/// default render endpoint's volume. Absolute volume is accepted but
/// intentionally unimplemented.
#[derive(Debug, Clone, PartialEq, Eq, Hash)]
pub enum ActionType {
    Open { path: String },
    Volume { action: VolumeAction },
    Brightness,
}

/// Volume operations on the enumerated audio sessions.
#[derive(Debug, Clone, Copy, PartialEq, Eq, Structural, Hash)]
pub enum VolumeAction {
    /// Set every session's mute flag to `data`.
    Mute { data: bool },
    /// Set an absolute volume level: a discoverable placeholder that fails
    /// with `Unsupported` rather than pretending success.
    SetVolume { amount: u32 },
}

impl ActionType {
    /// Execute this action against the host: a mute operation applies to
    /// every session that `sessions` enumerated, and the stub variants fail
    /// with `Unsupported` instead of silently doing nothing.
    pub fn execute(&self, sessions: &mut AudioSessions) -> (r: Result<ExecOutput, ExecError>)
        ensures
            match *self {
                ActionType::Open { .. } => r == Ok::<ExecOutput, ExecError>(ExecOutput::Done) || r
                    == Err::<ExecOutput, ExecError>(ExecError::LaunchFailed),
                ActionType::Volume { action } => match action {
                    VolumeAction::Mute { data } => r == Ok::<ExecOutput, ExecError>(
                        ExecOutput::Done,
                    ) && final(sessions).muted@ == all_set_to(old(sessions).muted@, data),
                    VolumeAction::SetVolume { .. } => r == Err::<ExecOutput, ExecError>(
                        ExecError::Unsupported,
                    ),
                },
                ActionType::Brightness => r == Err::<ExecOutput, ExecError>(ExecError::Unsupported),
            },
            !(*self matches ActionType::Volume { action: VolumeAction::Mute { .. } })
                ==> *final(sessions) == *old(sessions),
    {
        match self {
            ActionType::Open { path } => {
                match open_path(path) {
                    Ok(()) => Ok(ExecOutput::Done),
                    Err(e) => Err(e),
                }
            }
            ActionType::Volume { action } => {
                match action {
                    VolumeAction::Mute { data } => {
                        sessions.set_mute_all(*data);
                        Ok(ExecOutput::Done)
                    }
                    VolumeAction::SetVolume { .. } => Err(ExecError::Unsupported),
                }
            }
            ActionType::Brightness => Err(ExecError::Unsupported),
        }
    }
}

} // verus!
