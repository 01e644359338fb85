//! Synthetic key events and the fixed table mapping actions to them.
//!
//! Actions with no direct OS API are implemented by simulating the
//! corresponding hardware shortcut: a volume action is one press/release
//! pair of its dedicated multimedia key, and a copy/paste action is the
//! four-event `Ctrl`+key combo.

use vstd::prelude::*;

use crate::action::ClipboardAction;
use crate::action::SystemAction;
use crate::action::VolumeAction;

verus! {

/// The platform key code of the multimedia mute key.
pub const MUTE_KEY_CODE: u32 = 173;
/// The platform key code of the multimedia volume-down key.
pub const VOLUME_DOWN_KEY_CODE: u32 = 174;
/// The platform key code of the multimedia volume-up key.
pub const VOLUME_UP_KEY_CODE: u32 = 175;

/// A virtual key as the OS input-injection subsystem names it: either a
/// dedicated key known only by its platform key code (the multimedia keys
/// are not present in the standard alphanumeric layout), or one of the
/// standard keys that the copy/paste combos use.
#[derive(Debug, Clone, Copy, PartialEq, Eq, Structural, Hash)]
pub enum Key {
    Code(u32),
    ControlLeft,
    KeyC,
    KeyV,
}

/// One abstract key event handed to the synthetic input emitter.
#[derive(Debug, Clone, Copy, PartialEq, Eq, Structural, Hash)]
pub enum InputEvent {
    KeyPress(Key),
    KeyRelease(Key),
}

/// The fixed multimedia key code of each volume operation.
pub open spec fn volume_key_code(op: VolumeAction) -> u32 {
    match op {
        VolumeAction::ToggleMute => MUTE_KEY_CODE,
        VolumeAction::LowerVolume => VOLUME_DOWN_KEY_CODE,
        VolumeAction::IncreaseVolume => VOLUME_UP_KEY_CODE,
    }
}

/// A volume operation emits exactly one press/release pair of its fixed
/// multimedia key, press first.
pub open spec fn volume_events(op: VolumeAction) -> Seq<InputEvent> {
    seq![
        InputEvent::KeyPress(Key::Code(volume_key_code(op))),
        InputEvent::KeyRelease(Key::Code(volume_key_code(op))),
    ]
}

/// A combo shortcut emits exactly four events: modifier press, key press,
/// key release, modifier release, in that order.
pub open spec fn combo_events(key: Key) -> Seq<InputEvent> {
    seq![
        InputEvent::KeyPress(Key::ControlLeft),
        InputEvent::KeyPress(key),
        InputEvent::KeyRelease(key),
        InputEvent::KeyRelease(Key::ControlLeft),
    ]
}

/// Every synthetic key event an action emits, in emission order; empty for
/// the actions that call an adapter instead of the emitter.
pub open spec fn action_events(action: SystemAction) -> Seq<InputEvent> {
    match action {
        SystemAction::Volume { action } => volume_events(action),
        SystemAction::Clipboard { action: ClipboardAction::Copy } => combo_events(Key::KeyC),
        SystemAction::Clipboard { action: ClipboardAction::Paste } => combo_events(Key::KeyV),
        _ => Seq::empty(),
    }
}

/// Build the ordered event sequence that executing `action` emits.
pub fn event_sequence(action: &SystemAction) -> (r: Vec<InputEvent>)
    ensures
        r@ == action_events(*action),
{
    let mut events: Vec<InputEvent> = Vec::new();
    match action {
        SystemAction::Volume { action: op } => {
            let code: u32 = match op {
                VolumeAction::ToggleMute => MUTE_KEY_CODE,
                VolumeAction::LowerVolume => VOLUME_DOWN_KEY_CODE,
                VolumeAction::IncreaseVolume => VOLUME_UP_KEY_CODE,
            };
            events.push(InputEvent::KeyPress(Key::Code(code)));
            events.push(InputEvent::KeyRelease(Key::Code(code)));
            proof {
                assert(events@ =~= action_events(*action));
            }
        }
        SystemAction::Clipboard { action: ClipboardAction::Copy } => {
            events.push(InputEvent::KeyPress(Key::ControlLeft));
            events.push(InputEvent::KeyPress(Key::KeyC));
            events.push(InputEvent::KeyRelease(Key::KeyC));
            events.push(InputEvent::KeyRelease(Key::ControlLeft));
            proof {
                assert(events@ =~= action_events(*action));
            }
        }
        SystemAction::Clipboard { action: ClipboardAction::Paste } => {
            events.push(InputEvent::KeyPress(Key::ControlLeft));
            events.push(InputEvent::KeyPress(Key::KeyV));
            events.push(InputEvent::KeyRelease(Key::KeyV));
            events.push(InputEvent::KeyRelease(Key::ControlLeft));
            proof {
                assert(events@ =~= action_events(*action));
            }
        }
        _ => {
            proof {
                assert(events@ =~= action_events(*action));
            }
        }
    }
    events
}

} // verus!
