use system_actions::emitter::Emitter;
use system_actions::events::InputEvent;
use system_actions::events::Key;
use system_actions::outcome::ExecError;
use system_actions::outcome::ExecOutput;
use system_actions::ClipboardAction;
use system_actions::MonitorBrightnessAction;
use system_actions::SystemAction;
use system_actions::VolumeAction;
use system_actions::WifiAction;

#[test]
fn executing_toggle_mute_delivers_press_then_release() {
    let (tx, mut rx) = tokio::sync::mpsc::unbounded_channel::<InputEvent>();
    let mut emitter = Emitter::new(tx);
    let action = SystemAction::Volume { action: VolumeAction::ToggleMute };
    let r = action.execute(&mut emitter);
    assert_eq!(r, Ok(ExecOutput::Done));
    assert_eq!(rx.try_recv(), Ok(InputEvent::KeyPress(Key::Code(173))));
    assert_eq!(rx.try_recv(), Ok(InputEvent::KeyRelease(Key::Code(173))));
    assert!(rx.try_recv().is_err());
}

#[test]
fn executing_paste_delivers_the_whole_combo_in_order() {
    let (tx, mut rx) = tokio::sync::mpsc::unbounded_channel::<InputEvent>();
    let mut emitter = Emitter::new(tx);
    let action = SystemAction::Clipboard { action: ClipboardAction::Paste };
    let r = action.execute(&mut emitter);
    assert_eq!(r, Ok(ExecOutput::Done));
    let mut received = Vec::new();
    while let Ok(event) = rx.try_recv() {
        received.push(event);
    }
    assert_eq!(
        received,
        vec![
            InputEvent::KeyPress(Key::ControlLeft),
            InputEvent::KeyPress(Key::KeyV),
            InputEvent::KeyRelease(Key::KeyV),
            InputEvent::KeyRelease(Key::ControlLeft),
        ]
    );
}

#[test]
fn two_executions_do_not_interleave_their_sequences() {
    let (tx, mut rx) = tokio::sync::mpsc::unbounded_channel::<InputEvent>();
    let mut emitter = Emitter::new(tx);
    let copy = SystemAction::Clipboard { action: ClipboardAction::Copy };
    let lower = SystemAction::Volume { action: VolumeAction::LowerVolume };
    assert_eq!(copy.execute(&mut emitter), Ok(ExecOutput::Done));
    assert_eq!(lower.execute(&mut emitter), Ok(ExecOutput::Done));
    let mut received = Vec::new();
    while let Ok(event) = rx.try_recv() {
        received.push(event);
    }
    assert_eq!(
        received,
        vec![
            InputEvent::KeyPress(Key::ControlLeft),
            InputEvent::KeyPress(Key::KeyC),
            InputEvent::KeyRelease(Key::KeyC),
            InputEvent::KeyRelease(Key::ControlLeft),
            InputEvent::KeyPress(Key::Code(174)),
            InputEvent::KeyRelease(Key::Code(174)),
        ]
    );
}

#[test]
fn send_fails_with_channel_closed_when_the_consumer_is_gone() {
    let (tx, rx) = tokio::sync::mpsc::unbounded_channel::<InputEvent>();
    drop(rx);
    let mut emitter = Emitter::new(tx);
    let action = SystemAction::Volume { action: VolumeAction::IncreaseVolume };
    assert_eq!(action.execute(&mut emitter), Err(ExecError::ChannelClosed));
    let combo = SystemAction::Clipboard { action: ClipboardAction::Copy };
    assert_eq!(combo.execute(&mut emitter), Err(ExecError::ChannelClosed));
}

#[test]
fn open_of_a_missing_path_fails_with_launch_failed() {
    let (tx, _rx) = tokio::sync::mpsc::unbounded_channel::<InputEvent>();
    let mut emitter = Emitter::new(tx);
    let action = SystemAction::Open { path: String::from("/nonexistent/bad-target") };
    assert_eq!(action.execute(&mut emitter), Err(ExecError::LaunchFailed));
}

#[test]
fn wifi_actions_fail_with_unsupported() {
    let (tx, _rx) = tokio::sync::mpsc::unbounded_channel::<InputEvent>();
    let mut emitter = Emitter::new(tx);
    for op in [WifiAction::Connect, WifiAction::Disconnect, WifiAction::Hotspot] {
        let action = SystemAction::Wifi { action: op };
        assert_eq!(action.execute(&mut emitter), Err(ExecError::Unsupported));
    }
}

#[test]
fn clipboard_set_reports_unavailable_or_accepts() {
    let (tx, _rx) = tokio::sync::mpsc::unbounded_channel::<InputEvent>();
    let mut emitter = Emitter::new(tx);
    let action = SystemAction::Clipboard {
        action: ClipboardAction::SetClipboard { data: String::from("x") },
    };
    match action.execute(&mut emitter) {
        Ok(out) => assert_eq!(out, ExecOutput::Done),
        Err(e) => assert_eq!(e, ExecError::ClipboardUnavailable),
    }
}

#[test]
fn clipboard_get_reports_text_or_the_exact_error_kind() {
    let (tx, _rx) = tokio::sync::mpsc::unbounded_channel::<InputEvent>();
    let mut emitter = Emitter::new(tx);
    let action = SystemAction::Clipboard { action: ClipboardAction::GetClipboard };
    match action.execute(&mut emitter) {
        Ok(out) => assert!(matches!(out, ExecOutput::ClipboardText { .. })),
        Err(e) => assert!(e == ExecError::ClipboardUnavailable || e == ExecError::NotText),
    }
}

#[test]
fn brightness_get_reports_devices_or_enumeration_failure() {
    let (tx, _rx) = tokio::sync::mpsc::unbounded_channel::<InputEvent>();
    let mut emitter = Emitter::new(tx);
    let action = SystemAction::Brightness { action: MonitorBrightnessAction::Get };
    match action.execute(&mut emitter) {
        Ok(out) => assert!(matches!(out, ExecOutput::DisplayLevels { .. })),
        Err(e) => assert_eq!(e, ExecError::DeviceEnumerationFailed),
    }
}

#[test]
fn brightness_set_reports_counts_or_enumeration_failure() {
    let (tx, _rx) = tokio::sync::mpsc::unbounded_channel::<InputEvent>();
    let mut emitter = Emitter::new(tx);
    let action = SystemAction::Brightness {
        action: MonitorBrightnessAction::SetLevel { level: 50 },
    };
    match action.execute(&mut emitter) {
        Ok(out) => assert!(matches!(out, ExecOutput::DisplaysSet { .. })),
        Err(e) => assert_eq!(e, ExecError::DeviceEnumerationFailed),
    }
}
