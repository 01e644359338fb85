use system_actions::audio::ActionType;
use system_actions::audio::AudioSessions;
use system_actions::audio::VolumeAction as EndpointVolumeAction;
use system_actions::model::HostModel;
use system_actions::outcome::DisplayInfo;
use system_actions::outcome::ExecError;
use system_actions::outcome::ExecOutput;
use system_actions::ClipboardAction;
use system_actions::MonitorBrightnessAction;
use system_actions::SystemAction;
use system_actions::VolumeAction;

fn empty_host() -> HostModel {
    HostModel {
        clipboard: None,
        audio: AudioSessions { muted: Vec::new() },
        displays: Vec::new(),
    }
}

#[test]
fn set_clipboard_then_get_returns_the_text() {
    let mut host = empty_host();
    let set = SystemAction::Clipboard {
        action: ClipboardAction::SetClipboard { data: String::from("x") },
    };
    assert_eq!(host.apply(&set), Ok(ExecOutput::Done));
    let get = SystemAction::Clipboard { action: ClipboardAction::GetClipboard };
    assert_eq!(
        host.apply(&get),
        Ok(ExecOutput::ClipboardText { text: String::from("x") })
    );
}

#[test]
fn get_of_an_empty_clipboard_fails_with_not_text() {
    let mut host = empty_host();
    let get = SystemAction::Clipboard { action: ClipboardAction::GetClipboard };
    assert_eq!(host.apply(&get), Err(ExecError::NotText));
}

#[test]
fn brightness_set_then_get_reports_every_device_at_the_level() {
    let mut host = empty_host();
    host.displays = vec![
        DisplayInfo { name: String::from("panel"), level: 30 },
        DisplayInfo { name: String::from("external"), level: 70 },
    ];
    let set = SystemAction::Brightness {
        action: MonitorBrightnessAction::SetLevel { level: 50 },
    };
    assert_eq!(host.apply(&set), Ok(ExecOutput::DisplaysSet { applied: 2, failed: 0 }));
    let get = SystemAction::Brightness { action: MonitorBrightnessAction::Get };
    assert_eq!(
        host.apply(&get),
        Ok(ExecOutput::DisplayLevels {
            entries: vec![
                DisplayInfo { name: String::from("panel"), level: 50 },
                DisplayInfo { name: String::from("external"), level: 50 },
            ],
            failed: 0,
        })
    );
}

#[test]
fn brightness_get_with_no_devices_reports_zero_without_erroring() {
    let mut host = empty_host();
    let set = SystemAction::Brightness {
        action: MonitorBrightnessAction::SetLevel { level: 50 },
    };
    assert_eq!(host.apply(&set), Ok(ExecOutput::DisplaysSet { applied: 0, failed: 0 }));
    let get = SystemAction::Brightness { action: MonitorBrightnessAction::Get };
    assert_eq!(
        host.apply(&get),
        Ok(ExecOutput::DisplayLevels { entries: Vec::new(), failed: 0 })
    );
}

#[test]
fn toggling_mute_twice_restores_every_session() {
    let mut host = empty_host();
    host.audio = AudioSessions { muted: vec![false, true, false] };
    let toggle = SystemAction::Volume { action: VolumeAction::ToggleMute };
    assert_eq!(host.apply(&toggle), Ok(ExecOutput::Done));
    assert_eq!(host.audio.muted, vec![true, false, true]);
    assert_eq!(host.apply(&toggle), Ok(ExecOutput::Done));
    assert_eq!(host.audio.muted, vec![false, true, false]);
}

#[test]
fn wifi_on_the_model_fails_with_unsupported() {
    let mut host = empty_host();
    let action = SystemAction::Wifi {
        action: system_actions::WifiAction::Disconnect,
    };
    assert_eq!(host.apply(&action), Err(ExecError::Unsupported));
    assert_eq!(host, empty_host());
}

#[test]
fn endpoint_mute_applies_to_every_enumerated_session() {
    let mut sessions = AudioSessions { muted: vec![false, false, true] };
    let action = ActionType::Volume {
        action: EndpointVolumeAction::Mute { data: true },
    };
    assert_eq!(action.execute(&mut sessions), Ok(ExecOutput::Done));
    assert_eq!(sessions.muted, vec![true, true, true]);
    let unmute = ActionType::Volume {
        action: EndpointVolumeAction::Mute { data: false },
    };
    assert_eq!(unmute.execute(&mut sessions), Ok(ExecOutput::Done));
    assert_eq!(sessions.muted, vec![false, false, false]);
}

#[test]
fn endpoint_absolute_volume_is_an_explicit_stub() {
    let mut sessions = AudioSessions { muted: vec![false] };
    let action = ActionType::Volume {
        action: EndpointVolumeAction::SetVolume { amount: 40 },
    };
    assert_eq!(action.execute(&mut sessions), Err(ExecError::Unsupported));
    assert_eq!(sessions.muted, vec![false]);
}

#[test]
fn endpoint_brightness_is_an_explicit_stub() {
    let mut sessions = AudioSessions { muted: Vec::new() };
    assert_eq!(ActionType::Brightness.execute(&mut sessions), Err(ExecError::Unsupported));
}

#[test]
fn endpoint_open_of_a_missing_path_fails_with_launch_failed() {
    let mut sessions = AudioSessions { muted: Vec::new() };
    let action = ActionType::Open { path: String::from("/nonexistent/bad-target") };
    assert_eq!(action.execute(&mut sessions), Err(ExecError::LaunchFailed));
}

#[test]
fn model_volume_steps_report_done_and_touch_nothing() {
    let mut host = empty_host();
    host.audio = AudioSessions { muted: vec![true] };
    let before = host.clone();
    for op in [VolumeAction::LowerVolume, VolumeAction::IncreaseVolume] {
        let action = SystemAction::Volume { action: op };
        assert_eq!(host.apply(&action), Ok(ExecOutput::Done));
    }
    assert_eq!(host, before);
}
