//! Brightness adapter: enumerate all controllable displays and report or
//! set each one's brightness percentage.
//!
//! Displays are enumerated fresh on every call and never outlive it. A
//! single device's read/write failure must not abort enumeration of the
//! remaining devices: the folds below count it and carry on, and only a
//! failure of the enumeration source itself is fatal.

use vstd::prelude::*;

use crate::outcome::DisplayInfo;
use crate::outcome::ExecError;
use crate::outcome::ExecOutput;

verus! {

/// One OS-controllable display whose luminance can be read or set, owned
/// exclusively by the adapter call that enumerated it.
#[verifier::external_type_specification]
#[verifier::external_body]
pub struct ExBrightnessDevice(brightness::blocking::BrightnessDevice);

/// Relies on brightness's blocking `brightness_devices`: enumerates every
/// controllable display of the running system, yielding an error item when
/// the enumeration source itself cannot be opened; `None` maps that case.
#[verifier::external_body]
fn os_enumerate_displays() -> (r: Option<Vec<brightness::blocking::BrightnessDevice>>)
{
    brightness::blocking::brightness_devices().collect::<Result<Vec<_>, _>>().ok()
}

/// Relies on brightness's blocking `Brightness::device_name`: reads the
/// display's device name; `None` when the read fails.
#[verifier::external_body]
fn os_display_name(dev: &brightness::blocking::BrightnessDevice) -> (r: Option<String>)
{
    brightness::blocking::Brightness::device_name(dev).ok()
}

/// Relies on brightness's blocking `Brightness::get`: reads the display's
/// current brightness as a percentage; `None` when the read fails.
#[verifier::external_body]
fn os_display_level(dev: &brightness::blocking::BrightnessDevice) -> (r: Option<u32>)
{
    brightness::blocking::Brightness::get(dev).ok()
}

/// Relies on brightness's blocking `Brightness::set`: writes the display's
/// brightness percentage (the crate clamps an over-large value to 100 and
/// never panics); `false` when the write fails.
#[verifier::external_body]
fn os_display_set(dev: &brightness::blocking::BrightnessDevice, level: u32) -> (accepted: bool)
{
    brightness::blocking::Brightness::set(dev, level).is_ok()
}

/// Read one display's name and current brightness level; `None` when either
/// read fails (a per-device failure that the enumeration folds count
/// instead of propagating).
pub fn show_brightness(dev: &brightness::blocking::BrightnessDevice) -> (r: Option<DisplayInfo>)
{
    match os_display_name(dev) {
        Some(name) => match os_display_level(dev) {
            Some(level) => Some(DisplayInfo { name, level }),
            None => None,
        },
        None => None,
    }
}

/// Apply `level` to one display, reporting whether the write was accepted.
pub fn set_brightness(dev: &brightness::blocking::BrightnessDevice, level: u32) -> (applied: bool)
    requires
        level <= 100,
{
    os_display_set(dev, level)
}

/// Read every enumerated display in order, counting the devices that
/// failed a read instead of aborting on them: every device is accounted
/// for, either by an entry or by the failure count.
pub fn read_displays(devices: &Vec<brightness::blocking::BrightnessDevice>) -> (r: (
    Vec<DisplayInfo>,
    usize,
))
    ensures
        r.0@.len() + r.1 == devices@.len(),
{
    let mut entries: Vec<DisplayInfo> = Vec::new();
    let mut failed: usize = 0;
    let mut i: usize = 0;
    while i < devices.len()
        invariant
            i <= devices@.len(),
            entries@.len() + failed == i,
        decreases devices@.len() - i,
    {
        match show_brightness(&devices[i]) {
            Some(info) => entries.push(info),
            None => failed = failed + 1,
        }
        i = i + 1;
    }
    (entries, failed)
}

/// Apply `level` to every enumerated display in order, counting both the
/// devices that took the write and the devices that failed it: every
/// device is accounted for.
pub fn set_displays(devices: &Vec<brightness::blocking::BrightnessDevice>, level: u32) -> (r: (
    usize,
    usize,
))
    requires
        level <= 100,
    ensures
        r.0 + r.1 == devices@.len(),
{
    let mut applied: usize = 0;
    let mut failed: usize = 0;
    let mut i: usize = 0;
    while i < devices.len()
        invariant
            i <= devices@.len(),
            applied + failed == i,
            level <= 100,
        decreases devices@.len() - i,
    {
        if set_brightness(&devices[i], level) {
            applied = applied + 1;
        } else {
            failed = failed + 1;
        }
        i = i + 1;
    }
    (applied, failed)
}

/// Enumerate all displays and report each one's name and current level,
/// with the count of devices whose read failed; fails only when the
/// display enumeration source itself cannot be opened.
pub fn brightness_get_info() -> (r: Result<ExecOutput, ExecError>)
    ensures
        r matches Ok(out) ==> out matches ExecOutput::DisplayLevels { .. },
        r matches Err(e) ==> e == ExecError::DeviceEnumerationFailed,
{
    match os_enumerate_displays() {
        Some(devices) => {
            let (entries, failed) = read_displays(&devices);
            Ok(ExecOutput::DisplayLevels { entries, failed })
        }
        None => Err(ExecError::DeviceEnumerationFailed),
    }
}

/// Enumerate all displays and apply `level` to every one, reporting the
/// counts affected and failed; fails only when the display enumeration
/// source itself cannot be opened.
pub fn brightness_set_info(level: u32) -> (r: Result<ExecOutput, ExecError>)
    requires
        level <= 100,
    ensures
        r matches Ok(out) ==> out matches ExecOutput::DisplaysSet { .. },
        r matches Err(e) ==> e == ExecError::DeviceEnumerationFailed,
{
    match os_enumerate_displays() {
        Some(devices) => {
            let (applied, failed) = set_displays(&devices, level);
            Ok(ExecOutput::DisplaysSet { applied, failed })
        }
        None => Err(ExecError::DeviceEnumerationFailed),
    }
}

} // verus!
