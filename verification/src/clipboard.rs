//! Clipboard adapter: get/set the text content of the OS clipboard.
//!
//! Both operations are single synchronous OS calls with no retry. Whether
//! they succeed depends on the host (a clipboard may not exist at all on a
//! headless session), so the contracts promise only which outcomes can
//! come back; the OS clipboard itself is not modelled here (the model in
//! [`crate::model`] is).

use vstd::prelude::*;

use crate::outcome::ExecError;

verus! {

/// Relies on copypasta's `ClipboardContext::new` and
/// `ClipboardProvider::set_contents`: one synchronous write replacing the
/// clipboard's contents with `data`; `true` means the write was accepted,
/// `false` that the OS clipboard could not be opened or written.
#[verifier::external_body]
fn os_clipboard_set(data: &String) -> (accepted: bool)
{
    match copypasta::ClipboardContext::new() {
        Ok(mut ctx) => copypasta::ClipboardProvider::set_contents(&mut ctx, data.clone()).is_ok(),
        Err(_) => false,
    }
}

/// Relies on copypasta's `ClipboardContext::new` and
/// `ClipboardProvider::get_contents`: one synchronous read of the
/// clipboard's current text. `Err(false)` means the OS clipboard could not
/// be opened; `Err(true)` that the opened clipboard's content could not be
/// read as text.
#[verifier::external_body]
fn os_clipboard_get() -> (r: Result<String, bool>)
{
    match copypasta::ClipboardContext::new() {
        Ok(mut ctx) => match copypasta::ClipboardProvider::get_contents(&mut ctx) {
            Ok(text) => Ok(text),
            Err(_) => Err(true),
        },
        Err(_) => Err(false),
    }
}

/// Replace the OS clipboard's contents with `data`; fails with
/// `ClipboardUnavailable` when the OS clipboard cannot be opened or
/// written.
pub fn set_clipboard_text(data: &String) -> (r: Result<(), ExecError>)
    ensures
        r matches Err(e) ==> e == ExecError::ClipboardUnavailable,
{
    if os_clipboard_set(data) {
        Ok(())
    } else {
        Err(ExecError::ClipboardUnavailable)
    }
}

/// Read the OS clipboard's current text content; fails with
/// `ClipboardUnavailable` when the clipboard cannot be opened, and with
/// `NotText` when it holds no readable text.
pub fn get_clipboard_text() -> (r: Result<String, ExecError>)
    ensures
        r matches Err(e) ==> e == ExecError::ClipboardUnavailable || e == ExecError::NotText,
{
    match os_clipboard_get() {
        Ok(text) => Ok(text),
        Err(true) => Err(ExecError::NotText),
        Err(false) => Err(ExecError::ClipboardUnavailable),
    }
}

} // verus!
