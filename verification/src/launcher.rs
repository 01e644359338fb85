//! Process launcher: open a filesystem path or URI with the OS-default
//! handler.
//!
//! A direct passthrough: no sandboxing or validation of the path is
//! performed here; whether a handler exists is the host's affair.

use vstd::prelude::*;

use crate::outcome::ExecError;

verus! {

/// Relies on `opener::open`: asks the OS to open `path` with its default
/// handler, without waiting for the opened program to exit; `false` means
/// the launch failed — the target is a local path that does not exist, or
/// the launcher process could not be started. The call returns an error
/// rather than panicking on any path, and a launcher dispatched without
/// waiting may be reported as launched even when no handler exists.
#[verifier::external_body]
fn os_open(path: &String) -> (launched: bool)
{
    opener::open(path.as_str()).is_ok()
}

/// Ask the OS to open `path` with its default handler; fails with
/// `LaunchFailed` when the launch fails — a local target that does not
/// exist, or a launcher that could not be started — and never with a
/// process-level abort.
pub fn open_path(path: &String) -> (r: Result<(), ExecError>)
    ensures
        r matches Err(e) ==> e == ExecError::LaunchFailed,
{
    if os_open(path) {
        Ok(())
    } else {
        Err(ExecError::LaunchFailed)
    }
}

} // verus!
