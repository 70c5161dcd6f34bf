//! The sealing procedure as a state machine.
//!
//! The caller performs each filesystem action that the machine asks for and
//! reports whether it succeeded. The machine fixes the order of the steps,
//! supplies the decompressed content and the permission bits, and names the
//! step that failed.

use crate::payload::{unpack, unpacked, SealError, SetupStep};
use vstd::prelude::*;

verus! {

/// Name of the extracted file inside the temporary directory.
pub const TOOL_FILE_NAME: &'static str = "krane";

/// Permission bits of the extracted file: read, write and execute for the
/// owner, read and execute for group and others.
pub const TOOL_MODE: u32 = 0o755;

/// Whether the action last asked for completed.
#[derive(Debug, Clone, Copy, PartialEq, Eq, Structural)]
pub enum StepOutcome {
    Succeeded,
    Failed,
}

/// Where a sealing run stands: which action's outcome it waits for, or how
/// it ended.
#[derive(Debug, Clone, Copy, PartialEq, Eq, Structural)]
pub enum SealState {
    CreatingDir,
    CreatingFile,
    SettingPermissions,
    Writing,
    Sealed,
    Failed(SealError),
}

/// What the caller is to do next.
#[derive(Debug, Clone, PartialEq, Eq)]
pub enum SealAction {
    /// Create a fresh private temporary directory.
    CreateDir,
    /// Create the file named `TOOL_FILE_NAME` inside that directory.
    CreateFile,
    /// Set the file's permission bits to the given mode.
    SetPermissions(u32),
    /// Write exactly these bytes as the file's content.
    WriteFile(Vec<u8>),
    /// The file is complete and executable: hand out its path.
    Finish,
    /// Give up; the asset is unavailable for this reason.
    Abort(SealError),
}

/// `SealAction` with the content as a sequence.
pub enum ActionView {
    CreateDir,
    CreateFile,
    SetPermissions(u32),
    WriteFile(Seq<u8>),
    Finish,
    Abort(SealError),
}

impl View for SealAction {
    type V = ActionView;

    open spec fn view(&self) -> ActionView {
        match self {
            SealAction::CreateDir => ActionView::CreateDir,
            SealAction::CreateFile => ActionView::CreateFile,
            SealAction::SetPermissions(m) => ActionView::SetPermissions(*m),
            SealAction::WriteFile(b) => ActionView::WriteFile(b@),
            SealAction::Finish => ActionView::Finish,
            SealAction::Abort(e) => ActionView::Abort(*e),
        }
    }
}

/// The step whose outcome a state waits for.
pub open spec fn pending_step(s: SealState) -> SetupStep {
    match s {
        SealState::CreatingDir => SetupStep::CreateDir,
        SealState::CreatingFile => SetupStep::CreateFile,
        SealState::SettingPermissions => SetupStep::SetPermissions,
        _ => SetupStep::WriteFile,
    }
}

/// What follows a successful permission change, given the unpacked payload.
pub open spec fn after_permissions(u: Result<Seq<u8>, SealError>) -> (SealState, ActionView) {
    match u {
        Ok(bytes) => (SealState::Writing, ActionView::WriteFile(bytes)),
        Err(e) => (SealState::Failed(e), ActionView::Abort(e)),
    }
}

/// One transition: the state reached and the action asked for, when the
/// action awaited in `s` had outcome `o` and the payload unpacks to `u`.
/// A finished run stays as it is: a sealed one keeps finishing, a failed one
/// keeps aborting with the same error and never retries.
pub open spec fn next(s: SealState, o: StepOutcome, u: Result<Seq<u8>, SealError>) -> (
    SealState,
    ActionView,
) {
    match s {
        SealState::Sealed => (SealState::Sealed, ActionView::Finish),
        SealState::Failed(e) => (SealState::Failed(e), ActionView::Abort(e)),
        _ => if o is Failed {
            let e = SealError::Setup(pending_step(s));
            (SealState::Failed(e), ActionView::Abort(e))
        } else {
            match s {
                SealState::CreatingDir => (SealState::CreatingFile, ActionView::CreateFile),
                SealState::CreatingFile => (
                    SealState::SettingPermissions,
                    ActionView::SetPermissions(TOOL_MODE),
                ),
                SealState::SettingPermissions => after_permissions(u),
                _ => (SealState::Sealed, ActionView::Finish),
            }
        },
    }
}

/// Starts a sealing run: the first thing to do is create the directory.
pub fn begin() -> (r: (SealState, SealAction))
    ensures
        r.0 == SealState::CreatingDir,
        r.1@ == ActionView::CreateDir,
{
    (SealState::CreatingDir, SealAction::CreateDir)
}

/// The transition out of `SettingPermissions` once the permission bits are
/// in place, for a given result of unpacking the payload.
pub fn after_permissions_set(unpacked: Result<Vec<u8>, SealError>) -> (r: (SealState, SealAction))
    ensures
        (r.0, r.1@) == after_permissions(
            match unpacked {
                Ok(b) => Ok(b@),
                Err(e) => Err(e),
            },
        ),
{
    match unpacked {
        Ok(bytes) => (SealState::Writing, SealAction::WriteFile(bytes)),
        Err(e) => (SealState::Failed(e), SealAction::Abort(e)),
    }
}

/// Advances a sealing run by the outcome of the action it waited for.
/// The payload is unpacked only when the file is ready to receive it.
pub fn step(state: SealState, outcome: StepOutcome, payload: &[u8]) -> (r: (SealState, SealAction))
    ensures
        (r.0, r.1@) == next(state, outcome, unpacked(payload@)),
{
    match state {
        SealState::Sealed => (SealState::Sealed, SealAction::Finish),
        SealState::Failed(e) => (SealState::Failed(e), SealAction::Abort(e)),
        _ => match outcome {
            StepOutcome::Failed => {
                let failed = match state {
                    SealState::CreatingDir => SetupStep::CreateDir,
                    SealState::CreatingFile => SetupStep::CreateFile,
                    SealState::SettingPermissions => SetupStep::SetPermissions,
                    _ => SetupStep::WriteFile,
                };
                (SealState::Failed(SealError::Setup(failed)), SealAction::Abort(SealError::Setup(failed)))
            },
            StepOutcome::Succeeded => match state {
                SealState::CreatingDir => (SealState::CreatingFile, SealAction::CreateFile),
                SealState::CreatingFile => (
                    SealState::SettingPermissions,
                    SealAction::SetPermissions(TOOL_MODE),
                ),
                SealState::SettingPermissions => after_permissions_set(unpack(payload)),
                _ => (SealState::Sealed, SealAction::Finish),
            },
        },
    }
}

} // verus!
