use flate2::write::GzEncoder;
use flate2::Compression;
use krane::payload::{SealError, SetupStep};
use krane::sealing::{after_permissions_set, begin, step, SealAction, SealState, StepOutcome, TOOL_FILE_NAME, TOOL_MODE};
use krane::Krane;
use std::io::Write;

fn gzip(content: &[u8]) -> Vec<u8> {
    let mut encoder = GzEncoder::new(Vec::new(), Compression::default());
    encoder.write_all(content).unwrap();
    encoder.finish().unwrap()
}

#[test]
fn a_clean_run_writes_the_decompressed_payload_after_the_mode() {
    let content = b"\x7fELF pretend binary".to_vec();
    let payload = gzip(&content);
    let (state, action) = begin();
    assert_eq!(state, SealState::CreatingDir);
    assert_eq!(action, SealAction::CreateDir);
    let (state, action) = step(state, StepOutcome::Succeeded, &payload);
    assert_eq!((state, action), (SealState::CreatingFile, SealAction::CreateFile));
    let (state, action) = step(SealState::CreatingFile, StepOutcome::Succeeded, &payload);
    assert_eq!(state, SealState::SettingPermissions);
    assert_eq!(action, SealAction::SetPermissions(0o755));
    let (state, action) = step(state, StepOutcome::Succeeded, &payload);
    assert_eq!(state, SealState::Writing);
    assert_eq!(action, SealAction::WriteFile(content.clone()));
    let (state, action) = step(state, StepOutcome::Succeeded, &payload);
    assert_eq!((state, action), (SealState::Sealed, SealAction::Finish));
}

#[test]
fn a_corrupted_payload_aborts_instead_of_writing() {
    let mut payload = gzip(b"\x7fELF pretend binary");
    payload.truncate(payload.len() - 3);
    let (state, action) = step(SealState::SettingPermissions, StepOutcome::Succeeded, &payload);
    assert_eq!(state, SealState::Failed(SealError::Decompression));
    assert_eq!(action, SealAction::Abort(SealError::Decompression));
}

#[test]
fn each_failed_step_is_named() {
    let payload = gzip(b"x");
    let cases = [
        (SealState::CreatingDir, SetupStep::CreateDir),
        (SealState::CreatingFile, SetupStep::CreateFile),
        (SealState::SettingPermissions, SetupStep::SetPermissions),
        (SealState::Writing, SetupStep::WriteFile),
    ];
    for (state, failed) in cases {
        let (next, action) = step(state, StepOutcome::Failed, &payload);
        assert_eq!(next, SealState::Failed(SealError::Setup(failed)));
        assert_eq!(action, SealAction::Abort(SealError::Setup(failed)));
    }
}

#[test]
fn a_failed_run_is_never_retried() {
    let payload = gzip(b"x");
    let failed = SealState::Failed(SealError::Setup(SetupStep::CreateFile));
    for outcome in [StepOutcome::Succeeded, StepOutcome::Failed] {
        let (next, action) = step(failed, outcome, &payload);
        assert_eq!(next, failed);
        assert_eq!(action, SealAction::Abort(SealError::Setup(SetupStep::CreateFile)));
    }
}

#[test]
fn a_sealed_run_stays_sealed() {
    let (next, action) = step(SealState::Sealed, StepOutcome::Failed, b"not even gzip");
    assert_eq!((next, action), (SealState::Sealed, SealAction::Finish));
}

#[test]
fn after_permissions_set_writes_or_aborts() {
    assert_eq!(
        after_permissions_set(Ok(vec![1, 2, 3])),
        (SealState::Writing, SealAction::WriteFile(vec![1, 2, 3]))
    );
    assert_eq!(
        after_permissions_set(Err(SealError::Decompression)),
        (SealState::Failed(SealError::Decompression), SealAction::Abort(SealError::Decompression))
    );
}

#[test]
fn tool_mode_is_executable_and_readable() {
    assert_eq!(TOOL_MODE, 0o755);
    assert_ne!(TOOL_MODE & 0o100, 0);
    assert_eq!(TOOL_MODE & 0o444, 0o444);
    assert_eq!(TOOL_MODE & 0o022, 0);
    assert_eq!(TOOL_FILE_NAME, "krane");
}

#[test]
fn only_a_sealed_run_yields_an_asset() {
    let dir = tempfile::TempDir::new().unwrap();
    let path = dir.path().join(TOOL_FILE_NAME);
    let krane = Krane::from_sealed(SealState::Sealed, dir, path.clone()).unwrap();
    assert_eq!(krane.path(), &path);
    assert_eq!(krane.path(), krane.path());

    let dir = tempfile::TempDir::new().unwrap();
    let path = dir.path().join(TOOL_FILE_NAME);
    assert!(Krane::from_sealed(SealState::Writing, dir, path).is_none());
}
