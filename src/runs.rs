//! Whole sealing runs, and what holds of every one of them.

use crate::payload::{gunzip_of, unpacked, SealError};
use crate::sealing::{next, ActionView, SealState, StepOutcome, TOOL_MODE};
use vstd::prelude::*;

verus! {

/// The state reached and the actions asked for, in order, when a run that
/// began with `begin` is told the outcomes `outcomes` and the payload
/// unpacks to `u`.
pub open spec fn run(u: Result<Seq<u8>, SealError>, outcomes: Seq<StepOutcome>) -> (
    SealState,
    Seq<ActionView>,
)
    decreases outcomes.len(),
{
    if outcomes.len() == 0 {
        (SealState::CreatingDir, seq![ActionView::CreateDir])
    } else {
        let prev = run(u, outcomes.drop_last());
        let n = next(prev.0, outcomes.last(), u);
        (n.0, prev.1.push(n.1))
    }
}

/// The first three actions of every run that gets as far as asking for the
/// content.
pub open spec fn setup_actions() -> Seq<ActionView> {
    seq![
        ActionView::CreateDir,
        ActionView::CreateFile,
        ActionView::SetPermissions(TOOL_MODE),
    ]
}

/// Whether `mode` lets the owner execute the file.
pub open spec fn owner_may_execute(mode: u32) -> bool {
    mode & 0o100 != 0
}

/// Whether `mode` lets everyone read the file.
pub open spec fn all_may_read(mode: u32) -> bool {
    mode & 0o444 == 0o444
}

/// Whether `mode` keeps group and others from writing the file.
pub open spec fn only_owner_writes(mode: u32) -> bool {
    mode & 0o022 == 0
}

/// The extracted file is readable by everyone, executable by its owner, and
/// writable by its owner alone.
pub proof fn lemma_tool_mode()
    ensures
        owner_may_execute(TOOL_MODE),
        all_may_read(TOOL_MODE),
        only_owner_writes(TOOL_MODE),
{
    assert(0o755u32 & 0o100 != 0) by (bit_vector);
    assert(0o755u32 & 0o444 == 0o444) by (bit_vector);
    assert(0o755u32 & 0o022 == 0) by (bit_vector);
}

/// When every filesystem step succeeds, a run creates the directory, then
/// the file, sets the permission bits before any content is written, writes
/// exactly the decompressed payload, and finishes sealed. When the payload
/// does not decompress, the same run aborts with a decompression error
/// where it would have written, so no truncated file is ever offered.
pub proof fn lemma_clean_run(payload: Seq<u8>)
    ensures
        gunzip_of(payload) is Some ==> run(
            unpacked(payload),
            seq![StepOutcome::Succeeded; 4],
        ) == (SealState::Sealed, setup_actions() + seq![
            ActionView::WriteFile(gunzip_of(payload)->Some_0),
            ActionView::Finish,
        ]),
        gunzip_of(payload) is None ==> run(unpacked(payload), seq![StepOutcome::Succeeded; 3]) == (
            SealState::Failed(SealError::Decompression),
            setup_actions().push(ActionView::Abort(SealError::Decompression)),
        ),
{
    let u = unpacked(payload);
    let ok = StepOutcome::Succeeded;
    assert(seq![ok; 1].drop_last() =~= seq![ok; 0]);
    assert(seq![ok; 2].drop_last() =~= seq![ok; 1]);
    assert(seq![ok; 3].drop_last() =~= seq![ok; 2]);
    assert(seq![ok; 4].drop_last() =~= seq![ok; 3]);
    assert(seq![ok; 1].last() == ok);
    assert(seq![ok; 2].last() == ok);
    assert(seq![ok; 3].last() == ok);
    assert(seq![ok; 4].last() == ok);
    let r0 = run(u, seq![ok; 0]);
    let r1 = run(u, seq![ok; 1]);
    let r2 = run(u, seq![ok; 2]);
    let r3 = run(u, seq![ok; 3]);
    let r4 = run(u, seq![ok; 4]);
    assert(r1.0 == SealState::CreatingFile);
    assert(r2.0 == SealState::SettingPermissions);
    assert(r2.1 =~= setup_actions());
    if gunzip_of(payload) is Some {
        assert(r4.1 =~= setup_actions() + seq![
            ActionView::WriteFile(gunzip_of(payload)->Some_0),
            ActionView::Finish,
        ]);
    } else {
        assert(r3.1 =~= setup_actions().push(ActionView::Abort(SealError::Decompression)));
    }
}

/// What the actions of a run so far say about the state it is in.
spec fn consistent(u: Result<Seq<u8>, SealError>, s: SealState, acts: Seq<ActionView>) -> bool {
    match s {
        SealState::CreatingDir => acts == setup_actions().take(1),
        SealState::CreatingFile => acts == setup_actions().take(2),
        SealState::SettingPermissions => acts == setup_actions(),
        SealState::Writing => u is Ok && acts == setup_actions().push(ActionView::WriteFile(u->Ok_0)),
        SealState::Sealed => {
            &&& u is Ok
            &&& acts.len() >= 5
            &&& acts.take(3) == setup_actions()
            &&& acts[3] == ActionView::WriteFile(u->Ok_0)
            &&& acts[4] == ActionView::Finish
        },
        SealState::Failed(_) => true,
    }
}

proof fn lemma_run_consistent(u: Result<Seq<u8>, SealError>, outcomes: Seq<StepOutcome>)
    ensures
        consistent(u, run(u, outcomes).0, run(u, outcomes).1),
    decreases outcomes.len(),
{
    if outcomes.len() == 0 {
        assert(seq![ActionView::CreateDir] =~= setup_actions().take(1));
    } else {
        lemma_run_consistent(u, outcomes.drop_last());
        let prev = run(u, outcomes.drop_last());
        let cur = run(u, outcomes);
        match prev.0 {
            SealState::CreatingDir => {
                if cur.0 is CreatingFile {
                    assert(cur.1 =~= setup_actions().take(2));
                }
            },
            SealState::CreatingFile => {
                if cur.0 is SettingPermissions {
                    assert(cur.1 =~= setup_actions());
                }
            },
            SealState::SettingPermissions => {},
            SealState::Writing => {
                if cur.0 is Sealed {
                    assert(cur.1.take(3) =~= setup_actions());
                }
            },
            SealState::Sealed => {
                assert(cur.1.take(3) =~= prev.1.take(3));
            },
            SealState::Failed(_) => {},
        }
    }
}

/// A run only ever reaches `Sealed` after it asked for the permission bits
/// `TOOL_MODE` and then for the complete decompressed payload to be written,
/// whatever outcomes it was told.
pub proof fn lemma_sealed_means_complete(payload: Seq<u8>, outcomes: Seq<StepOutcome>)
    requires
        run(unpacked(payload), outcomes).0 is Sealed,
    ensures
        gunzip_of(payload) is Some,
        run(unpacked(payload), outcomes).1.len() >= 5,
        run(unpacked(payload), outcomes).1.take(3) == setup_actions(),
        run(unpacked(payload), outcomes).1[3] == ActionView::WriteFile(gunzip_of(payload)->Some_0),
        run(unpacked(payload), outcomes).1[4] == ActionView::Finish,
{
    lemma_run_consistent(unpacked(payload), outcomes);
}

/// Once a run has failed it stays failed with the same error, and every
/// later action is to abort with that error: nothing is retried.
pub proof fn lemma_failure_is_final(
    payload: Seq<u8>,
    outcomes: Seq<StepOutcome>,
    later: Seq<StepOutcome>,
)
    requires
        run(unpacked(payload), outcomes).0 is Failed,
    ensures
        run(unpacked(payload), outcomes + later).0 == run(unpacked(payload), outcomes).0,
        run(unpacked(payload), outcomes + later).1 == run(unpacked(payload), outcomes).1 + Seq::new(
            later.len(),
            |i: int| ActionView::Abort(run(unpacked(payload), outcomes).0->Failed_0),
        ),
    decreases later.len(),
{
    let u = unpacked(payload);
    let e = run(u, outcomes).0->Failed_0;
    if later.len() == 0 {
        assert(outcomes + later =~= outcomes);
        assert(run(u, outcomes).1 + Seq::new(0, |i: int| ActionView::Abort(e)) =~= run(
            u,
            outcomes,
        ).1);
    } else {
        lemma_failure_is_final(payload, outcomes, later.drop_last());
        assert((outcomes + later).drop_last() =~= outcomes + later.drop_last());
        assert(run(u, outcomes + later).1 =~= run(u, outcomes).1 + Seq::new(
            later.len(),
            |i: int| ActionView::Abort(e),
        ));
    }
}

} // verus!
