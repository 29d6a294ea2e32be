//! Promotion of a staged, ready update into the install area. The plan is a
//! list of file operations that the caller performs in order; the ready marker
//! is consumed last, so invoking the applier again finds nothing to do.
use vstd::prelude::*;
use crate::storage::StorageView;

verus! {

/// One file operation of a promotion.
#[derive(Clone, Copy, PartialEq, Eq, Structural, Debug)]
pub enum ApplyOp {
    /// Move the current binary into the backup slot, replacing any backup.
    BackupCurrent,
    /// Move the staged artifact into the current-binary slot.
    Install,
    /// Write the applied marker with the version read from the ready marker.
    RecordApplied,
    /// Remove the ready marker.
    ConsumeReady,
}

/// Why an applier run fails.
#[derive(Clone, Copy, PartialEq, Eq, Structural, Debug)]
pub enum ApplyError {
    /// A ready marker is present but the staged artifact is not.
    ArtifactMissing,
}

/// The operations for a run that sees the given files present.
pub open spec fn plan_for(ready: bool, staged: bool, current: bool) -> Result<Seq<ApplyOp>, ApplyError> {
    if !ready {
        Ok(seq![])
    } else if !staged {
        Err(ApplyError::ArtifactMissing)
    } else if current {
        Ok(seq![ApplyOp::BackupCurrent, ApplyOp::Install, ApplyOp::RecordApplied, ApplyOp::ConsumeReady])
    } else {
        Ok(seq![ApplyOp::Install, ApplyOp::RecordApplied, ApplyOp::ConsumeReady])
    }
}

/// The operations for a run on storage `d`.
pub open spec fn plan_on(d: StorageView) -> Result<Seq<ApplyOp>, ApplyError> {
    plan_for(d.ready is Some, d.artifact is Some, d.current is Some)
}

/// The effect of one operation on storage.
pub open spec fn perform(d: StorageView, op: ApplyOp) -> StorageView {
    match op {
        ApplyOp::BackupCurrent => StorageView { backup: d.current, current: None, ..d },
        ApplyOp::Install => StorageView { current: d.artifact, artifact: None, ..d },
        ApplyOp::RecordApplied => StorageView { applied: d.ready, ..d },
        ApplyOp::ConsumeReady => StorageView { ready: None, ..d },
    }
}

/// Storage after performing `ops` in order.
pub open spec fn perform_all(d: StorageView, ops: Seq<ApplyOp>) -> StorageView
    decreases ops.len(),
{
    if ops.len() == 0 {
        d
    } else {
        perform_all(perform(d, ops[0]), ops.drop_first())
    }
}

/// Plans an applier run from which files are present: nothing when no update
/// is ready, an error when the ready marker has no staged artifact beside it,
/// and otherwise backup (when a current binary exists), install, record the
/// applied version and consume the ready marker.
pub fn plan_apply(ready_present: bool, staged_present: bool, current_present: bool) -> (r: Result<Vec<ApplyOp>, ApplyError>)
    ensures
        match r {
            Ok(ops) => plan_for(ready_present, staged_present, current_present) == Ok::<Seq<ApplyOp>, ApplyError>(ops@),
            Err(e) => plan_for(ready_present, staged_present, current_present) == Err::<Seq<ApplyOp>, ApplyError>(e),
        },
{
    if !ready_present {
        return Ok(Vec::new());
    }
    if !staged_present {
        return Err(ApplyError::ArtifactMissing);
    }
    let mut ops: Vec<ApplyOp> = Vec::new();
    if current_present {
        ops.push(ApplyOp::BackupCurrent);
    }
    ops.push(ApplyOp::Install);
    ops.push(ApplyOp::RecordApplied);
    ops.push(ApplyOp::ConsumeReady);
    proof {
        if current_present {
            assert(ops@ =~= seq![ApplyOp::BackupCurrent, ApplyOp::Install, ApplyOp::RecordApplied, ApplyOp::ConsumeReady]);
        } else {
            assert(ops@ =~= seq![ApplyOp::Install, ApplyOp::RecordApplied, ApplyOp::ConsumeReady]);
        }
    }
    Ok(ops)
}

/// A run on storage with a ready update and its staged artifact promotes it:
/// the artifact becomes the current binary, the previous current binary (if
/// any) becomes the backup, the applied marker holds the ready version, and
/// the ready marker is gone. A second run then does nothing and succeeds.
pub proof fn apply_promotes_then_idles(d: StorageView)
    requires
        d.ready is Some,
        d.artifact is Some,
    ensures
        plan_on(d) is Ok,
        ({
            let d2 = perform_all(d, plan_on(d)->Ok_0);
            &&& d2.current == d.artifact
            &&& d2.backup == (if d.current is Some { d.current } else { d.backup })
            &&& d2.applied == d.ready
            &&& d2.ready is None
            &&& d2.artifact is None
            &&& d2.signature == d.signature
            &&& plan_on(d2) == Ok::<Seq<ApplyOp>, ApplyError>(seq![])
        }),
{
    let ops = plan_on(d)->Ok_0;
    reveal_with_fuel(perform_all, 5);
    if d.current is Some {
        assert(ops.drop_first() =~= seq![ApplyOp::Install, ApplyOp::RecordApplied, ApplyOp::ConsumeReady]);
    }
    assert(seq![ApplyOp::Install, ApplyOp::RecordApplied, ApplyOp::ConsumeReady].drop_first()
        =~= seq![ApplyOp::RecordApplied, ApplyOp::ConsumeReady]);
    assert(seq![ApplyOp::RecordApplied, ApplyOp::ConsumeReady].drop_first() =~= seq![ApplyOp::ConsumeReady]);
    assert(seq![ApplyOp::ConsumeReady].drop_first() =~= Seq::<ApplyOp>::empty());
}

/// A promotion interrupted at any point leaves a binary to run: a device
/// that had a current binary still has it as the current or the backup
/// binary, and the new artifact is either still staged or installed.
pub proof fn promotion_keeps_a_binary(d: StorageView, k: int)
    requires
        d.ready is Some,
        d.artifact is Some,
        d.current is Some,
        0 <= k <= 4,
    ensures
        plan_on(d) is Ok,
        plan_on(d)->Ok_0.len() == 4,
        ({
            let m = perform_all(d, plan_on(d)->Ok_0.take(k));
            &&& m.current is Some || m.backup == d.current
            &&& m.artifact == d.artifact || m.current == d.artifact
        }),
{
    let ops = plan_on(d)->Ok_0;
    reveal_with_fuel(perform_all, 5);
    assert(ops.take(0) =~= seq![]);
    assert(ops.take(1) =~= seq![ApplyOp::BackupCurrent]);
    assert(ops.take(2).drop_first() =~= seq![ApplyOp::Install]);
    assert(ops.take(3).drop_first() =~= seq![ApplyOp::Install, ApplyOp::RecordApplied]);
    assert(seq![ApplyOp::Install, ApplyOp::RecordApplied].drop_first() =~= seq![ApplyOp::RecordApplied]);
    assert(ops.take(4) =~= ops);
    assert(ops.drop_first() =~= seq![ApplyOp::Install, ApplyOp::RecordApplied, ApplyOp::ConsumeReady]);
    assert(seq![ApplyOp::Install, ApplyOp::RecordApplied, ApplyOp::ConsumeReady].drop_first()
        =~= seq![ApplyOp::RecordApplied, ApplyOp::ConsumeReady]);
    assert(seq![ApplyOp::RecordApplied, ApplyOp::ConsumeReady].drop_first() =~= seq![ApplyOp::ConsumeReady]);
    assert(seq![ApplyOp::ConsumeReady].drop_first() =~= Seq::<ApplyOp>::empty());
    assert(seq![ApplyOp::BackupCurrent].drop_first() =~= Seq::<ApplyOp>::empty());
    assert(seq![ApplyOp::Install].drop_first() =~= Seq::<ApplyOp>::empty());
    assert(seq![ApplyOp::RecordApplied].drop_first() =~= Seq::<ApplyOp>::empty());
}

/// With no ready marker the applier plans no operation and succeeds, so the
/// storage stays exactly as it was.
pub proof fn idle_without_ready(d: StorageView)
    requires
        d.ready is None,
    ensures
        plan_on(d) == Ok::<Seq<ApplyOp>, ApplyError>(seq![]),
        perform_all(d, seq![]) == d,
{
}

} // verus!
