//! A model of the durable files that the agent and the applier share: the
//! staging area (artifact, signature, ready marker, applied marker) and the
//! install area (current binary, one backup). It gives meaning to the staging
//! writes that a poll cycle requests, and states what a cycle can leave behind.
use vstd::prelude::*;
use crate::applier::{ApplyError, ApplyOp, plan_on};
use crate::poller::{ActionView, EventView, ManifestView, PhaseView, PollError, StagedFile, next};
use crate::signature::{ED25519_KEY_LEN, ed25519_accepts};

verus! {

/// Contents of each file, `None` where the file is absent.
pub struct StorageView {
    pub artifact: Option<Seq<u8>>,
    pub signature: Option<Seq<u8>>,
    pub ready: Option<Seq<char>>,
    pub applied: Option<Seq<char>>,
    pub current: Option<Seq<u8>>,
    pub backup: Option<Seq<u8>>,
}

/// The effect on storage of performing one poll-cycle action.
pub open spec fn record(d: StorageView, a: ActionView) -> StorageView {
    match a {
        ActionView::Stage(StagedFile::Artifact, b) => StorageView { artifact: Some(b), ..d },
        ActionView::Stage(StagedFile::Signature, b) => StorageView { signature: Some(b), ..d },
        ActionView::MarkReady(v) => StorageView { ready: Some(v), ..d },
        _ => d,
    }
}

/// Storage after performing `acts` in order.
pub open spec fn record_all(d: StorageView, acts: Seq<ActionView>) -> StorageView
    decreases acts.len(),
{
    if acts.len() == 0 {
        d
    } else {
        record_all(record(d, acts[0]), acts.drop_first())
    }
}

/// The phase reached and the actions requested when a cycle in phase `p`
/// receives `evs` in order.
pub open spec fn run(p: PhaseView, evs: Seq<EventView>) -> (PhaseView, Seq<ActionView>)
    decreases evs.len(),
{
    if evs.len() == 0 {
        (p, seq![])
    } else {
        let (q, a) = next(p, evs[0]);
        let (r, acts) = run(q, evs.drop_first());
        (r, seq![a] + acts)
    }
}

/// Storage after a cycle started on `d` has received `evs`, with every
/// requested action performed.
pub open spec fn after_cycle(d: StorageView, evs: Seq<EventView>) -> StorageView {
    record_all(d, run(PhaseView::AwaitManifest, evs).1)
}

/// A visible ready marker vouches for a staged artifact and signature that a
/// 32-byte key authenticates.
pub open spec fn authentic(d: StorageView) -> bool {
    d.ready is Some ==> {
        &&& d.artifact is Some
        &&& d.signature is Some
        &&& exists|k: Seq<u8>|
            k.len() == ED25519_KEY_LEN && #[trigger] ed25519_accepts(k, d.artifact->0, d.signature->0)
    }
}

/// What holds between a cycle's phase and the storage it has written so far.
pub open spec fn cycle_inv(p: PhaseView, d: StorageView) -> bool {
    &&& authentic(d)
    &&& match p {
        PhaseView::AwaitManifest => d.ready is None,
        PhaseView::AwaitArtifact { .. } => d.ready is None,
        PhaseView::AwaitSignature { .. } => d.ready is None,
        PhaseView::AwaitKey { .. } => d.ready is None,
        PhaseView::WritingArtifact { artifact, signature, key, .. } => {
            &&& d.ready is None
            &&& d.artifact == Some(artifact)
            &&& key.len() == ED25519_KEY_LEN
            &&& ed25519_accepts(key, artifact, signature)
        },
        PhaseView::WritingSignature { artifact, signature, key, .. } => {
            &&& d.ready is None
            &&& d.artifact == Some(artifact)
            &&& d.signature == Some(signature)
            &&& key.len() == ED25519_KEY_LEN
            &&& ed25519_accepts(key, artifact, signature)
        },
        PhaseView::WritingMarker { version, artifact, signature, .. } => {
            &&& d.ready == Some(version)
            &&& d.artifact == Some(artifact)
            &&& d.signature == Some(signature)
        },
        PhaseView::Done(r) => r is Ok ==> d.ready is Some,
    }
}

proof fn lemma_step_inv(p: PhaseView, d: StorageView, e: EventView)
    requires
        cycle_inv(p, d),
    ensures
        cycle_inv(next(p, e).0, record(d, next(p, e).1)),
{
    let (q, a) = next(p, e);
    let d2 = record(d, a);
    if let PhaseView::WritingSignature { version, artifact, signature, key } = p {
        if e is Written {
            assert(ed25519_accepts(key, d2.artifact->0, d2.signature->0));
        }
    }
}

proof fn lemma_run_inv(p: PhaseView, d: StorageView, evs: Seq<EventView>)
    requires
        cycle_inv(p, d),
    ensures
        cycle_inv(run(p, evs).0, record_all(d, run(p, evs).1)),
    decreases evs.len(),
{
    if evs.len() > 0 {
        let (q, a) = next(p, evs[0]);
        lemma_step_inv(p, d, evs[0]);
        lemma_run_inv(q, record(d, a), evs.drop_first());
        let acts = run(p, evs).1;
        assert(acts[0] == a);
        assert(acts.drop_first() == run(q, evs.drop_first()).1);
    }
}

/// The ready marker is written last: whatever events a cycle receives,
/// starting from storage that shows no ready update, a visible ready marker
/// always comes with the artifact and signature it vouches for, authenticated
/// by a 32-byte key. A cycle interrupted before it requests the marker (after
/// the signature write included) leaves no ready marker at all, which the
/// applier treats as no update.
pub proof fn marker_written_last(d: StorageView, evs: Seq<EventView>)
    requires
        d.ready is None,
    ensures
        authentic(after_cycle(d, evs)),
        !(run(PhaseView::AwaitManifest, evs).0 is WritingMarker) && !(run(PhaseView::AwaitManifest, evs).0 is Done)
            ==> after_cycle(d, evs).ready is None && plan_on(after_cycle(d, evs)) == Ok::<Seq<ApplyOp>, ApplyError>(seq![]),
{
    lemma_run_inv(PhaseView::AwaitManifest, d, evs);
}

/// The phase reached and the storage left when a cycle in phase `p`, on
/// storage `d`, receives `evs`.
pub open spec fn drive(p: PhaseView, d: StorageView, evs: Seq<EventView>) -> (PhaseView, StorageView) {
    (run(p, evs).0, record_all(d, run(p, evs).1))
}

proof fn lemma_drive_first(p: PhaseView, d: StorageView, evs: Seq<EventView>)
    requires
        evs.len() > 0,
    ensures
        drive(p, d, evs) == drive(next(p, evs[0]).0, record(d, next(p, evs[0]).1), evs.drop_first()),
{
    let (q, a) = next(p, evs[0]);
    let acts = run(p, evs).1;
    assert(acts[0] == a);
    assert(acts.drop_first() == run(q, evs.drop_first()).1);
}

proof fn lemma_drive_done(r: Result<(), PollError>, d: StorageView, evs: Seq<EventView>)
    ensures
        drive(PhaseView::Done(r), d, evs) == (PhaseView::Done(r), d),
    decreases evs.len(),
{
    if evs.len() > 0 {
        lemma_drive_first(PhaseView::Done(r), d, evs);
        lemma_drive_done(r, d, evs.drop_first());
    }
}

/// Fail-closed signing: after a manifest that names no signature URL, no
/// file is written, whatever events follow.
pub proof fn unsigned_stages_nothing(d: StorageView, m: ManifestView, rest: Seq<EventView>)
    requires
        m.signature_url is None,
    ensures
        after_cycle(d, seq![EventView::Manifest(m)] + rest) == d,
{
    let evs = seq![EventView::Manifest(m)] + rest;
    lemma_drive_first(PhaseView::AwaitManifest, d, evs);
    assert(evs.drop_first() =~= rest);
    let p1 = PhaseView::AwaitArtifact { manifest: m };
    if rest.len() > 0 {
        lemma_drive_first(p1, d, rest);
        let (p2, _a) = next(p1, rest[0]);
        lemma_drive_done(p2->0, d, rest.drop_first());
    }
}

/// A trust key of any length other than 32 bytes ends the cycle with a trust
/// configuration error before anything is written, whatever the artifact and
/// signature are and whatever events follow.
pub proof fn bad_key_stages_nothing(
    d: StorageView,
    m: ManifestView,
    artifact: Seq<u8>,
    signature: Seq<u8>,
    key: Seq<u8>,
    rest: Seq<EventView>,
)
    requires
        m.signature_url is Some,
        key.len() != ED25519_KEY_LEN,
    ensures
        drive(
            PhaseView::AwaitManifest,
            d,
            seq![EventView::Manifest(m), EventView::Bytes(artifact), EventView::Bytes(signature), EventView::Key(key)]
                + rest,
        ) == (PhaseView::Done(Err(PollError::TrustConfig)), d),
{
    let e0 = seq![EventView::Manifest(m), EventView::Bytes(artifact), EventView::Bytes(signature), EventView::Key(key)]
        + rest;
    let e1 = e0.drop_first();
    let e2 = e1.drop_first();
    let e3 = e2.drop_first();
    assert(e3.drop_first() =~= rest);
    lemma_drive_first(PhaseView::AwaitManifest, d, e0);
    lemma_drive_first(next(PhaseView::AwaitManifest, e0[0]).0, d, e1);
    let p2 = PhaseView::AwaitSignature { version: m.version, artifact };
    lemma_drive_first(p2, d, e2);
    let p3 = PhaseView::AwaitKey { version: m.version, artifact, signature };
    lemma_drive_first(p3, d, e3);
    lemma_drive_done(Err(PollError::TrustConfig), d, rest);
}

/// A complete cycle on a signed manifest stages the update exactly when the
/// signature is a valid detached Ed25519 signature of the artifact under a
/// 32-byte key: then the artifact, the signature and a ready marker holding
/// the version are written, and otherwise nothing is.
pub proof fn staged_iff_signature_valid(
    d: StorageView,
    m: ManifestView,
    artifact: Seq<u8>,
    signature: Seq<u8>,
    key: Seq<u8>,
)
    requires
        m.signature_url is Some,
    ensures
        ({
            let evs = seq![
                EventView::Manifest(m),
                EventView::Bytes(artifact),
                EventView::Bytes(signature),
                EventView::Key(key),
                EventView::Written,
                EventView::Written,
                EventView::Written,
            ];
            let valid = key.len() == ED25519_KEY_LEN && ed25519_accepts(key, artifact, signature);
            &&& valid ==> drive(PhaseView::AwaitManifest, d, evs) == (
                PhaseView::Done(Ok(())),
                StorageView { artifact: Some(artifact), signature: Some(signature), ready: Some(m.version), ..d },
            )
            &&& !valid ==> drive(PhaseView::AwaitManifest, d, evs).1 == d
        }),
{
    let e0 = seq![
        EventView::Manifest(m),
        EventView::Bytes(artifact),
        EventView::Bytes(signature),
        EventView::Key(key),
        EventView::Written,
        EventView::Written,
        EventView::Written,
    ];
    let e1 = e0.drop_first();
    let e2 = e1.drop_first();
    let e3 = e2.drop_first();
    let e4 = e3.drop_first();
    let e5 = e4.drop_first();
    let e6 = e5.drop_first();
    let e7 = e6.drop_first();
    assert(e4 =~= seq![EventView::Written, EventView::Written, EventView::Written]);
    assert(e7.len() == 0);
    lemma_drive_first(PhaseView::AwaitManifest, d, e0);
    lemma_drive_first(next(PhaseView::AwaitManifest, e0[0]).0, d, e1);
    let p2 = PhaseView::AwaitSignature { version: m.version, artifact };
    lemma_drive_first(p2, d, e2);
    let p3 = PhaseView::AwaitKey { version: m.version, artifact, signature };
    lemma_drive_first(p3, d, e3);
    let (p4, a4) = next(p3, e3[0]);
    let d4 = record(d, a4);
    if key.len() == ED25519_KEY_LEN && ed25519_accepts(key, artifact, signature) {
        lemma_drive_first(p4, d4, e4);
        let (p5, a5) = next(p4, e4[0]);
        let d5 = record(d4, a5);
        lemma_drive_first(p5, d5, e5);
        let (p6, a6) = next(p5, e5[0]);
        let d6 = record(d5, a6);
        lemma_drive_first(p6, d6, e6);
    } else {
        lemma_drive_done(p4->0, d4, e4);
    }
}

} // verus!
