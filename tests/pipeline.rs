use iot_agent::applier::{plan_apply, ApplyError, ApplyOp};
use iot_agent::poller::{begin_cycle, after_key_loaded, step, Action, Event, Manifest, Phase, PollError, StagedFile};
use iot_agent::signature::verify_detached;
use iot_agent::watchdog::{device_byte, LoopEvent, Supervisor, WatchdogAction};
use ring::signature::{Ed25519KeyPair, KeyPair};

const SERVER: &str = "https://example.com/updates";

fn key_pair(seed: u8) -> Ed25519KeyPair {
    Ed25519KeyPair::from_seed_unchecked(&[seed; 32]).unwrap()
}

fn manifest(signature_url: Option<&str>) -> Manifest {
    Manifest {
        url: "https://example.com/a.bin".to_string(),
        signature_url: signature_url.map(|s| s.to_string()),
        version: "1.2.3".to_string(),
        notes: None,
    }
}

#[derive(Default, Debug, Clone, PartialEq)]
struct Files {
    artifact: Option<Vec<u8>>,
    signature: Option<Vec<u8>>,
    ready: Option<String>,
    applied: Option<String>,
    current: Option<Vec<u8>>,
    backup: Option<Vec<u8>>,
}

/// Feeds `events` to a fresh cycle, performing every staging action on `files`.
fn drive(events: Vec<Event>, files: &mut Files) -> (Phase, Vec<Action>) {
    let (mut phase, first) = begin_cycle(SERVER);
    let mut actions = vec![first];
    for e in events {
        let (p, a) = step(phase, e);
        match &a {
            Action::Stage(StagedFile::Artifact, b) => files.artifact = Some(b.clone()),
            Action::Stage(StagedFile::Signature, b) => files.signature = Some(b.clone()),
            Action::MarkReady(v) => files.ready = Some(v.clone()),
            _ => {}
        }
        phase = p;
        actions.push(a);
    }
    (phase, actions)
}

fn apply(files: &mut Files) -> Result<Vec<ApplyOp>, ApplyError> {
    let ops = plan_apply(files.ready.is_some(), files.artifact.is_some(), files.current.is_some())?;
    for op in &ops {
        match op {
            ApplyOp::BackupCurrent => files.backup = files.current.take(),
            ApplyOp::Install => files.current = files.artifact.take(),
            ApplyOp::RecordApplied => files.applied = files.ready.clone(),
            ApplyOp::ConsumeReady => files.ready = None,
        }
    }
    Ok(ops)
}

fn signed_events(artifact: &[u8], signature: &[u8], key: &[u8]) -> Vec<Event> {
    vec![
        Event::Manifest(manifest(Some("https://example.com/a.sig"))),
        Event::Bytes(artifact.to_vec()),
        Event::Bytes(signature.to_vec()),
        Event::Key(key.to_vec()),
        Event::Written,
        Event::Written,
        Event::Written,
    ]
}

#[test]
fn begin_cycle_fetches_manifest() {
    let (phase, action) = begin_cycle(SERVER);
    assert!(matches!(phase, Phase::AwaitManifest));
    match action {
        Action::Fetch(url) => assert_eq!(url, "https://example.com/updates/latest.json"),
        other => panic!("unexpected action {:?}", other),
    }
}

#[test]
fn end_to_end_poll_then_apply() {
    let kp = key_pair(7);
    let b = b"new firmware image".to_vec();
    let sig = kp.sign(&b).as_ref().to_vec();
    let mut files = Files { current: Some(b"old firmware".to_vec()), ..Files::default() };
    let (phase, actions) = drive(signed_events(&b, &sig, kp.public_key().as_ref()), &mut files);
    assert!(matches!(phase, Phase::Done(Ok(()))));
    assert!(matches!(&actions[1], Action::Fetch(u) if u == "https://example.com/a.bin"));
    assert!(matches!(&actions[2], Action::Fetch(u) if u == "https://example.com/a.sig"));
    assert!(matches!(&actions[3], Action::LoadKey));
    assert!(matches!(&actions[7], Action::Finish));
    assert_eq!(files.artifact, Some(b.clone()));
    assert_eq!(files.signature, Some(sig.clone()));
    assert_eq!(files.ready, Some("1.2.3".to_string()));

    let ops = apply(&mut files).unwrap();
    assert_eq!(ops, vec![ApplyOp::BackupCurrent, ApplyOp::Install, ApplyOp::RecordApplied, ApplyOp::ConsumeReady]);
    assert_eq!(files.backup, Some(b"old firmware".to_vec()));
    assert_eq!(files.current, Some(b));
    assert_eq!(files.applied, Some("1.2.3".to_string()));
    assert_eq!(files.ready, None);

    let before = files.clone();
    let again = apply(&mut files).unwrap();
    assert!(again.is_empty());
    assert_eq!(files, before);
}

#[test]
fn staged_order_is_artifact_signature_marker() {
    let kp = key_pair(3);
    let b = vec![1u8, 2, 3];
    let sig = kp.sign(&b).as_ref().to_vec();
    let mut files = Files::default();
    let (_, actions) = drive(signed_events(&b, &sig, kp.public_key().as_ref()), &mut files);
    assert!(matches!(&actions[4], Action::Stage(StagedFile::Artifact, x) if *x == b));
    assert!(matches!(&actions[5], Action::Stage(StagedFile::Signature, x) if *x == sig));
    assert!(matches!(&actions[6], Action::MarkReady(v) if v == "1.2.3"));
}

#[test]
fn unsigned_manifest_stages_nothing() {
    let mut files = Files::default();
    let events = vec![
        Event::Manifest(manifest(None)),
        Event::Bytes(b"payload".to_vec()),
        Event::Bytes(b"sig".to_vec()),
        Event::Key(vec![0u8; 32]),
        Event::Written,
    ];
    let (phase, actions) = drive(events, &mut files);
    assert!(matches!(phase, Phase::Done(Err(PollError::PolicyViolation))));
    assert!(actions.iter().all(|a| !matches!(a, Action::Stage(..) | Action::MarkReady(_) | Action::LoadKey)));
    assert_eq!(files, Files::default());
}

#[test]
fn tampered_artifact_is_discarded() {
    let kp = key_pair(9);
    let sig = kp.sign(b"genuine").as_ref().to_vec();
    let mut files = Files::default();
    let (phase, _) = drive(signed_events(b"tampered", &sig, kp.public_key().as_ref()), &mut files);
    assert!(matches!(phase, Phase::Done(Err(PollError::CryptoVerification))));
    assert_eq!(files, Files::default());
}

#[test]
fn signature_under_other_key_is_discarded() {
    let signer = key_pair(1);
    let trusted = key_pair(2);
    let sig = signer.sign(b"image").as_ref().to_vec();
    let mut files = Files::default();
    let (phase, _) = drive(signed_events(b"image", &sig, trusted.public_key().as_ref()), &mut files);
    assert!(matches!(phase, Phase::Done(Err(PollError::CryptoVerification))));
    assert_eq!(files, Files::default());
}

#[test]
fn wrong_key_length_aborts_before_verification() {
    let kp = key_pair(5);
    let b = b"image".to_vec();
    let sig = kp.sign(&b).as_ref().to_vec();
    let mut long_key = kp.public_key().as_ref().to_vec();
    long_key.push(0);
    let short_key = kp.public_key().as_ref()[..31].to_vec();
    for key in [Vec::new(), short_key, long_key, vec![0u8; 64]] {
        let mut files = Files::default();
        let (phase, _) = drive(signed_events(&b, &sig, &key), &mut files);
        assert!(matches!(phase, Phase::Done(Err(PollError::TrustConfig))));
        assert_eq!(files, Files::default());
    }
}

#[test]
fn after_key_loaded_decides_on_given_verdict() {
    let v = || "2.0".to_string();
    let (p, a) = after_key_loaded(v(), vec![1], vec![2], vec![0; 32], true);
    assert!(matches!(p, Phase::WritingArtifact { .. }));
    assert!(matches!(a, Action::Stage(StagedFile::Artifact, x) if x == vec![1]));
    let (p, a) = after_key_loaded(v(), vec![1], vec![2], vec![0; 32], false);
    assert!(matches!(p, Phase::Done(Err(PollError::CryptoVerification))));
    assert!(matches!(a, Action::Finish));
    let (p, _) = after_key_loaded(v(), vec![1], vec![2], vec![0; 31], true);
    assert!(matches!(p, Phase::Done(Err(PollError::TrustConfig))));
}

#[test]
fn interrupted_before_marker_shows_no_update() {
    let kp = key_pair(4);
    let b = b"image".to_vec();
    let sig = kp.sign(&b).as_ref().to_vec();
    let mut events = signed_events(&b, &sig, kp.public_key().as_ref());
    events.truncate(5);
    let mut files = Files { current: Some(b"old".to_vec()), ..Files::default() };
    let (phase, _) = drive(events, &mut files);
    assert!(matches!(phase, Phase::WritingSignature { .. }));
    assert_eq!(files.ready, None);
    let before = files.clone();
    assert_eq!(apply(&mut files), Ok(vec![]));
    assert_eq!(files, before);
}

#[test]
fn failed_staging_write_ends_cycle() {
    let kp = key_pair(6);
    let b = b"image".to_vec();
    let sig = kp.sign(&b).as_ref().to_vec();
    let mut events = signed_events(&b, &sig, kp.public_key().as_ref());
    events.truncate(5);
    events.push(Event::Failed(PollError::StagingIo));
    events.push(Event::Written);
    let mut files = Files::default();
    let (phase, actions) = drive(events, &mut files);
    assert!(matches!(phase, Phase::Done(Err(PollError::StagingIo))));
    assert!(matches!(actions.last(), Some(Action::Finish)));
    assert_eq!(files.ready, None);
}

#[test]
fn fetch_failures_end_cycle() {
    let (phase, _) = drive(vec![Event::Failed(PollError::Network)], &mut Files::default());
    assert!(matches!(phase, Phase::Done(Err(PollError::Network))));
    let (phase, _) = drive(vec![Event::Failed(PollError::MalformedResponse)], &mut Files::default());
    assert!(matches!(phase, Phase::Done(Err(PollError::MalformedResponse))));
}

#[test]
fn unexpected_event_is_out_of_order() {
    let (phase, action) = step(Phase::AwaitManifest, Event::Bytes(vec![1]));
    assert!(matches!(phase, Phase::Done(Err(PollError::OutOfOrder))));
    assert!(matches!(action, Action::Finish));
}

#[test]
fn verify_detached_checks_signature_and_key_length() {
    let kp = key_pair(8);
    let sig = kp.sign(b"msg").as_ref().to_vec();
    let pk = kp.public_key().as_ref().to_vec();
    assert!(verify_detached(&pk, b"msg", &sig));
    assert!(!verify_detached(&pk, b"msh", &sig));
    assert!(!verify_detached(&pk[..31], b"msg", &sig));
}

#[test]
fn applier_without_current_binary_installs_only() {
    assert_eq!(plan_apply(true, true, false), Ok(vec![ApplyOp::Install, ApplyOp::RecordApplied, ApplyOp::ConsumeReady]));
}

#[test]
fn applier_ready_without_artifact_fails() {
    assert_eq!(plan_apply(true, false, true), Err(ApplyError::ArtifactMissing));
    assert_eq!(plan_apply(true, false, false), Err(ApplyError::ArtifactMissing));
}

#[test]
fn applier_idle_without_ready_marker() {
    assert_eq!(plan_apply(false, true, true), Ok(vec![]));
    assert_eq!(plan_apply(false, false, false), Ok(vec![]));
}

#[test]
fn watchdog_disarms_once_then_stays_silent() {
    let mut sup = Supervisor::new();
    let events = [LoopEvent::Tick, LoopEvent::Tick, LoopEvent::Shutdown, LoopEvent::Tick, LoopEvent::Shutdown];
    let acts: Vec<WatchdogAction> = events.iter().map(|e| sup.on_event(*e)).collect();
    assert_eq!(
        acts,
        vec![WatchdogAction::Pet, WatchdogAction::Pet, WatchdogAction::Disarm, WatchdogAction::Idle, WatchdogAction::Idle]
    );
    assert!(sup.is_stopped());
}

#[test]
fn watchdog_device_bytes() {
    assert_eq!(device_byte(WatchdogAction::Pet), Some(b'\n'));
    assert_eq!(device_byte(WatchdogAction::Disarm), Some(b'V'));
    assert_eq!(device_byte(WatchdogAction::Idle), None);
}
