//! One update-poll cycle as a state machine: the driver performs each action
//! (a fetch, reading the trust key, a staging write) and feeds back the outcome
//! as the next event. Nothing is staged unless the artifact is signed and the
//! signature checks under a 32-byte key, and the ready marker is written last.
use vstd::prelude::*;
use vstd::string::*;
use crate::signature::{ED25519_KEY_LEN, ed25519_accepts, verify_detached};

verus! {

/// The update description served at `{server}/latest.json`.
#[derive(Debug)]
pub struct Manifest {
    pub url: String,
    pub signature_url: Option<String>,
    pub version: String,
    pub notes: Option<String>,
}

pub struct ManifestView {
    pub url: Seq<char>,
    pub signature_url: Option<Seq<char>>,
    pub version: Seq<char>,
    pub notes: Option<Seq<char>>,
}

pub open spec fn opt_view(o: Option<String>) -> Option<Seq<char>> {
    match o {
        Some(s) => Some(s@),
        None => None,
    }
}

impl View for Manifest {
    type V = ManifestView;

    open spec fn view(&self) -> ManifestView {
        ManifestView {
            url: self.url@,
            signature_url: opt_view(self.signature_url),
            version: self.version@,
            notes: opt_view(self.notes),
        }
    }
}

/// Why a poll cycle ended without staging an update.
#[derive(Clone, Copy, PartialEq, Eq, Structural, Debug)]
pub enum PollError {
    /// A fetch failed in transport or with a non-success status.
    Network,
    /// The manifest did not parse.
    MalformedResponse,
    /// The manifest names no signature: unsigned artifacts are never staged.
    PolicyViolation,
    /// The trust key is missing or is not exactly 32 bytes long.
    TrustConfig,
    /// The signature does not authenticate the artifact.
    CryptoVerification,
    /// A staging write failed.
    StagingIo,
    /// An event arrived that the current phase does not expect.
    OutOfOrder,
}

/// A payload file of the staging area.
#[derive(Clone, Copy, PartialEq, Eq, Structural, Debug)]
pub enum StagedFile {
    Artifact,
    Signature,
}

/// What the driver reports back after performing an action.
#[derive(Debug)]
pub enum Event {
    /// The manifest was fetched and parsed.
    Manifest(Manifest),
    /// A byte fetch (artifact or signature) completed.
    Bytes(Vec<u8>),
    /// The trust key was read.
    Key(Vec<u8>),
    /// The requested staging write completed.
    Written,
    /// The requested action failed.
    Failed(PollError),
}

pub enum EventView {
    Manifest(ManifestView),
    Bytes(Seq<u8>),
    Key(Seq<u8>),
    Written,
    Failed(PollError),
}

impl View for Event {
    type V = EventView;

    open spec fn view(&self) -> EventView {
        match self {
            Event::Manifest(m) => EventView::Manifest(m@),
            Event::Bytes(b) => EventView::Bytes(b@),
            Event::Key(k) => EventView::Key(k@),
            Event::Written => EventView::Written,
            Event::Failed(e) => EventView::Failed(*e),
        }
    }
}

/// What the driver must do next.
#[derive(Debug)]
pub enum Action {
    /// Fetch the bytes at this URL.
    Fetch(String),
    /// Read the trust key.
    LoadKey,
    /// Durably write these bytes to the given staging file.
    Stage(StagedFile, Vec<u8>),
    /// Durably write the ready marker holding this version.
    MarkReady(String),
    /// The cycle is over.
    Finish,
}

pub enum ActionView {
    Fetch(Seq<char>),
    LoadKey,
    Stage(StagedFile, Seq<u8>),
    MarkReady(Seq<char>),
    Finish,
}

impl View for Action {
    type V = ActionView;

    open spec fn view(&self) -> ActionView {
        match self {
            Action::Fetch(u) => ActionView::Fetch(u@),
            Action::LoadKey => ActionView::LoadKey,
            Action::Stage(f, b) => ActionView::Stage(*f, b@),
            Action::MarkReady(v) => ActionView::MarkReady(v@),
            Action::Finish => ActionView::Finish,
        }
    }
}

/// Where a poll cycle stands.
#[derive(Debug)]
pub enum Phase {
    AwaitManifest,
    AwaitArtifact { manifest: Manifest },
    AwaitSignature { version: String, artifact: Vec<u8> },
    AwaitKey { version: String, artifact: Vec<u8>, signature: Vec<u8> },
    WritingArtifact { version: String, artifact: Vec<u8>, signature: Vec<u8>, key: Vec<u8> },
    WritingSignature { version: String, artifact: Vec<u8>, signature: Vec<u8>, key: Vec<u8> },
    WritingMarker { version: String, artifact: Vec<u8>, signature: Vec<u8>, key: Vec<u8> },
    Done(Result<(), PollError>),
}

pub enum PhaseView {
    AwaitManifest,
    AwaitArtifact { manifest: ManifestView },
    AwaitSignature { version: Seq<char>, artifact: Seq<u8> },
    AwaitKey { version: Seq<char>, artifact: Seq<u8>, signature: Seq<u8> },
    WritingArtifact { version: Seq<char>, artifact: Seq<u8>, signature: Seq<u8>, key: Seq<u8> },
    WritingSignature { version: Seq<char>, artifact: Seq<u8>, signature: Seq<u8>, key: Seq<u8> },
    WritingMarker { version: Seq<char>, artifact: Seq<u8>, signature: Seq<u8>, key: Seq<u8> },
    Done(Result<(), PollError>),
}

impl View for Phase {
    type V = PhaseView;

    open spec fn view(&self) -> PhaseView {
        match self {
            Phase::AwaitManifest => PhaseView::AwaitManifest,
            Phase::AwaitArtifact { manifest } => PhaseView::AwaitArtifact { manifest: manifest@ },
            Phase::AwaitSignature { version, artifact } => PhaseView::AwaitSignature {
                version: version@,
                artifact: artifact@,
            },
            Phase::AwaitKey { version, artifact, signature } => PhaseView::AwaitKey {
                version: version@,
                artifact: artifact@,
                signature: signature@,
            },
            Phase::WritingArtifact { version, artifact, signature, key } => PhaseView::WritingArtifact {
                version: version@,
                artifact: artifact@,
                signature: signature@,
                key: key@,
            },
            Phase::WritingSignature { version, artifact, signature, key } => PhaseView::WritingSignature {
                version: version@,
                artifact: artifact@,
                signature: signature@,
                key: key@,
            },
            Phase::WritingMarker { version, artifact, signature, key } => PhaseView::WritingMarker {
                version: version@,
                artifact: artifact@,
                signature: signature@,
                key: key@,
            },
            Phase::Done(r) => PhaseView::Done(*r),
        }
    }
}

/// The well-known manifest location under a server base URL.
pub open spec fn manifest_url(server: Seq<char>) -> Seq<char> {
    server + "/latest.json"@
}

/// The cycle ends with `err`.
pub open spec fn abort(err: PollError) -> (PhaseView, ActionView) {
    (PhaseView::Done(Err(err)), ActionView::Finish)
}

/// The step once the trust key is read: a key of the wrong length ends the
/// cycle, otherwise `accepted` (whether the signature checks) decides between
/// staging the artifact and discarding it.
pub open spec fn after_key(
    version: Seq<char>,
    artifact: Seq<u8>,
    signature: Seq<u8>,
    key: Seq<u8>,
    accepted: bool,
) -> (PhaseView, ActionView) {
    if key.len() != ED25519_KEY_LEN {
        abort(PollError::TrustConfig)
    } else if accepted {
        (
            PhaseView::WritingArtifact { version, artifact, signature, key },
            ActionView::Stage(StagedFile::Artifact, artifact),
        )
    } else {
        abort(PollError::CryptoVerification)
    }
}

/// One transition of a poll cycle.
pub open spec fn next(p: PhaseView, e: EventView) -> (PhaseView, ActionView) {
    match p {
        PhaseView::Done(r) => (PhaseView::Done(r), ActionView::Finish),
        _ => match e {
            EventView::Failed(err) => abort(err),
            _ => match (p, e) {
                (PhaseView::AwaitManifest, EventView::Manifest(m)) => (
                    PhaseView::AwaitArtifact { manifest: m },
                    ActionView::Fetch(m.url),
                ),
                (PhaseView::AwaitArtifact { manifest }, EventView::Bytes(artifact)) => {
                    match manifest.signature_url {
                        None => abort(PollError::PolicyViolation),
                        Some(u) => (
                            PhaseView::AwaitSignature { version: manifest.version, artifact },
                            ActionView::Fetch(u),
                        ),
                    }
                },
                (PhaseView::AwaitSignature { version, artifact }, EventView::Bytes(signature)) => (
                    PhaseView::AwaitKey { version, artifact, signature },
                    ActionView::LoadKey,
                ),
                (PhaseView::AwaitKey { version, artifact, signature }, EventView::Key(key)) =>
                    after_key(version, artifact, signature, key, ed25519_accepts(key, artifact, signature)),
                (PhaseView::WritingArtifact { version, artifact, signature, key }, EventView::Written) => (
                    PhaseView::WritingSignature { version, artifact, signature, key },
                    ActionView::Stage(StagedFile::Signature, signature),
                ),
                (PhaseView::WritingSignature { version, artifact, signature, key }, EventView::Written) => (
                    PhaseView::WritingMarker { version, artifact, signature, key },
                    ActionView::MarkReady(version),
                ),
                (PhaseView::WritingMarker { .. }, EventView::Written) => (PhaseView::Done(Ok(())), ActionView::Finish),
                _ => abort(PollError::OutOfOrder),
            },
        },
    }
}

/// Starts a poll cycle against `server`: the first action fetches the manifest.
pub fn begin_cycle(server: &str) -> (r: (Phase, Action))
    ensures
        r.0@ == PhaseView::AwaitManifest,
        r.1@ == ActionView::Fetch(manifest_url(server@)),
{
    let url = String::from_str(server).concat("/latest.json");
    (Phase::AwaitManifest, Action::Fetch(url))
}

/// The step once the trust key is read, given whether the signature checks.
pub fn after_key_loaded(
    version: String,
    artifact: Vec<u8>,
    signature: Vec<u8>,
    key: Vec<u8>,
    accepted: bool,
) -> (r: (Phase, Action))
    ensures
        (r.0@, r.1@) == after_key(version@, artifact@, signature@, key@, accepted),
{
    if key.len() != ED25519_KEY_LEN {
        (Phase::Done(Err(PollError::TrustConfig)), Action::Finish)
    } else if accepted {
        let staged = artifact.clone();
        (Phase::WritingArtifact { version, artifact, signature, key }, Action::Stage(StagedFile::Artifact, staged))
    } else {
        (Phase::Done(Err(PollError::CryptoVerification)), Action::Finish)
    }
}

/// Advances a poll cycle by one event.
pub fn step(phase: Phase, event: Event) -> (r: (Phase, Action))
    ensures
        (r.0@, r.1@) == next(phase@, event@),
{
    if let Phase::Done(res) = phase {
        return (Phase::Done(res), Action::Finish);
    }
    if let Event::Failed(err) = event {
        return (Phase::Done(Err(err)), Action::Finish);
    }
    match (phase, event) {
        (Phase::AwaitManifest, Event::Manifest(manifest)) => {
            let url = manifest.url.clone();
            (Phase::AwaitArtifact { manifest }, Action::Fetch(url))
        },
        (Phase::AwaitArtifact { manifest }, Event::Bytes(artifact)) => {
            match manifest.signature_url {
                None => (Phase::Done(Err(PollError::PolicyViolation)), Action::Finish),
                Some(u) => (Phase::AwaitSignature { version: manifest.version, artifact }, Action::Fetch(u)),
            }
        },
        (Phase::AwaitSignature { version, artifact }, Event::Bytes(signature)) => {
            (Phase::AwaitKey { version, artifact, signature }, Action::LoadKey)
        },
        (Phase::AwaitKey { version, artifact, signature }, Event::Key(key)) => {
            let accepted = verify_detached(key.as_slice(), artifact.as_slice(), signature.as_slice());
            after_key_loaded(version, artifact, signature, key, accepted)
        },
        (Phase::WritingArtifact { version, artifact, signature, key }, Event::Written) => {
            let staged = signature.clone();
            (Phase::WritingSignature { version, artifact, signature, key }, Action::Stage(StagedFile::Signature, staged))
        },
        (Phase::WritingSignature { version, artifact, signature, key }, Event::Written) => {
            let marker = version.clone();
            (Phase::WritingMarker { version, artifact, signature, key }, Action::MarkReady(marker))
        },
        (Phase::WritingMarker { .. }, Event::Written) => (Phase::Done(Ok(())), Action::Finish),
        _ => (Phase::Done(Err(PollError::OutOfOrder)), Action::Finish),
    }
}

} // verus!
