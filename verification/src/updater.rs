//! The decision engine of one check-and-maybe-update cycle, as a state
//! machine. Each step consumes the outcome of the previous outside action
//! (a filesystem probe, a network fetch, a file write) and decides the next
//! action; the surrounding program performs the actions. All decisions —
//! when to fetch, when to stop, and the commit order artifact, signature,
//! metadata record — are taken here.
//!
//! The machine fetches the artifact unconditionally and compares the
//! metadata taken from that same response against the cached record
//! (fetch-then-compare): one network call decides, and the metadata always
//! belongs to the bytes that were actually delivered. A matching token
//! discards the fetched bytes unwritten. A separate metadata-only probe is
//! deliberately not used.

use crate::metadata::CoreInfo;
use crate::metadata::CoreInfoV;
use crate::metadata::spec_update_needed;
use crate::metadata::update_needed;
use crate::metadata::opt_view;
use crate::metadata::spec_sanitized;
use crate::record::load_record;
use crate::record::render_record;
use crate::record::spec_load;
use crate::record::spec_render;
use vstd::prelude::*;

verus! {

/// Terminal result of one run.
#[derive(Clone, Copy, PartialEq, Eq, Structural, Debug)]
pub enum Outcome {
    /// The host is not registered; the run did nothing.
    NotRegistered,
    /// The cached and the observed validation tokens match; nothing written.
    NothingToDo,
    /// Artifact, signature and metadata record are all durably written.
    Updated,
    /// The artifact fetch failed; the run aborted.
    FetchFailed,
    /// The signature fetch failed; the run aborted before any write.
    SignatureFetchFailed,
    /// A file write failed; the metadata record keeps its old content
    /// unless it was the last step that failed.
    WriteFailed,
    /// The driver answered with an event that does not fit the pending
    /// action; the run aborted.
    ProtocolError,
}

/// The fetched artifact: its metadata, taken from the same response that
/// delivered the bytes, and the payload itself.
pub struct Core {
    pub info: CoreInfo,
    pub data: Vec<u8>,
}

/// Mathematical view of `Core`.
pub struct CoreV {
    pub info: CoreInfoV,
    pub data: Seq<u8>,
}

impl CoreV {
    pub open spec fn wf(self) -> bool {
        self.info.wf()
    }
}

impl View for Core {
    type V = CoreV;

    open spec fn view(&self) -> CoreV {
        CoreV { info: self.info@, data: self.data@ }
    }
}

impl Core {
    /// Builds the fetched artifact from the header values and the body of
    /// the response that delivered it.
    pub fn from_response(etag: Option<String>, last_modified: Option<String>, data: Vec<u8>) -> (r:
        Core)
        ensures
            r@.info.etag == spec_sanitized(opt_view(etag)),
            r@.info.last_modified == spec_sanitized(opt_view(last_modified)),
            r@.data == data@,
            r@.wf(),
    {
        Core { info: CoreInfo::from_headers(etag, last_modified), data }
    }
}

/// What the driver reports back to the machine: the result of the action it
/// was asked to perform. `None` stands for a failed fetch or an unreadable
/// file.
pub enum Event {
    Registration(bool),
    CacheContent(Option<String>),
    ArtifactResponse(Option<Core>),
    SignatureResponse(Option<Vec<u8>>),
    WriteDone(bool),
}

/// Mathematical view of `Event`.
pub enum EventV {
    Registration(bool),
    CacheContent(Option<Seq<char>>),
    ArtifactResponse(Option<CoreV>),
    SignatureResponse(Option<Seq<u8>>),
    WriteDone(bool),
}

impl EventV {
    pub open spec fn wf(self) -> bool {
        match self {
            EventV::ArtifactResponse(Some(c)) => c.wf(),
            _ => true,
        }
    }
}

impl View for Event {
    type V = EventV;

    open spec fn view(&self) -> EventV {
        match self {
            Event::Registration(ok) => EventV::Registration(*ok),
            Event::CacheContent(c) => EventV::CacheContent(opt_view(*c)),
            Event::ArtifactResponse(c) => EventV::ArtifactResponse(
                match c {
                    Some(core) => Some(core@),
                    None => None,
                },
            ),
            Event::SignatureResponse(s) => EventV::SignatureResponse(
                match s {
                    Some(v) => Some(v@),
                    None => None,
                },
            ),
            Event::WriteDone(ok) => EventV::WriteDone(*ok),
        }
    }
}

/// What the machine asks the driver to do next. The run ends when `Stop`
/// comes back; every other action expects the matching event in return.
pub enum Action {
    /// Probe the registration state of the host.
    ProbeRegistration,
    /// Read the metadata-record file; answer with its content, or `None`.
    ReadCacheFile,
    /// Fetch the artifact; answer with its metadata and bytes, or `None`.
    FetchArtifact,
    /// Fetch the detached signature; answer with its bytes, or `None`.
    FetchSignature,
    /// Write these bytes to the artifact file; answer whether it succeeded.
    WriteArtifactFile(Vec<u8>),
    /// Write these bytes to the signature file; answer whether it succeeded.
    WriteSignatureFile(Vec<u8>),
    /// Write this text to the metadata-record file; answer whether it
    /// succeeded.
    WriteRecordFile(String),
    /// The run is over with this outcome.
    Stop(Outcome),
}

/// Mathematical view of `Action`.
pub enum ActionV {
    ProbeRegistration,
    ReadCacheFile,
    FetchArtifact,
    FetchSignature,
    WriteArtifactFile(Seq<u8>),
    WriteSignatureFile(Seq<u8>),
    WriteRecordFile(Seq<char>),
    Stop(Outcome),
}

impl View for Action {
    type V = ActionV;

    open spec fn view(&self) -> ActionV {
        match self {
            Action::ProbeRegistration => ActionV::ProbeRegistration,
            Action::ReadCacheFile => ActionV::ReadCacheFile,
            Action::FetchArtifact => ActionV::FetchArtifact,
            Action::FetchSignature => ActionV::FetchSignature,
            Action::WriteArtifactFile(d) => ActionV::WriteArtifactFile(d@),
            Action::WriteSignatureFile(d) => ActionV::WriteSignatureFile(d@),
            Action::WriteRecordFile(t) => ActionV::WriteRecordFile(t@),
            Action::Stop(o) => ActionV::Stop(*o),
        }
    }
}

/// The machine's state: which answer it is waiting for, and what it has
/// gathered so far.
pub enum Updater {
    /// Waiting for the registration probe.
    CheckRegistration,
    /// Waiting for the content of the metadata-record file.
    LoadCache,
    /// Waiting for the artifact response; `cached` is the loaded record.
    AwaitArtifact { cached: CoreInfo },
    /// Update needed; waiting for the signature response.
    AwaitSignature { info: CoreInfo, data: Vec<u8> },
    /// Waiting for the artifact write; the signature is kept for the next
    /// write, the metadata for the record write after it.
    AwaitArtifactWrite { info: CoreInfo, signature: Vec<u8> },
    /// Artifact written; waiting for the signature write.
    AwaitSignatureWrite { info: CoreInfo },
    /// Artifact and signature written; waiting for the record write.
    AwaitRecordWrite,
    /// The run is over.
    Done { outcome: Outcome },
}

/// Mathematical view of `Updater`.
pub enum UpdaterV {
    CheckRegistration,
    LoadCache,
    AwaitArtifact { cached: CoreInfoV },
    AwaitSignature { info: CoreInfoV, data: Seq<u8> },
    AwaitArtifactWrite { info: CoreInfoV, signature: Seq<u8> },
    AwaitSignatureWrite { info: CoreInfoV },
    AwaitRecordWrite,
    Done { outcome: Outcome },
}

impl UpdaterV {
    /// Every metadata value the machine holds is well formed.
    pub open spec fn wf(self) -> bool {
        match self {
            UpdaterV::AwaitArtifact { cached } => cached.wf(),
            UpdaterV::AwaitSignature { info, .. } => info.wf(),
            UpdaterV::AwaitArtifactWrite { info, .. } => info.wf(),
            UpdaterV::AwaitSignatureWrite { info } => info.wf(),
            _ => true,
        }
    }
}

impl View for Updater {
    type V = UpdaterV;

    open spec fn view(&self) -> UpdaterV {
        match self {
            Updater::CheckRegistration => UpdaterV::CheckRegistration,
            Updater::LoadCache => UpdaterV::LoadCache,
            Updater::AwaitArtifact { cached } => UpdaterV::AwaitArtifact { cached: cached@ },
            Updater::AwaitSignature { info, data } => UpdaterV::AwaitSignature {
                info: info@,
                data: data@,
            },
            Updater::AwaitArtifactWrite { info, signature } => UpdaterV::AwaitArtifactWrite {
                info: info@,
                signature: signature@,
            },
            Updater::AwaitSignatureWrite { info } => UpdaterV::AwaitSignatureWrite { info: info@ },
            Updater::AwaitRecordWrite => UpdaterV::AwaitRecordWrite,
            Updater::Done { outcome } => UpdaterV::Done { outcome: *outcome },
        }
    }
}

/// The transition relation of the machine: from the current state and the
/// event answering the pending action, the next state and the next action.
/// An event that does not answer the pending action aborts the run.
pub open spec fn spec_step(u: UpdaterV, e: EventV) -> (UpdaterV, ActionV) {
    match (u, e) {
        (UpdaterV::CheckRegistration, EventV::Registration(ok)) => if ok {
            (UpdaterV::LoadCache, ActionV::ReadCacheFile)
        } else {
            (
                UpdaterV::Done { outcome: Outcome::NotRegistered },
                ActionV::Stop(Outcome::NotRegistered),
            )
        },
        (UpdaterV::LoadCache, EventV::CacheContent(c)) => (
            UpdaterV::AwaitArtifact { cached: spec_load(c) },
            ActionV::FetchArtifact,
        ),
        (UpdaterV::AwaitArtifact { cached }, EventV::ArtifactResponse(resp)) => match resp {
            None => (
                UpdaterV::Done { outcome: Outcome::FetchFailed },
                ActionV::Stop(Outcome::FetchFailed),
            ),
            Some(core) => if spec_update_needed(cached, core.info) {
                (
                    UpdaterV::AwaitSignature { info: core.info, data: core.data },
                    ActionV::FetchSignature,
                )
            } else {
                (
                    UpdaterV::Done { outcome: Outcome::NothingToDo },
                    ActionV::Stop(Outcome::NothingToDo),
                )
            },
        },
        (UpdaterV::AwaitSignature { info, data }, EventV::SignatureResponse(resp)) => match resp {
            None => (
                UpdaterV::Done { outcome: Outcome::SignatureFetchFailed },
                ActionV::Stop(Outcome::SignatureFetchFailed),
            ),
            Some(sig) => (
                UpdaterV::AwaitArtifactWrite { info, signature: sig },
                ActionV::WriteArtifactFile(data),
            ),
        },
        (UpdaterV::AwaitArtifactWrite { info, signature }, EventV::WriteDone(ok)) => if ok {
            (UpdaterV::AwaitSignatureWrite { info }, ActionV::WriteSignatureFile(signature))
        } else {
            (UpdaterV::Done { outcome: Outcome::WriteFailed }, ActionV::Stop(Outcome::WriteFailed))
        },
        (UpdaterV::AwaitSignatureWrite { info }, EventV::WriteDone(ok)) => if ok {
            (UpdaterV::AwaitRecordWrite, ActionV::WriteRecordFile(spec_render(info)))
        } else {
            (UpdaterV::Done { outcome: Outcome::WriteFailed }, ActionV::Stop(Outcome::WriteFailed))
        },
        (UpdaterV::AwaitRecordWrite, EventV::WriteDone(ok)) => if ok {
            (UpdaterV::Done { outcome: Outcome::Updated }, ActionV::Stop(Outcome::Updated))
        } else {
            (UpdaterV::Done { outcome: Outcome::WriteFailed }, ActionV::Stop(Outcome::WriteFailed))
        },
        (UpdaterV::Done { outcome }, _) => (UpdaterV::Done { outcome }, ActionV::Stop(outcome)),
        _ => (
            UpdaterV::Done { outcome: Outcome::ProtocolError },
            ActionV::Stop(Outcome::ProtocolError),
        ),
    }
}

impl Updater {
    /// A fresh machine; the first thing a run does is probe registration.
    pub fn start() -> (r: (Updater, Action))
        ensures
            r.0@ == UpdaterV::CheckRegistration,
            r.1@ == ActionV::ProbeRegistration,
            r.0@.wf(),
    {
        (Updater::CheckRegistration, Action::ProbeRegistration)
    }

    /// Performs one transition of the machine.
    pub fn step(self, event: Event) -> (r: (Updater, Action))
        requires
            self@.wf(),
            event@.wf(),
        ensures
            r.0@ == spec_step(self@, event@).0,
            r.1@ == spec_step(self@, event@).1,
            r.0@.wf(),
    {
        match (self, event) {
            (Updater::CheckRegistration, Event::Registration(ok)) => {
                if ok {
                    (Updater::LoadCache, Action::ReadCacheFile)
                } else {
                    (
                        Updater::Done { outcome: Outcome::NotRegistered },
                        Action::Stop(Outcome::NotRegistered),
                    )
                }
            },
            (Updater::LoadCache, Event::CacheContent(content)) => {
                let cached = load_record(
                    match &content {
                        Some(s) => Some(s.as_str()),
                        None => None,
                    },
                );
                (Updater::AwaitArtifact { cached }, Action::FetchArtifact)
            },
            (Updater::AwaitArtifact { cached }, Event::ArtifactResponse(resp)) => {
                match resp {
                    None => (
                        Updater::Done { outcome: Outcome::FetchFailed },
                        Action::Stop(Outcome::FetchFailed),
                    ),
                    Some(core) => {
                        if update_needed(&cached, &core.info) {
                            (
                                Updater::AwaitSignature { info: core.info, data: core.data },
                                Action::FetchSignature,
                            )
                        } else {
                            (
                                Updater::Done { outcome: Outcome::NothingToDo },
                                Action::Stop(Outcome::NothingToDo),
                            )
                        }
                    },
                }
            },
            (Updater::AwaitSignature { info, data }, Event::SignatureResponse(resp)) => {
                match resp {
                    None => (
                        Updater::Done { outcome: Outcome::SignatureFetchFailed },
                        Action::Stop(Outcome::SignatureFetchFailed),
                    ),
                    Some(sig) => (
                        Updater::AwaitArtifactWrite { info, signature: sig },
                        Action::WriteArtifactFile(data),
                    ),
                }
            },
            (Updater::AwaitArtifactWrite { info, signature }, Event::WriteDone(ok)) => {
                if ok {
                    (
                        Updater::AwaitSignatureWrite { info },
                        Action::WriteSignatureFile(signature),
                    )
                } else {
                    (
                        Updater::Done { outcome: Outcome::WriteFailed },
                        Action::Stop(Outcome::WriteFailed),
                    )
                }
            },
            (Updater::AwaitSignatureWrite { info }, Event::WriteDone(ok)) => {
                if ok {
                    let text = render_record(&info);
                    (Updater::AwaitRecordWrite, Action::WriteRecordFile(text))
                } else {
                    (
                        Updater::Done { outcome: Outcome::WriteFailed },
                        Action::Stop(Outcome::WriteFailed),
                    )
                }
            },
            (Updater::AwaitRecordWrite, Event::WriteDone(ok)) => {
                if ok {
                    (
                        Updater::Done { outcome: Outcome::Updated },
                        Action::Stop(Outcome::Updated),
                    )
                } else {
                    (
                        Updater::Done { outcome: Outcome::WriteFailed },
                        Action::Stop(Outcome::WriteFailed),
                    )
                }
            },
            (Updater::Done { outcome }, _) => {
                (Updater::Done { outcome }, Action::Stop(outcome))
            },
            _ => (
                Updater::Done { outcome: Outcome::ProtocolError },
                Action::Stop(Outcome::ProtocolError),
            ),
        }
    }
}

} // verus!
