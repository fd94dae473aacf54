//! The course of one download: which outside step comes next, how the byte
//! count grows, and which error ends it.
//!
//! The caller performs each [`DownloadAction`] and reports the outcome as a
//! [`DownloadEvent`]; the task itself touches neither network nor disk.

use crate::text::prefixed;
use vstd::prelude::*;

verus! {

/// The name of the notification that carries a [`DownloadProgress`].
pub open spec fn download_progress_event() -> Seq<char> {
    "download-progress"@
}

/// The name of the notification that carries a [`DownloadProgress`].
pub fn progress_event() -> (s: &'static str)
    ensures
        s@ == download_progress_event(),
{
    "download-progress"
}

/// The directory, below the application's own data directory, that holds
/// the downloaded artifacts.
pub open spec fn models_directory() -> Seq<char> {
    "models"@
}

/// The directory, below the application's own data directory, that holds
/// the downloaded artifacts.
pub fn models_dir() -> (s: &'static str)
    ensures
        s@ == models_directory(),
{
    "models"
}

/// How much of the artifact has been written, and how much there is.
#[derive(Clone, Copy, Debug, PartialEq, Eq, Structural)]
pub struct DownloadProgress {
    /// Bytes written to the destination so far.
    pub downloaded: u64,
    /// The length that the server declared.
    pub total: u64,
}

/// Why a download failed.
#[derive(Debug, PartialEq, Eq)]
pub enum DownloadError {
    /// The request could not be sent, or the answer declared no length.
    TransferInit(String),
    /// Reading from the network failed in mid-stream.
    Transfer(String),
    /// The local file system refused a step.
    Io(String),
}

/// A [`DownloadError`] with its message as a sequence of characters.
pub enum DownloadErrorView {
    TransferInit(Seq<char>),
    Transfer(Seq<char>),
    Io(Seq<char>),
}

impl View for DownloadError {
    type V = DownloadErrorView;

    open spec fn view(&self) -> DownloadErrorView {
        match self {
            DownloadError::TransferInit(m) => DownloadErrorView::TransferInit(m@),
            DownloadError::Transfer(m) => DownloadErrorView::Transfer(m@),
            DownloadError::Io(m) => DownloadErrorView::Io(m@),
        }
    }
}

impl DownloadErrorView {
    /// The text that the caller is shown.
    pub open spec fn message(self) -> Seq<char> {
        match self {
            DownloadErrorView::TransferInit(m) => m,
            DownloadErrorView::Transfer(m) => m,
            DownloadErrorView::Io(m) => m,
        }
    }
}

impl DownloadError {
    /// The text that the caller is shown.
    pub fn message(&self) -> (text: String)
        ensures
            text@ == self@.message(),
    {
        match self {
            DownloadError::TransferInit(m) => m.clone(),
            DownloadError::Transfer(m) => m.clone(),
            DownloadError::Io(m) => m.clone(),
        }
    }
}

/// The error for a request that could not be sent.
pub open spec fn request_failed(detail: Seq<char>) -> DownloadErrorView {
    DownloadErrorView::TransferInit("Failed to request model: "@ + detail)
}

/// The error for an answer that declares no length.
pub open spec fn length_missing() -> DownloadErrorView {
    DownloadErrorView::TransferInit("Failed to get content length from response"@)
}

/// The error for a destination directory that could not be made.
pub open spec fn directory_failed(detail: Seq<char>) -> DownloadErrorView {
    DownloadErrorView::Io(detail)
}

/// The error for a destination file that could not be created.
pub open spec fn create_failed(detail: Seq<char>) -> DownloadErrorView {
    DownloadErrorView::Io("Failed to create file: "@ + detail)
}

/// The error for a chunk that could not be read from the network.
pub open spec fn read_failed(detail: Seq<char>) -> DownloadErrorView {
    DownloadErrorView::Transfer("Error reading chunk: "@ + detail)
}

/// The error for a chunk that could not be written to the file.
pub open spec fn write_failed(detail: Seq<char>) -> DownloadErrorView {
    DownloadErrorView::Io("Error writing chunk to file: "@ + detail)
}

/// What the caller reports back after performing a [`DownloadAction`].
#[derive(Debug, PartialEq, Eq)]
pub enum DownloadEvent {
    /// The destination's directory exists now; `exists` tells whether the
    /// destination itself was found there.
    DestinationReady { exists: bool },
    /// The destination's directory could not be made.
    DirectoryFailed(String),
    /// The server began to answer, with this declared length if any.
    ResponseStarted { content_length: Option<u64> },
    /// The request could not be sent.
    RequestFailed(String),
    /// The destination file was created empty.
    FileCreated,
    /// The destination file could not be created.
    FileCreateFailed(String),
    /// A chunk of `len` bytes was read from the network.
    ChunkRead { len: u64 },
    /// The stream is exhausted.
    StreamEnded,
    /// Reading from the network failed.
    ReadFailed(String),
    /// The chunk last read was appended to the file.
    ChunkWritten,
    /// The chunk last read could not be appended to the file.
    WriteFailed(String),
    /// The progress notification was sent; `delivered` tells whether a
    /// listener took it.
    ProgressEmitted { delivered: bool },
}

/// A [`DownloadEvent`] with its texts as sequences of characters.
pub enum DownloadEventView {
    DestinationReady { exists: bool },
    DirectoryFailed(Seq<char>),
    ResponseStarted { content_length: Option<u64> },
    RequestFailed(Seq<char>),
    FileCreated,
    FileCreateFailed(Seq<char>),
    ChunkRead { len: u64 },
    StreamEnded,
    ReadFailed(Seq<char>),
    ChunkWritten,
    WriteFailed(Seq<char>),
    ProgressEmitted { delivered: bool },
}

impl View for DownloadEvent {
    type V = DownloadEventView;

    open spec fn view(&self) -> DownloadEventView {
        match self {
            DownloadEvent::DestinationReady { exists } => DownloadEventView::DestinationReady {
                exists: *exists,
            },
            DownloadEvent::DirectoryFailed(d) => DownloadEventView::DirectoryFailed(d@),
            DownloadEvent::ResponseStarted { content_length } => DownloadEventView::ResponseStarted {
                content_length: *content_length,
            },
            DownloadEvent::RequestFailed(d) => DownloadEventView::RequestFailed(d@),
            DownloadEvent::FileCreated => DownloadEventView::FileCreated,
            DownloadEvent::FileCreateFailed(d) => DownloadEventView::FileCreateFailed(d@),
            DownloadEvent::ChunkRead { len } => DownloadEventView::ChunkRead { len: *len },
            DownloadEvent::StreamEnded => DownloadEventView::StreamEnded,
            DownloadEvent::ReadFailed(d) => DownloadEventView::ReadFailed(d@),
            DownloadEvent::ChunkWritten => DownloadEventView::ChunkWritten,
            DownloadEvent::WriteFailed(d) => DownloadEventView::WriteFailed(d@),
            DownloadEvent::ProgressEmitted { delivered } => DownloadEventView::ProgressEmitted {
                delivered: *delivered,
            },
        }
    }
}

/// What the caller is asked to do next in a download.
#[derive(Debug, PartialEq, Eq)]
pub enum DownloadAction {
    /// Make the directory of this path, with its ancestors, and look whether
    /// the path itself exists.
    PrepareDestination(String),
    /// Send a GET request to this address.
    SendRequest(String),
    /// Create the file of this path, empty.
    CreateFile(String),
    /// Read the next chunk of the answer.
    ReadChunk,
    /// Append the chunk last read to the file.
    WriteChunk,
    /// Notify listeners of this progress. Best effort.
    EmitProgress(DownloadProgress),
    /// Return this to whoever asked for the download.
    Finish(Result<String, DownloadError>),
}

/// A [`DownloadAction`] with its texts as sequences of characters and its
/// byte counts unbounded.
pub enum DownloadActionView {
    PrepareDestination(Seq<char>),
    SendRequest(Seq<char>),
    CreateFile(Seq<char>),
    ReadChunk,
    WriteChunk,
    EmitProgress { downloaded: nat, total: nat },
    Finish(Result<Seq<char>, DownloadErrorView>),
}

impl View for DownloadAction {
    type V = DownloadActionView;

    open spec fn view(&self) -> DownloadActionView {
        match self {
            DownloadAction::PrepareDestination(p) => DownloadActionView::PrepareDestination(p@),
            DownloadAction::SendRequest(u) => DownloadActionView::SendRequest(u@),
            DownloadAction::CreateFile(p) => DownloadActionView::CreateFile(p@),
            DownloadAction::ReadChunk => DownloadActionView::ReadChunk,
            DownloadAction::WriteChunk => DownloadActionView::WriteChunk,
            DownloadAction::EmitProgress(p) => DownloadActionView::EmitProgress {
                downloaded: p.downloaded as nat,
                total: p.total as nat,
            },
            DownloadAction::Finish(Ok(p)) => DownloadActionView::Finish(Ok(p@)),
            DownloadAction::Finish(Err(e)) => DownloadActionView::Finish(Err(e@)),
        }
    }
}

/// How far a download has come: each phase waits for the outcome of one
/// action.
#[derive(Clone, Copy, Debug, PartialEq, Eq, Structural)]
pub enum DownloadPhase {
    /// Waiting for the destination to be looked at.
    Preparing,
    /// Waiting for the server's answer.
    Requesting,
    /// Waiting for the destination file to be created.
    Creating,
    /// Waiting for the next chunk.
    Reading,
    /// Waiting for the chunk to be written.
    Writing,
    /// Waiting for the progress notification to be sent.
    Reporting,
    /// The download has returned.
    Finished,
}

/// The state of a download as the contracts see it, with unbounded byte
/// counts.
pub struct DownloadModel {
    /// Where the artifact comes from.
    pub url: Seq<char>,
    /// Where it is written.
    pub destination: Seq<char>,
    pub phase: DownloadPhase,
    /// The length that the server declared, once it is known.
    pub total: Option<nat>,
    /// Bytes written to the destination so far.
    pub downloaded: nat,
    /// Length of the chunk that is being written.
    pub pending: nat,
}

impl DownloadModel {
    /// The declared length is unknown until the server answers, and known
    /// from the moment the file is created; a chunk is in flight only while
    /// it is written.
    pub open spec fn wf(self) -> bool {
        &&& (self.phase == DownloadPhase::Preparing || self.phase == DownloadPhase::Requesting)
            ==> self.total is None
        &&& (self.phase == DownloadPhase::Creating || self.phase == DownloadPhase::Reading
            || self.phase == DownloadPhase::Writing || self.phase == DownloadPhase::Reporting)
            ==> self.total is Some
        &&& self.phase != DownloadPhase::Writing ==> self.pending == 0
    }

    /// Whether the byte count still fits a `u64` after `event`.
    pub open spec fn fits(self, event: DownloadEventView) -> bool {
        self.phase == DownloadPhase::Reading ==> (event matches DownloadEventView::ChunkRead { len }
            ==> self.downloaded + len <= u64::MAX)
    }

    /// This download in another phase.
    pub open spec fn moved_to(self, phase: DownloadPhase) -> DownloadModel {
        DownloadModel { phase, ..self }
    }

    /// This download with its answer given.
    pub open spec fn finished(self, result: Result<Seq<char>, DownloadErrorView>) -> DownloadStep {
        DownloadStep {
            task: DownloadModel { phase: DownloadPhase::Finished, pending: 0, ..self },
            action: DownloadActionView::Finish(result),
        }
    }
}

/// What a step of a download yields: the download, and the action that the
/// caller is asked for.
pub struct DownloadStep {
    pub task: DownloadModel,
    pub action: DownloadActionView,
}

/// The first step of a download: nothing is known yet, and the destination
/// is looked at before anything is requested.
pub open spec fn download_begin(url: Seq<char>, destination: Seq<char>) -> DownloadStep {
    DownloadStep {
        task: DownloadModel {
            url,
            destination,
            phase: DownloadPhase::Preparing,
            total: None,
            downloaded: 0,
            pending: 0,
        },
        action: DownloadActionView::PrepareDestination(destination),
    }
}

/// The step that `event` causes, or `None` where `event` does not answer
/// the action that the download is waiting for.
pub open spec fn download_step(task: DownloadModel, event: DownloadEventView) -> Option<
    DownloadStep,
> {
    match (task.phase, event) {
        (DownloadPhase::Preparing, DownloadEventView::DestinationReady { exists }) => if exists {
            Some(task.finished(Ok(task.destination)))
        } else {
            Some(
                DownloadStep {
                    task: task.moved_to(DownloadPhase::Requesting),
                    action: DownloadActionView::SendRequest(task.url),
                },
            )
        },
        (DownloadPhase::Preparing, DownloadEventView::DirectoryFailed(detail)) => Some(
            task.finished(Err(directory_failed(detail))),
        ),
        (
            DownloadPhase::Requesting,
            DownloadEventView::ResponseStarted { content_length: Some(length) },
        ) => Some(
            DownloadStep {
                task: DownloadModel {
                    phase: DownloadPhase::Creating,
                    total: Some(length as nat),
                    ..task
                },
                action: DownloadActionView::CreateFile(task.destination),
            },
        ),
        (DownloadPhase::Requesting, DownloadEventView::ResponseStarted { content_length: None }) => Some(
            task.finished(Err(length_missing())),
        ),
        (DownloadPhase::Requesting, DownloadEventView::RequestFailed(detail)) => Some(
            task.finished(Err(request_failed(detail))),
        ),
        (DownloadPhase::Creating, DownloadEventView::FileCreated) => Some(
            DownloadStep {
                task: task.moved_to(DownloadPhase::Reading),
                action: DownloadActionView::ReadChunk,
            },
        ),
        (DownloadPhase::Creating, DownloadEventView::FileCreateFailed(detail)) => Some(
            task.finished(Err(create_failed(detail))),
        ),
        (DownloadPhase::Reading, DownloadEventView::ChunkRead { len }) => Some(
            DownloadStep {
                task: DownloadModel { phase: DownloadPhase::Writing, pending: len as nat, ..task },
                action: DownloadActionView::WriteChunk,
            },
        ),
        (DownloadPhase::Reading, DownloadEventView::StreamEnded) => Some(
            task.finished(Ok(task.destination)),
        ),
        (DownloadPhase::Reading, DownloadEventView::ReadFailed(detail)) => Some(
            task.finished(Err(read_failed(detail))),
        ),
        (DownloadPhase::Writing, DownloadEventView::ChunkWritten) => Some(
            DownloadStep {
                task: DownloadModel {
                    phase: DownloadPhase::Reporting,
                    downloaded: task.downloaded + task.pending,
                    pending: 0,
                    ..task
                },
                action: DownloadActionView::EmitProgress {
                    downloaded: task.downloaded + task.pending,
                    total: task.total.unwrap(),
                },
            },
        ),
        (DownloadPhase::Writing, DownloadEventView::WriteFailed(detail)) => Some(
            task.finished(Err(write_failed(detail))),
        ),
        (DownloadPhase::Reporting, DownloadEventView::ProgressEmitted { delivered }) => Some(
            DownloadStep {
                task: task.moved_to(DownloadPhase::Reading),
                action: DownloadActionView::ReadChunk,
            },
        ),
        _ => None,
    }
}

/// Where a download stands, with what is known at that point.
enum Stage {
    Preparing,
    Requesting,
    Creating { total: u64 },
    Reading { total: u64 },
    Writing { total: u64, pending: u64 },
    Reporting { total: u64 },
    Finished { known: Option<u64> },
}

impl Stage {
    spec fn phase(self) -> DownloadPhase {
        match self {
            Stage::Preparing => DownloadPhase::Preparing,
            Stage::Requesting => DownloadPhase::Requesting,
            Stage::Creating { .. } => DownloadPhase::Creating,
            Stage::Reading { .. } => DownloadPhase::Reading,
            Stage::Writing { .. } => DownloadPhase::Writing,
            Stage::Reporting { .. } => DownloadPhase::Reporting,
            Stage::Finished { .. } => DownloadPhase::Finished,
        }
    }

    spec fn total(self) -> Option<nat> {
        match self {
            Stage::Preparing => None,
            Stage::Requesting => None,
            Stage::Creating { total } => Some(total as nat),
            Stage::Reading { total } => Some(total as nat),
            Stage::Writing { total, .. } => Some(total as nat),
            Stage::Reporting { total } => Some(total as nat),
            Stage::Finished { known: Some(total) } => Some(total as nat),
            Stage::Finished { known: None } => None,
        }
    }

    spec fn pending(self) -> nat {
        match self {
            Stage::Writing { pending, .. } => pending as nat,
            _ => 0,
        }
    }
}

/// One download, from the request to its answer.
pub struct DownloadTask {
    url: String,
    destination: String,
    stage: Stage,
    downloaded: u64,
}

impl View for DownloadTask {
    type V = DownloadModel;

    closed spec fn view(&self) -> DownloadModel {
        DownloadModel {
            url: self.url@,
            destination: self.destination@,
            phase: self.stage.phase(),
            total: self.stage.total(),
            downloaded: self.downloaded as nat,
            pending: self.stage.pending(),
        }
    }
}

impl DownloadTask {
    #[verifier::type_invariant]
    spec fn inv(self) -> bool {
        self.downloaded + self.stage.pending() <= u64::MAX
    }

    /// Begins the download of `url` to `destination`, and asks for the
    /// destination to be looked at.
    pub fn begin(url: String, destination: String) -> (r: (DownloadTask, DownloadAction))
        ensures
            r.0@ == download_begin(url@, destination@).task,
            r.1@ == download_begin(url@, destination@).action,
    {
        let action = DownloadAction::PrepareDestination(destination.clone());
        let task = DownloadTask { url, destination, stage: Stage::Preparing, downloaded: 0 };
        (task, action)
    }

    /// A download is always in a state that a run from its beginning can
    /// reach.
    pub proof fn lemma_well_formed(&self)
        ensures
            self@.wf(),
    {
    }

    /// Where the artifact comes from.
    pub fn url(&self) -> (url: &str)
        ensures
            url@ == self@.url,
    {
        self.url.as_str()
    }

    /// Where the artifact is written.
    pub fn destination(&self) -> (destination: &str)
        ensures
            destination@ == self@.destination,
    {
        self.destination.as_str()
    }

    /// How far the download has come.
    pub fn phase(&self) -> (phase: DownloadPhase)
        ensures
            phase == self@.phase,
    {
        match self.stage {
            Stage::Preparing => DownloadPhase::Preparing,
            Stage::Requesting => DownloadPhase::Requesting,
            Stage::Creating { .. } => DownloadPhase::Creating,
            Stage::Reading { .. } => DownloadPhase::Reading,
            Stage::Writing { .. } => DownloadPhase::Writing,
            Stage::Reporting { .. } => DownloadPhase::Reporting,
            Stage::Finished { .. } => DownloadPhase::Finished,
        }
    }

    /// The length that the server declared, once it is known.
    pub fn total(&self) -> (total: Option<u64>)
        ensures
            match total {
                Some(length) => self@.total == Some(length as nat),
                None => self@.total is None,
            },
    {
        match self.stage {
            Stage::Preparing => None,
            Stage::Requesting => None,
            Stage::Creating { total } => Some(total),
            Stage::Reading { total } => Some(total),
            Stage::Writing { total, .. } => Some(total),
            Stage::Reporting { total } => Some(total),
            Stage::Finished { known } => known,
        }
    }

    /// Bytes written to the destination so far.
    pub fn downloaded(&self) -> (downloaded: u64)
        ensures
            downloaded as nat == self@.downloaded,
    {
        self.downloaded
    }

    /// Whether the byte count still fits a `u64` after `event`.
    pub fn fits(&self, event: &DownloadEvent) -> (b: bool)
        ensures
            b == self@.fits(event@),
    {
        match (&self.stage, event) {
            (Stage::Reading { .. }, DownloadEvent::ChunkRead { len }) => *len <= u64::MAX
                - self.downloaded,
            _ => true,
        }
    }

    /// Ends the download with `result`.
    fn finish(&mut self, result: Result<String, DownloadError>) -> (r: Result<
        DownloadAction,
        DownloadEvent,
    >)
        ensures
            final(self)@ == old(self)@.finished(DownloadAction::Finish(result)@->Finish_0).task,
            r matches Ok(action) && action == DownloadAction::Finish(result),
    {
        proof {
            use_type_invariant(&*self);
        }
        let known = self.total();
        self.stage = Stage::Finished { known };
        Ok(DownloadAction::Finish(result))
    }

    /// Takes the outcome of the action last asked for and answers with the
    /// next one. An event that does not answer that action is handed back
    /// and changes nothing.
    pub fn step(&mut self, event: DownloadEvent) -> (r: Result<DownloadAction, DownloadEvent>)
        requires
            old(self)@.fits(event@),
        ensures
            match download_step(old(self)@, event@) {
                Some(next) => {
                    &&& r matches Ok(action)
                    &&& action@ == next.action
                    &&& final(self)@ == next.task
                },
                None => {
                    &&& r == Err::<DownloadAction, DownloadEvent>(event)
                    &&& final(self)@ == old(self)@
                },
            },
            final(self)@.downloaded >= old(self)@.downloaded,
            old(self)@.total is Some ==> final(self)@.total == old(self)@.total,
    {
        proof {
            use_type_invariant(&*self);
        }
        match self.stage {
            Stage::Preparing => match event {
                DownloadEvent::DestinationReady { exists } => {
                    if exists {
                        let path = self.destination.clone();
                        self.finish(Ok(path))
                    } else {
                        self.stage = Stage::Requesting;
                        Ok(DownloadAction::SendRequest(self.url.clone()))
                    }
                },
                DownloadEvent::DirectoryFailed(detail) => self.finish(
                    Err(DownloadError::Io(detail)),
                ),
                other => Err(other),
            },
            Stage::Requesting => match event {
                DownloadEvent::ResponseStarted { content_length: Some(length) } => {
                    self.stage = Stage::Creating { total: length };
                    Ok(DownloadAction::CreateFile(self.destination.clone()))
                },
                DownloadEvent::ResponseStarted { content_length: None } => self.finish(
                    Err(
                        DownloadError::TransferInit(
                            String::from_str("Failed to get content length from response"),
                        ),
                    ),
                ),
                DownloadEvent::RequestFailed(detail) => self.finish(
                    Err(
                        DownloadError::TransferInit(
                            prefixed("Failed to request model: ", detail.as_str()),
                        ),
                    ),
                ),
                other => Err(other),
            },
            Stage::Creating { total } => match event {
                DownloadEvent::FileCreated => {
                    self.stage = Stage::Reading { total };
                    Ok(DownloadAction::ReadChunk)
                },
                DownloadEvent::FileCreateFailed(detail) => self.finish(
                    Err(DownloadError::Io(prefixed("Failed to create file: ", detail.as_str()))),
                ),
                other => Err(other),
            },
            Stage::Reading { total } => match event {
                DownloadEvent::ChunkRead { len } => {
                    self.stage = Stage::Writing { total, pending: len };
                    Ok(DownloadAction::WriteChunk)
                },
                DownloadEvent::StreamEnded => {
                    let path = self.destination.clone();
                    self.finish(Ok(path))
                },
                DownloadEvent::ReadFailed(detail) => self.finish(
                    Err(DownloadError::Transfer(prefixed("Error reading chunk: ", detail.as_str()))),
                ),
                other => Err(other),
            },
            Stage::Writing { total, pending } => match event {
                DownloadEvent::ChunkWritten => {
                    let downloaded: u64 = self.downloaded + pending;
                    self.stage = Stage::Reporting { total };
                    self.downloaded = downloaded;
                    Ok(DownloadAction::EmitProgress(DownloadProgress { downloaded, total }))
                },
                DownloadEvent::WriteFailed(detail) => self.finish(
                    Err(
                        DownloadError::Io(
                            prefixed("Error writing chunk to file: ", detail.as_str()),
                        ),
                    ),
                ),
                other => Err(other),
            },
            Stage::Reporting { total } => match event {
                DownloadEvent::ProgressEmitted { delivered } => {
                    self.stage = Stage::Reading { total };
                    Ok(DownloadAction::ReadChunk)
                },
                other => Err(other),
            },
            Stage::Finished { .. } => Err(event),
        }
    }
}

} // verus!
