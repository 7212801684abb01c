//! The vocabulary shared by the operations of the orchestrator.
//!
//! An operation never touches the workload client, the network or the disk.
//! It is advanced one [`Event`] at a time and answers each with a [`Step`]:
//! a [`Request`] that the caller must carry out, or the end of the operation.
//! The caller starts an operation with [`Event::Begin`] and then reports the
//! outcome of each request it was asked to perform.

use crate::address::HostAddress;
use crate::docker::{Checkpoint, CheckpointView};
use crate::error::MigrationError;
use vstd::prelude::*;

verus! {

/// What the caller reports to an operation.
#[derive(Debug)]
pub enum Event {
    /// The operation starts now; nothing has been asked for yet.
    Begin,
    /// The workload client listed these running workloads, by identifier and
    /// in its own order.
    Running(Vec<String>),
    /// The request last asked for was carried out.
    Succeeded,
    /// The request last asked for failed.
    Failed,
}

/// The mathematical content of an [`Event`].
pub enum EventView {
    Begin,
    Running(Seq<Seq<char>>),
    Succeeded,
    Failed,
}

impl View for Event {
    type V = EventView;

    open spec fn view(&self) -> EventView {
        match self {
            Event::Begin => EventView::Begin,
            Event::Running(ids) => EventView::Running(ids.deep_view()),
            Event::Succeeded => EventView::Succeeded,
            Event::Failed => EventView::Failed,
        }
    }
}

/// Outside work that an operation asks its caller to perform.
#[derive(Debug)]
pub enum Request {
    /// Enumerate the running workloads; answer with [`Event::Running`].
    ListRunning,
    /// Have the workload client checkpoint the workload `container_id` under
    /// the name `checkpoint_name`.
    CreateCheckpoint(Checkpoint),
    /// Open an authenticated session to this host.
    OpenSession(HostAddress),
    /// Open the file-transfer subchannel over the session.
    OpenSubchannel,
    /// Archive the whole tree under `source_dir` into the local file
    /// `archive_path`.
    BuildArchive { source_dir: String, archive_path: String },
    /// Create (or truncate) the file `remote_path` on the destination.
    CreateRemoteFile { remote_path: String },
    /// Stream the local file `archive_path` into the remote file.
    SendArchive { archive_path: String },
    /// Flush the remote file, so that it is durably written.
    Flush,
}

/// The mathematical content of a [`Request`].
pub enum RequestView {
    ListRunning,
    CreateCheckpoint(CheckpointView),
    OpenSession(HostAddress),
    OpenSubchannel,
    BuildArchive { source_dir: Seq<char>, archive_path: Seq<char> },
    CreateRemoteFile { remote_path: Seq<char> },
    SendArchive { archive_path: Seq<char> },
    Flush,
}

impl View for Request {
    type V = RequestView;

    open spec fn view(&self) -> RequestView {
        match self {
            Request::ListRunning => RequestView::ListRunning,
            Request::CreateCheckpoint(checkpoint) => RequestView::CreateCheckpoint(checkpoint@),
            Request::OpenSession(address) => RequestView::OpenSession(*address),
            Request::OpenSubchannel => RequestView::OpenSubchannel,
            Request::BuildArchive { source_dir, archive_path } => RequestView::BuildArchive {
                source_dir: source_dir@,
                archive_path: archive_path@,
            },
            Request::CreateRemoteFile { remote_path } => RequestView::CreateRemoteFile {
                remote_path: remote_path@,
            },
            Request::SendArchive { archive_path } => RequestView::SendArchive {
                archive_path: archive_path@,
            },
            Request::Flush => RequestView::Flush,
        }
    }
}

/// The answer of an operation to an event.
#[derive(Debug)]
pub enum Step<T> {
    /// The caller must perform this request and report its outcome.
    Perform(Request),
    /// The operation is over and succeeded with this result.
    Finished(T),
    /// The operation is over and failed. Nothing is rolled back, and nothing
    /// is reported of what had been done before the failure.
    Aborted(MigrationError),
}

/// The mathematical content of a [`Step`].
pub enum StepView<T> {
    Perform(RequestView),
    Finished(T),
    Aborted(MigrationError),
}

impl<T: DeepView> View for Step<T> {
    type V = StepView<T::V>;

    open spec fn view(&self) -> StepView<T::V> {
        match self {
            Step::Perform(request) => StepView::Perform(request@),
            Step::Finished(result) => StepView::Finished(result.deep_view()),
            Step::Aborted(error) => StepView::Aborted(*error),
        }
    }
}

} // verus!
