//! Relocating captured state: the sequence of a transfer.
//!
//! A transfer copies the whole state directory of the workload engine, not
//! only the workloads that were checkpointed, through one archive at a fixed
//! local path into one file at a fixed remote path. Two transfers at once
//! would write the same files: callers run one at a time.

use crate::address::HostAddress;
use crate::error::MigrationError;
use crate::step::{Event, EventView, Request, RequestView, Step, StepView};
use vstd::prelude::*;

verus! {

/// The directory in which the workload engine keeps its state.
pub const STATE_DIR: &'static str = "/var/lib/docker/containers";

/// The local file into which the state directory is archived.
pub const ARCHIVE_PATH: &'static str = "./containers.zip";

/// The file on the destination into which the archive is streamed.
pub const REMOTE_ARCHIVE_PATH: &'static str = "./containers.zip";

/// Where a transfer stands: the request that is being carried out.
#[derive(Clone, Copy, Debug, PartialEq, Eq, Structural)]
pub enum TransferStage {
    /// No transfer is in flight.
    Idle,
    /// The session to the destination is being opened.
    Connecting,
    /// The file-transfer subchannel is being opened.
    OpeningSubchannel,
    /// The state directory is being archived.
    Archiving,
    /// The remote file is being created.
    CreatingRemoteFile,
    /// The archive is being streamed into the remote file.
    Sending,
    /// The remote file is being flushed.
    Flushing,
}

/// One decision of a transfer to `destination`: from the stage and the event
/// reported, the next stage and the answer.
///
/// A transfer opens a session to the destination, opens the file-transfer
/// subchannel, archives the state directory, creates the remote file, streams
/// the archive into it and flushes it; it finishes only once the flush
/// succeeded. The first failure ends it: as an archive error while the
/// archive was being built, as a transfer error anywhere else. An event that
/// answers nothing the transfer had asked for ends it too. `destination` is
/// read when the transfer begins, and only then.
pub open spec fn transfer_step(stage: TransferStage, destination: HostAddress, event: EventView)
    -> (TransferStage, StepView<()>) {
    match event {
        EventView::Begin => (
            TransferStage::Connecting,
            StepView::Perform(RequestView::OpenSession(destination)),
        ),
        EventView::Succeeded => match stage {
            TransferStage::Connecting => (
                TransferStage::OpeningSubchannel,
                StepView::Perform(RequestView::OpenSubchannel),
            ),
            TransferStage::OpeningSubchannel => (
                TransferStage::Archiving,
                StepView::Perform(
                    RequestView::BuildArchive {
                        source_dir: STATE_DIR@,
                        archive_path: ARCHIVE_PATH@,
                    },
                ),
            ),
            TransferStage::Archiving => (
                TransferStage::CreatingRemoteFile,
                StepView::Perform(
                    RequestView::CreateRemoteFile { remote_path: REMOTE_ARCHIVE_PATH@ },
                ),
            ),
            TransferStage::CreatingRemoteFile => (
                TransferStage::Sending,
                StepView::Perform(RequestView::SendArchive { archive_path: ARCHIVE_PATH@ }),
            ),
            TransferStage::Sending => (
                TransferStage::Flushing,
                StepView::Perform(RequestView::Flush),
            ),
            TransferStage::Flushing => (TransferStage::Idle, StepView::Finished(())),
            TransferStage::Idle => (
                TransferStage::Idle,
                StepView::Aborted(MigrationError::Transfer),
            ),
        },
        EventView::Failed => (
            TransferStage::Idle,
            StepView::Aborted(
                if stage == TransferStage::Archiving {
                    MigrationError::Archive
                } else {
                    MigrationError::Transfer
                },
            ),
        ),
        EventView::Running(_) => (TransferStage::Idle, StepView::Aborted(MigrationError::Transfer)),
    }
}

/// One decision of a transfer: exactly [`transfer_step`].
pub fn advance_transfer(stage: TransferStage, destination: &HostAddress, event: &Event) -> (next: (
    TransferStage,
    Step<()>,
))
    ensures
        (next.0, next.1@) == transfer_step(stage, *destination, event@),
{
    match event {
        Event::Begin => (TransferStage::Connecting, Step::Perform(Request::OpenSession(*destination))),
        Event::Succeeded => match stage {
            TransferStage::Connecting => (
                TransferStage::OpeningSubchannel,
                Step::Perform(Request::OpenSubchannel),
            ),
            TransferStage::OpeningSubchannel => (
                TransferStage::Archiving,
                Step::Perform(
                    Request::BuildArchive {
                        source_dir: STATE_DIR.to_owned(),
                        archive_path: ARCHIVE_PATH.to_owned(),
                    },
                ),
            ),
            TransferStage::Archiving => (
                TransferStage::CreatingRemoteFile,
                Step::Perform(
                    Request::CreateRemoteFile { remote_path: REMOTE_ARCHIVE_PATH.to_owned() },
                ),
            ),
            TransferStage::CreatingRemoteFile => (
                TransferStage::Sending,
                Step::Perform(Request::SendArchive { archive_path: ARCHIVE_PATH.to_owned() }),
            ),
            TransferStage::Sending => (TransferStage::Flushing, Step::Perform(Request::Flush)),
            TransferStage::Flushing => (TransferStage::Idle, Step::Finished(())),
            TransferStage::Idle => (TransferStage::Idle, Step::Aborted(MigrationError::Transfer)),
        },
        Event::Failed => match stage {
            TransferStage::Archiving => (
                TransferStage::Idle,
                Step::Aborted(MigrationError::Archive),
            ),
            _ => (TransferStage::Idle, Step::Aborted(MigrationError::Transfer)),
        },
        Event::Running(_) => (TransferStage::Idle, Step::Aborted(MigrationError::Transfer)),
    }
}

} // verus!
