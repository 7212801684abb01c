//! Checkpointing and relocating the workloads of a Docker host.
//!
//! [`DockerBackend`] decides; its caller acts. Each operation is advanced by
//! one [`Event`] at a time and answers with the next [`Step`], as described
//! in [`crate::step`].

use crate::address::HostAddress;
use crate::archive::{place_entries, read_archive, restoration, zip_reading, Restoration};
use crate::client::{connect, is_endpoint};
use crate::batch::{batch_step, batch_wants_name, idle_batch, record, BatchPhase, BatchState};
use crate::error::MigrationError;
use crate::identifier::{checkpoint_name, draw_identifier};
use crate::migration::Migration;
use crate::step::{Event, EventView, Request, Step, StepView};
use crate::transfer::{advance_transfer, transfer_step, TransferStage};
use rs_docker::Docker;
use vstd::prelude::*;

verus! {

/// One captured workload: the name under which its state was checkpointed,
/// and the workload it belongs to.
#[derive(Debug, Clone)]
pub struct Checkpoint {
    pub checkpoint_name: String,
    pub container_id: String,
}

/// The mathematical content of a [`Checkpoint`].
pub struct CheckpointView {
    pub checkpoint_name: Seq<char>,
    pub container_id: Seq<char>,
}

impl View for Checkpoint {
    type V = CheckpointView;

    open spec fn view(&self) -> CheckpointView {
        CheckpointView { checkpoint_name: self.checkpoint_name@, container_id: self.container_id@ }
    }
}

impl DeepView for Checkpoint {
    type V = CheckpointView;

    open spec fn deep_view(&self) -> CheckpointView {
        self@
    }
}

impl Checkpoint {
    /// A second record of the same capture.
    pub fn duplicate(&self) -> (copy: Checkpoint)
        ensures
            copy@ == self@,
    {
        Checkpoint {
            checkpoint_name: self.checkpoint_name.clone(),
            container_id: self.container_id.clone(),
        }
    }
}

/// The orchestrator of one Docker host: the endpoint of its workload client,
/// the registry of the last batch captured, and the operations in flight.
pub struct DockerBackend {
    client: Docker,
    endpoint: String,
    checkpoints: Vec<Checkpoint>,
    phase: BatchPhase,
    running: Vec<String>,
    created: Vec<Checkpoint>,
    stage: TransferStage,
}

/// The mathematical content of a [`DockerBackend`].
pub struct BackendView {
    /// The address of the workload-management endpoint.
    pub endpoint: Seq<char>,
    /// The registry: the records of the last batch that `checkpoint` finished.
    pub checkpoints: Seq<CheckpointView>,
    /// The checkpoint batch in flight.
    pub batch: BatchState,
    /// The transfer in flight.
    pub transfer: TransferStage,
}

impl View for DockerBackend {
    type V = BackendView;

    closed spec fn view(&self) -> BackendView {
        BackendView {
            endpoint: self.endpoint@,
            checkpoints: self.checkpoints.deep_view(),
            batch: BatchState {
                phase: self.phase,
                running: self.running.deep_view(),
                created: self.created.deep_view(),
            },
            transfer: self.stage,
        }
    }
}

impl DockerBackend {
    /// An orchestrator for the workload client at `endpoint`, with an empty
    /// registry and nothing in flight. The endpoint is required: where it
    /// is missing, or is no address that a client can be made for, there is
    /// no orchestrator.
    pub fn new(endpoint: Option<String>) -> (backend: Result<DockerBackend, MigrationError>)
        ensures
            backend is Ok <==> (endpoint matches Some(address) && is_endpoint(address@)),
            backend matches Err(error) ==> error == MigrationError::Configuration,
            backend matches Ok(b) ==> b@ == (BackendView {
                endpoint: endpoint->0@,
                checkpoints: Seq::empty(),
                batch: idle_batch(),
                transfer: TransferStage::Idle,
            }),
    {
        match endpoint {
            None => Err(MigrationError::Configuration),
            Some(endpoint) => match connect(endpoint.as_str()) {
                Err(_) => Err(MigrationError::Configuration),
                Ok(client) => {
                    let backend = DockerBackend {
                        client,
                        endpoint,
                        checkpoints: Vec::new(),
                        phase: BatchPhase::Idle,
                        running: Vec::new(),
                        created: Vec::new(),
                        stage: TransferStage::Idle,
                    };
                    assert(backend@.checkpoints =~= Seq::empty());
                    assert(backend@.batch.running =~= Seq::empty());
                    assert(backend@.batch.created =~= Seq::empty());
                    Ok(backend)
                },
            },
        }
    }

    /// The workload client, for the caller to perform requests with.
    /// Whatever the caller does with it, the orchestrator stays as it is.
    pub fn client(&mut self) -> (client: &mut Docker)
        ensures
            *client == old(self).workload_client(),
            final(self).workload_client() == *final(client),
            final(self)@ == old(self)@,
    {
        &mut self.client
    }

    /// The workload client that the orchestrator holds: the one that was
    /// made for its endpoint, as its caller has left it.
    pub closed spec fn workload_client(&self) -> Docker {
        self.client
    }

    /// The address of the workload-management endpoint.
    pub fn endpoint(&self) -> (endpoint: &String)
        ensures
            endpoint@ == self@.endpoint,
    {
        &self.endpoint
    }

    /// The registry: the records of the last batch that `checkpoint` finished.
    pub fn checkpoints(&self) -> (registry: &Vec<Checkpoint>)
        ensures
            registry.deep_view() == self@.checkpoints,
    {
        &self.checkpoints
    }

    /// Forgets the batch in flight.
    fn reset_batch(&mut self)
        ensures
            final(self)@.batch == idle_batch(),
            final(self)@.endpoint == old(self)@.endpoint,
            final(self)@.checkpoints == old(self)@.checkpoints,
            final(self)@.transfer == old(self)@.transfer,
    {
        self.phase = BatchPhase::Idle;
        self.running = Vec::new();
        self.created = Vec::new();
        assert(self@.batch.running =~= Seq::empty());
        assert(self@.batch.created =~= Seq::empty());
    }

    /// Whether the batch answers `event` by asking for a checkpoint.
    fn wants_name(&self, event: &Event) -> (wanted: bool)
        ensures
            wanted == batch_wants_name(self@.batch, event@),
    {
        match event {
            Event::Running(ids) => {
                assert(ids.deep_view().len() == ids.len());
                matches!(self.phase, BatchPhase::Listing) && ids.len() > 0
            },
            Event::Succeeded => matches!(self.phase, BatchPhase::Creating) && self.created.len()
                < self.running.len(),
            _ => false,
        }
    }

    /// One decision of the checkpoint batch, with the name of the next
    /// checkpoint made from `draw` where one is asked for: exactly
    /// [`batch_step`]. The registry is left alone.
    pub fn advance_batch(&mut self, event: Event, draw: u64) -> (step: Step<Vec<Checkpoint>>)
        ensures
            (final(self)@.batch, step@) == batch_step(old(self)@.batch, event@, draw),
            final(self)@.endpoint == old(self)@.endpoint,
            final(self)@.checkpoints == old(self)@.checkpoints,
            final(self)@.transfer == old(self)@.transfer,
    {
        match event {
            Event::Begin => {
                self.phase = BatchPhase::Listing;
                self.running = Vec::new();
                self.created = Vec::new();
                assert(self@.batch.running =~= Seq::empty());
                assert(self@.batch.created =~= Seq::empty());
                Step::Perform(Request::ListRunning)
            },
            Event::Running(ids) => {
                assert(ids.deep_view().len() == ids.len());
                if !matches!(self.phase, BatchPhase::Listing) {
                    self.reset_batch();
                    Step::Aborted(MigrationError::Client)
                } else if ids.len() == 0 {
                    self.reset_batch();
                    let records: Vec<Checkpoint> = Vec::new();
                    assert(records.deep_view() =~= Seq::empty());
                    Step::Finished(records)
                } else {
                    let first = Checkpoint {
                        checkpoint_name: checkpoint_name(draw),
                        container_id: ids[0].clone(),
                    };
                    assert(first@ == record(ids.deep_view()[0], draw));
                    let request = first.duplicate();
                    self.phase = BatchPhase::Creating;
                    self.running = ids;
                    self.created = Vec::new();
                    self.created.push(first);
                    assert(self@.batch.created =~= seq![first@]);
                    Step::Perform(Request::CreateCheckpoint(request))
                }
            },
            Event::Succeeded => {
                if !matches!(self.phase, BatchPhase::Creating) {
                    self.reset_batch();
                    Step::Aborted(MigrationError::Client)
                } else if self.created.len() < self.running.len() {
                    let ghost before = self@.batch;
                    let next = Checkpoint {
                        checkpoint_name: checkpoint_name(draw),
                        container_id: self.running[self.created.len()].clone(),
                    };
                    assert(next@ == record(before.running[before.created.len() as int], draw));
                    let request = next.duplicate();
                    self.created.push(next);
                    assert(self@.batch.created =~= before.created.push(next@));
                    Step::Perform(Request::CreateCheckpoint(request))
                } else {
                    let mut records: Vec<Checkpoint> = Vec::new();
                    std::mem::swap(&mut records, &mut self.created);
                    self.reset_batch();
                    Step::Finished(records)
                }
            },
            Event::Failed => {
                self.reset_batch();
                Step::Aborted(MigrationError::Client)
            },
        }
    }

    /// One decision of the operation that checkpoints every running
    /// workload. The caller begins it with [`Event::Begin`], performs each
    /// request it is handed and reports the outcome, until the operation
    /// finishes with one record per workload or is aborted.
    ///
    /// Each checkpoint is named after a fresh random draw, so the answer is
    /// [`batch_step`] for some draw. The registry is left alone: it is
    /// `checkpoint` that stores the records.
    pub fn checkpoint_all_containers(&mut self, event: Event) -> (step: Step<Vec<Checkpoint>>)
        ensures
            exists|draw: u64|
                (final(self)@.batch, step@) == #[trigger] batch_step(
                    old(self)@.batch,
                    event@,
                    draw,
                ),
            final(self)@.endpoint == old(self)@.endpoint,
            final(self)@.checkpoints == old(self)@.checkpoints,
            final(self)@.transfer == old(self)@.transfer,
    {
        let draw: u64 = if self.wants_name(&event) {
            draw_identifier()
        } else {
            0
        };
        self.advance_batch(event, draw)
    }

    /// One decision of the operation that relocates the state directory to
    /// the host `ip_addr`: exactly [`transfer_step`]. The caller begins it
    /// with [`Event::Begin`], performs each request it is handed and reports
    /// the outcome, until the operation finishes or is aborted.
    ///
    /// Nothing here asks whether anything was checkpointed before: the
    /// operation relocates whatever the state directory holds when it is
    /// archived, and neither reads nor changes the registry.
    pub fn restore_all_containers(&mut self, ip_addr: &HostAddress, event: Event) -> (step: Step<()>)
        ensures
            (final(self)@.transfer, step@) == transfer_step(old(self)@.transfer, *ip_addr, event@),
            final(self)@.endpoint == old(self)@.endpoint,
            final(self)@.checkpoints == old(self)@.checkpoints,
            final(self)@.batch == old(self)@.batch,
    {
        let (stage, step) = advance_transfer(self.stage, ip_addr, &event);
        self.stage = stage;
        step
    }

    /// What extracting the archive `container_archive`, given as its bytes,
    /// into the directory `dest` comes to: the files to write, in archive
    /// order, and the failure that ends the extraction if the archive cannot
    /// be read to its end. It is [`restoration`] of what the bytes read as.
    pub fn restore_containers(&self, container_archive: Vec<u8>, dest: &str) -> (plan: Restoration)
        ensures
            plan@ == restoration(zip_reading(container_archive@), dest@),
    {
        match read_archive(container_archive) {
            Some(entries) => place_entries(entries, dest),
            None => {
                let files = Vec::new();
                assert(files.deep_view() =~= Seq::empty());
                Restoration { files, failure: Some(MigrationError::Archive) }
            },
        }
    }
}

/// One decision of `checkpoint`: the batch takes its step, and the records
/// of a batch that finishes replace the registry. Until then, and when the
/// batch is aborted, the registry stays as it was.
pub open spec fn checkpoint_step(s: BackendView, event: EventView, draw: u64) -> (
    BackendView,
    StepView<()>,
) {
    let (batch, answer) = batch_step(s.batch, event, draw);
    match answer {
        StepView::Perform(request) => (BackendView { batch, ..s }, StepView::Perform(request)),
        StepView::Finished(records) => (
            BackendView { batch, checkpoints: records, ..s },
            StepView::Finished(()),
        ),
        StepView::Aborted(error) => (BackendView { batch, ..s }, StepView::Aborted(error)),
    }
}

/// One decision of `migrate`: the transfer takes its step, and nothing else
/// changes. The registry plays no part in it.
pub open spec fn migrate_step(s: BackendView, ip_addr: HostAddress, event: EventView) -> (
    BackendView,
    StepView<()>,
) {
    let (transfer, answer) = transfer_step(s.transfer, ip_addr, event);
    (BackendView { transfer, ..s }, answer)
}

impl Migration for DockerBackend {
    /// Exactly [`checkpoint_step`], for the draw that names the checkpoint
    /// asked for.
    fn checkpoint(&mut self, event: Event) -> (step: Step<()>)
        ensures
            exists|draw: u64|
                (final(self)@, step@) == #[trigger] checkpoint_step(old(self)@, event@, draw),
    {
        let ghost before = self@;
        let answer = self.checkpoint_all_containers(event);
        let ghost draw = choose|draw: u64|
            (self@.batch, answer@) == #[trigger] batch_step(before.batch, event@, draw);
        let step = match answer {
            Step::Perform(request) => Step::Perform(request),
            Step::Finished(records) => {
                self.checkpoints = records;
                Step::Finished(())
            },
            Step::Aborted(error) => Step::Aborted(error),
        };
        assert((self@, step@) == checkpoint_step(before, event@, draw));
        step
    }

    /// Exactly [`migrate_step`].
    fn migrate(&mut self, ip_addr: HostAddress, event: Event) -> (step: Step<()>)
        ensures
            (final(self)@, step@) == migrate_step(old(self)@, ip_addr, event@),
    {
        self.restore_all_containers(&ip_addr, event)
    }
}

} // verus!
