//! The checkpoint batch: one checkpoint for every running workload.
//!
//! A batch is all or nothing. The first request that fails ends it, and the
//! caller learns only that it failed: checkpoints that were created before
//! the failure are neither rolled back nor reported.

use crate::docker::CheckpointView;
use crate::error::MigrationError;
use crate::identifier::{decimal, lemma_decimal_injective, lemma_decimal_value, parses_as_u64};
use crate::step::{EventView, RequestView, StepView};
use vstd::prelude::*;

verus! {

/// Where a checkpoint batch stands.
#[derive(Clone, Copy, Debug, PartialEq, Eq, Structural)]
pub enum BatchPhase {
    /// No batch is in flight.
    Idle,
    /// The running workloads were asked for.
    Listing,
    /// A checkpoint was asked for: that of the last record in `created`.
    Creating,
}

/// The state of a checkpoint batch.
pub struct BatchState {
    pub phase: BatchPhase,
    /// The workloads of this batch, as the workload client listed them.
    pub running: Seq<Seq<char>>,
    /// One record for each workload handled so far, in the order of `running`.
    pub created: Seq<CheckpointView>,
}

/// The state in which no batch is in flight.
pub open spec fn idle_batch() -> BatchState {
    BatchState { phase: BatchPhase::Idle, running: Seq::empty(), created: Seq::empty() }
}

/// The record of the workload `container_id`, named after `draw`.
pub open spec fn record(container_id: Seq<char>, draw: u64) -> CheckpointView {
    CheckpointView { checkpoint_name: decimal(draw as nat), container_id }
}

/// Whether the batch in state `s` answers `event` by asking for a checkpoint,
/// for which it needs a fresh name.
pub open spec fn batch_wants_name(s: BatchState, event: EventView) -> bool {
    match event {
        EventView::Running(ids) => s.phase == BatchPhase::Listing && ids.len() > 0,
        EventView::Succeeded => s.phase == BatchPhase::Creating && s.created.len()
            < s.running.len(),
        _ => false,
    }
}

/// One decision of a checkpoint batch: from the state `s` and the event
/// reported, the next state and the answer. `draw` names the checkpoint that
/// the answer asks for, if it asks for one.
///
/// A batch begins by asking for the running workloads. It then asks for one
/// checkpoint per workload, in the order listed, each once the one before it
/// was created, and finishes with all the records once the last was created.
/// The first failure ends it, and so does an event that answers nothing the
/// batch had asked for; nothing is kept of a batch that ended.
pub open spec fn batch_step(s: BatchState, event: EventView, draw: u64) -> (
    BatchState,
    StepView<Seq<CheckpointView>>,
) {
    match event {
        EventView::Begin => (
            BatchState { phase: BatchPhase::Listing, running: Seq::empty(), created: Seq::empty() },
            StepView::Perform(RequestView::ListRunning),
        ),
        EventView::Running(ids) => if s.phase != BatchPhase::Listing {
            (idle_batch(), StepView::Aborted(MigrationError::Client))
        } else if ids.len() == 0 {
            (idle_batch(), StepView::Finished(Seq::empty()))
        } else {
            (
                BatchState {
                    phase: BatchPhase::Creating,
                    running: ids,
                    created: seq![record(ids[0], draw)],
                },
                StepView::Perform(RequestView::CreateCheckpoint(record(ids[0], draw))),
            )
        },
        EventView::Succeeded => if s.phase != BatchPhase::Creating {
            (idle_batch(), StepView::Aborted(MigrationError::Client))
        } else if s.created.len() < s.running.len() {
            (
                BatchState {
                    phase: BatchPhase::Creating,
                    running: s.running,
                    created: s.created.push(record(s.running[s.created.len() as int], draw)),
                },
                StepView::Perform(
                    RequestView::CreateCheckpoint(record(s.running[s.created.len() as int], draw)),
                ),
            )
        } else {
            (idle_batch(), StepView::Finished(s.created))
        },
        EventView::Failed => (idle_batch(), StepView::Aborted(MigrationError::Client)),
    }
}

/// Where a batch ends up when it is fed `events` in order, starting in the
/// state `s`, and the answer to the last of them. The checkpoint asked for in
/// answer to the event at `i`, if one is, is named after `draws[i]`.
pub open spec fn batch_run(s: BatchState, events: Seq<EventView>, draws: Seq<u64>) -> (
    BatchState,
    StepView<Seq<CheckpointView>>,
)
    recommends
        events.len() >= 1,
        draws.len() == events.len(),
    decreases events.len(),
{
    if events.len() <= 1 {
        batch_step(s, events[0], draws[0])
    } else {
        batch_step(
            batch_run(s, events.drop_last(), draws.drop_last()).0,
            events.last(),
            draws.last(),
        )
    }
}

/// What the caller reports while a batch over the workloads `ids` goes well:
/// the beginning, the workloads, and the success of `created` requests.
pub open spec fn good_events(ids: Seq<Seq<char>>, created: nat) -> Seq<EventView> {
    seq![EventView::Begin, EventView::Running(ids)] + Seq::new(
        created,
        |i: int| EventView::Succeeded,
    )
}

/// The records of the first `count` workloads of `ids`, where the checkpoint
/// of the workload at `i` is asked for in answer to the event at `i + 1`.
pub open spec fn records_of(ids: Seq<Seq<char>>, draws: Seq<u64>, count: nat) -> Seq<
    CheckpointView,
> {
    Seq::new(count, |i: int| record(ids[i], draws[i + 1]))
}

/// While the requests of a batch succeed, it asks for the checkpoint of one
/// workload after the other, in the order listed.
proof fn lemma_batch_progress(start: BatchState, ids: Seq<Seq<char>>, draws: Seq<u64>, done: nat)
    requires
        done < ids.len(),
        draws.len() == done + 2,
    ensures
        batch_run(start, good_events(ids, done), draws) == (
            BatchState {
                phase: BatchPhase::Creating,
                running: ids,
                created: records_of(ids, draws, done + 1),
            },
            StepView::<Seq<CheckpointView>>::Perform(
                RequestView::CreateCheckpoint(record(ids[done as int], draws[done as int + 1])),
            ),
        ),
    decreases done,
{
    let events = good_events(ids, done);
    assert(events.len() == done + 2);
    if done == 0 {
        assert(events.drop_last() =~= seq![EventView::Begin]);
        assert(events.last() == EventView::Running(ids));
        assert(batch_run(start, events.drop_last(), draws.drop_last()).0.phase
            == BatchPhase::Listing);
        assert(records_of(ids, draws, 1) =~= seq![record(ids[0], draws[1])]);
    } else {
        assert(events.drop_last() =~= good_events(ids, (done - 1) as nat));
        assert(events.last() == EventView::Succeeded);
        lemma_batch_progress(start, ids, draws.drop_last(), (done - 1) as nat);
        assert(records_of(ids, draws.drop_last(), done) =~= records_of(ids, draws, done));
        assert(records_of(ids, draws, done + 1) =~= records_of(ids, draws, done).push(
            record(ids[done as int], draws[done as int + 1]),
        ));
    }
}

/// A batch over any running workloads, all of whose requests succeed,
/// finishes with exactly one record per workload: the record at `i` belongs
/// to the workload listed at `i`, and its name is the numeral of a 64-bit
/// draw, so it reads as an unsigned 64-bit integer. Nothing of the batch
/// stays behind, whatever state it was started in.
pub proof fn lemma_batch_captures_every_workload(
    start: BatchState,
    ids: Seq<Seq<char>>,
    draws: Seq<u64>,
)
    requires
        draws.len() == ids.len() + 2,
    ensures
        batch_run(start, good_events(ids, ids.len()), draws) == (
            idle_batch(),
            StepView::Finished(records_of(ids, draws, ids.len())),
        ),
        records_of(ids, draws, ids.len()).len() == ids.len(),
        forall|i: int|
            0 <= i < ids.len() ==> (#[trigger] records_of(ids, draws, ids.len())[i]).container_id
                == ids[i],
        forall|i: int|
            0 <= i < ids.len() ==> parses_as_u64(
                (#[trigger] records_of(ids, draws, ids.len())[i]).checkpoint_name,
            ),
{
    let events = good_events(ids, ids.len());
    if ids.len() == 0 {
        assert(events.drop_last() =~= seq![EventView::Begin]);
        assert(events.last() == EventView::Running(ids));
        assert(batch_run(start, events.drop_last(), draws.drop_last()).0.phase
            == BatchPhase::Listing);
        assert(records_of(ids, draws, 0) =~= Seq::empty());
    } else {
        let done = (ids.len() - 1) as nat;
        assert(events.drop_last() =~= good_events(ids, done));
        assert(events.last() == EventView::Succeeded);
        lemma_batch_progress(start, ids, draws.drop_last(), done);
        assert(records_of(ids, draws.drop_last(), ids.len()) =~= records_of(
            ids,
            draws,
            ids.len(),
        ));
    }
    assert forall|i: int| 0 <= i < ids.len() implies parses_as_u64(
        (#[trigger] records_of(ids, draws, ids.len())[i]).checkpoint_name,
    ) by {
        lemma_decimal_value(draws[i + 1] as nat);
    }
}

/// In a batch that finished, two records bear the same name exactly when
/// they were named after the same draw: names are pairwise distinct exactly
/// when the draws are.
pub proof fn lemma_batch_names_distinct(ids: Seq<Seq<char>>, draws: Seq<u64>, i: int, j: int)
    requires
        draws.len() == ids.len() + 2,
        0 <= i < ids.len(),
        0 <= j < ids.len(),
    ensures
        records_of(ids, draws, ids.len())[i].checkpoint_name == records_of(
            ids,
            draws,
            ids.len(),
        )[j].checkpoint_name <==> draws[i + 1] == draws[j + 1],
{
    lemma_decimal_injective(draws[i + 1] as nat, draws[j + 1] as nat);
}

/// Whatever a batch has done so far, the first failure ends it: the caller
/// learns that the batch failed, and nothing of it is kept.
pub proof fn lemma_batch_fails_fast(s: BatchState, draw: u64)
    ensures
        batch_step(s, EventView::Failed, draw) == (
            idle_batch(),
            StepView::<Seq<CheckpointView>>::Aborted(MigrationError::Client),
        ),
{
}

} // verus!
