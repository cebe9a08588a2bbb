//! The worker pool's settings and the decisions of its dispatcher: the
//! task that runs it waits for an event, hands it to `dispatch_step`, and
//! performs the action it returns.
use vstd::prelude::*;
use super::job::RetryPolicy;
use crate::time::duration_as_nanos;

verus! {

/// Settings of the worker pool.
#[derive(Debug, Clone)]
pub struct WorkerPoolConfig {
    /// Jobs processed at once.
    pub concurrency: usize,
    /// Wait between claims when the queue is empty or a claim failed, in
    /// milliseconds.
    pub poll_interval_ms: u64,
    /// How long a claim holds a job, in seconds.
    pub claim_for_secs: i64,
    pub retry_policy: RetryPolicy,
    pub worker_id: String,
}

impl WorkerPoolConfig {
    /// Settings with `concurrency` workers: polling every 500 ms, claims
    /// held for 60 s, the default retry policy.
    pub fn new(concurrency: usize, worker_id: String) -> (r: Self)
        ensures
            r.concurrency == concurrency,
            r.poll_interval_ms == 500,
            r.claim_for_secs == 60,
            r.retry_policy.max_attempts == 5,
            duration_as_nanos(r.retry_policy.initial_backoff) == 1_000_000_000,
            duration_as_nanos(r.retry_policy.max_backoff) == 60_000_000_000,
            r.worker_id == worker_id,
    {
        WorkerPoolConfig {
            concurrency,
            poll_interval_ms: 500,
            claim_for_secs: 60,
            retry_policy: RetryPolicy::defaults(),
            worker_id,
        }
    }
}

/// What the dispatcher observed.
#[derive(Debug, Clone, Copy, PartialEq, Eq, Structural)]
pub enum DispatchEvent {
    /// Shutdown was requested.
    Cancelled,
    /// A worker slot is free.
    SlotAcquired,
    /// The slot pool was closed.
    SlotsClosed,
    /// A job was claimed.
    Claimed,
    /// No job is due.
    QueueEmpty,
    /// Claiming failed.
    ClaimFailed,
    /// The poll interval elapsed.
    PollElapsed,
}

/// What the dispatcher does next.
#[derive(Debug, Clone, Copy, PartialEq, Eq, Structural)]
pub enum DispatchAction {
    /// Wait for a free worker slot.
    AwaitSlot,
    /// Claim the next due job, holding the slot.
    Claim,
    /// Hand the claimed job and its slot to a worker, then wait for a slot.
    SpawnWorker,
    /// Release the slot and wait one poll interval.
    ReleaseAndSleep,
    /// Stop dispatching.
    Stop,
}

/// The dispatcher's step.
pub open spec fn dispatch(event: DispatchEvent) -> DispatchAction {
    match event {
        DispatchEvent::Cancelled | DispatchEvent::SlotsClosed => DispatchAction::Stop,
        DispatchEvent::SlotAcquired => DispatchAction::Claim,
        DispatchEvent::Claimed => DispatchAction::SpawnWorker,
        DispatchEvent::QueueEmpty | DispatchEvent::ClaimFailed => DispatchAction::ReleaseAndSleep,
        DispatchEvent::PollElapsed => DispatchAction::AwaitSlot,
    }
}

/// Decide what the dispatcher does after `event`. A failed claim is
/// treated like an empty queue: the slot is released and the dispatcher
/// polls again.
pub fn dispatch_step(event: DispatchEvent) -> (r: DispatchAction)
    ensures
        r == dispatch(event),
{
    match event {
        DispatchEvent::Cancelled | DispatchEvent::SlotsClosed => DispatchAction::Stop,
        DispatchEvent::SlotAcquired => DispatchAction::Claim,
        DispatchEvent::Claimed => DispatchAction::SpawnWorker,
        DispatchEvent::QueueEmpty | DispatchEvent::ClaimFailed => DispatchAction::ReleaseAndSleep,
        DispatchEvent::PollElapsed => DispatchAction::AwaitSlot,
    }
}

/// The actions the dispatcher takes for `events`, observed in order: it
/// performs each event's action and returns after the first `Stop`.
pub open spec fn dispatch_trace(events: Seq<DispatchEvent>) -> Seq<DispatchAction>
    decreases events.len(),
{
    if events.len() == 0 {
        Seq::empty()
    } else if dispatch(events[0]) == DispatchAction::Stop {
        seq![DispatchAction::Stop]
    } else {
        seq![dispatch(events[0])] + dispatch_trace(events.skip(1))
    }
}

/// The `i`-th action is the `i`-th event's, and every action before the
/// last is not `Stop`.
proof fn lemma_dispatch_trace(events: Seq<DispatchEvent>)
    ensures
        dispatch_trace(events).len() <= events.len(),
        forall|i: int| 0 <= i < dispatch_trace(events).len() ==> #[trigger] dispatch_trace(events)[i] == dispatch(events[i]),
        forall|i: int| 0 <= i < dispatch_trace(events).len() - 1 ==> dispatch(#[trigger] events[i]) != DispatchAction::Stop,
    decreases events.len(),
{
    if events.len() > 0 && dispatch(events[0]) != DispatchAction::Stop {
        let rest = events.skip(1);
        lemma_dispatch_trace(rest);
        let t = dispatch_trace(events);
        assert forall|i: int| 0 <= i < t.len() implies #[trigger] t[i] == dispatch(events[i]) by {
            if i > 0 {
                assert(t[i] == dispatch_trace(rest)[i - 1]);
                assert(rest[i - 1] == events[i]);
            }
        }
        assert forall|i: int| 0 <= i < t.len() - 1 implies dispatch(#[trigger] events[i]) != DispatchAction::Stop by {
            if i > 0 {
                assert(rest[i - 1] == events[i]);
            }
        }
    }
}

/// Once the dispatcher observes a cancellation it stops: no action, and
/// so no claim, follows it. Every claim is made right after a worker slot
/// was acquired, so no more jobs are claimed at once than there are slots.
pub proof fn law_no_claim_after_cancel(events: Seq<DispatchEvent>, k: int)
    requires
        0 <= k < events.len(),
        events[k] == DispatchEvent::Cancelled,
    ensures
        dispatch_trace(events).len() <= k + 1,
        forall|i: int| 0 <= i < dispatch_trace(events).len() && #[trigger] dispatch_trace(events)[i] == DispatchAction::Claim
            ==> i < k && events[i] == DispatchEvent::SlotAcquired,
{
    lemma_dispatch_trace(events);
    if dispatch_trace(events).len() > k + 1 {
        assert(dispatch(events[k]) != DispatchAction::Stop);
    }
}

/// What happens to the pool's worker slots: an event the dispatcher
/// observed, or a worker finishing its job.
#[derive(Debug, Clone, Copy, PartialEq, Eq, Structural)]
pub enum SlotEvent {
    Dispatcher(DispatchEvent),
    WorkerFinished,
}

/// The pool's `concurrency` slots: `free` ones, the one the dispatcher
/// `held` (0 or 1) while claiming, and those `running` workers hold.
pub struct Slots {
    pub free: int,
    pub held: int,
    pub running: int,
}

/// The slots before anything happened.
pub open spec fn initial_slots(concurrency: nat) -> Slots {
    Slots { free: concurrency as int, held: 0, running: 0 }
}

/// An event can happen in `s`: a slot is acquired only when one is free
/// (the slot pool's own rule), a claim ends only while the dispatcher holds
/// a slot, and only a running worker finishes.
pub open spec fn slot_event_enabled(s: Slots, ev: SlotEvent) -> bool {
    match ev {
        SlotEvent::Dispatcher(DispatchEvent::SlotAcquired) => s.free > 0 && s.held == 0,
        SlotEvent::Dispatcher(DispatchEvent::Claimed)
        | SlotEvent::Dispatcher(DispatchEvent::QueueEmpty)
        | SlotEvent::Dispatcher(DispatchEvent::ClaimFailed) => s.held == 1,
        SlotEvent::WorkerFinished => s.running > 0,
        _ => true,
    }
}

/// The slots after `ev`, following the dispatcher's action for it: `Claim`
/// holds the acquired slot, `SpawnWorker` hands it to the new worker,
/// `ReleaseAndSleep` frees it; a finishing worker frees its slot.
pub open spec fn slot_step(s: Slots, ev: SlotEvent) -> Slots {
    match ev {
        SlotEvent::WorkerFinished => Slots { free: s.free + 1, held: s.held, running: s.running - 1 },
        SlotEvent::Dispatcher(e) => match dispatch(e) {
            DispatchAction::Claim => Slots { free: s.free - 1, held: 1, running: s.running },
            DispatchAction::SpawnWorker => Slots { free: s.free, held: 0, running: s.running + 1 },
            DispatchAction::ReleaseAndSleep => Slots { free: s.free + 1, held: 0, running: s.running },
            _ => s,
        },
    }
}

/// The slots after `events`, from `concurrency` free ones.
pub open spec fn slots_after(concurrency: nat, events: Seq<SlotEvent>) -> Slots
    decreases events.len(),
{
    if events.len() == 0 {
        initial_slots(concurrency)
    } else {
        slot_step(slots_after(concurrency, events.drop_last()), events.last())
    }
}

/// Every event of `events` could happen when it did.
pub open spec fn slot_events_possible(concurrency: nat, events: Seq<SlotEvent>) -> bool
    decreases events.len(),
{
    events.len() == 0 || (slot_events_possible(concurrency, events.drop_last())
        && slot_event_enabled(slots_after(concurrency, events.drop_last()), events.last()))
}

/// No more jobs are worked on at once than the pool has slots: whatever
/// happens, the free slots, the one the dispatcher holds and the running
/// workers' always add up to `concurrency`, so at most `concurrency`
/// workers run.
pub proof fn law_workers_never_exceed_slots(concurrency: nat, events: Seq<SlotEvent>)
    requires
        slot_events_possible(concurrency, events),
    ensures
        slots_after(concurrency, events).free >= 0,
        0 <= slots_after(concurrency, events).held <= 1,
        slots_after(concurrency, events).running >= 0,
        slots_after(concurrency, events).free + slots_after(concurrency, events).held
            + slots_after(concurrency, events).running == concurrency,
        slots_after(concurrency, events).running <= concurrency,
    decreases events.len(),
{
    if events.len() > 0 {
        law_workers_never_exceed_slots(concurrency, events.drop_last());
    }
}

} // verus!
