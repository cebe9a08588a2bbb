//! The debouncer of library refreshes, as a state machine: the task that
//! runs it waits for an event, hands it to `debounce_step`, and performs
//! the action it returns.
use vstd::prelude::*;

verus! {

#[derive(Debug, Clone, Copy, PartialEq, Eq, Structural)]
pub enum DebounceState {
    /// No refresh pending: waiting for a trigger.
    Idle,
    /// A refresh is pending: waiting for the quiet window to elapse.
    Waiting,
    /// Cancelled, or every sender is gone: the task has ended.
    Stopped,
}

#[derive(Debug, Clone, Copy, PartialEq, Eq, Structural)]
pub enum PumpEvent {
    /// A refresh was requested.
    Trigger,
    /// The quiet window elapsed with no new request.
    WindowElapsed,
    /// Shutdown was requested.
    Cancelled,
    /// The request channel closed.
    ChannelClosed,
}

#[derive(Debug, Clone, Copy, PartialEq, Eq, Structural)]
pub enum PumpAction {
    /// Wait for the next request.
    AwaitTrigger,
    /// Start the quiet window again from now.
    RestartWindow,
    /// Refresh the library, then wait for the next request.
    Fire,
    /// End the task; a pending refresh is dropped.
    Exit,
}

/// The next state and the action for `event` in `state`.
pub open spec fn step(state: DebounceState, event: PumpEvent) -> (DebounceState, PumpAction) {
    match state {
        DebounceState::Stopped => (DebounceState::Stopped, PumpAction::Exit),
        _ => match event {
            PumpEvent::Cancelled | PumpEvent::ChannelClosed => (DebounceState::Stopped, PumpAction::Exit),
            PumpEvent::Trigger => (DebounceState::Waiting, PumpAction::RestartWindow),
            PumpEvent::WindowElapsed => if state == DebounceState::Waiting {
                (DebounceState::Idle, PumpAction::Fire)
            } else {
                (DebounceState::Idle, PumpAction::AwaitTrigger)
            },
        },
    }
}

/// Handle one event.
pub fn debounce_step(state: DebounceState, event: PumpEvent) -> (r: (DebounceState, PumpAction))
    ensures
        r == step(state, event),
{
    match state {
        DebounceState::Stopped => (DebounceState::Stopped, PumpAction::Exit),
        _ => match event {
            PumpEvent::Cancelled | PumpEvent::ChannelClosed => (DebounceState::Stopped, PumpAction::Exit),
            PumpEvent::Trigger => (DebounceState::Waiting, PumpAction::RestartWindow),
            PumpEvent::WindowElapsed => {
                if state == DebounceState::Waiting {
                    (DebounceState::Idle, PumpAction::Fire)
                } else {
                    (DebounceState::Idle, PumpAction::AwaitTrigger)
                }
            },
        },
    }
}

/// The state reached from `start` after `events`, and how many refreshes fired.
pub open spec fn run(start: DebounceState, events: Seq<PumpEvent>) -> (DebounceState, nat)
    decreases events.len(),
{
    if events.len() == 0 {
        (start, 0)
    } else {
        let (s, n) = run(start, events.drop_last());
        let (t, a) = step(s, events.last());
        (t, if a == PumpAction::Fire { n + 1 } else { n })
    }
}

/// How many requests `events` holds.
pub open spec fn triggers(events: Seq<PumpEvent>) -> nat
    decreases events.len(),
{
    if events.len() == 0 {
        0
    } else {
        triggers(events.drop_last()) + if events.last() == PumpEvent::Trigger { 1nat } else { 0nat }
    }
}

/// `n` requests in a row.
pub open spec fn burst(n: nat) -> Seq<PumpEvent> {
    Seq::new(n, |i: int| PumpEvent::Trigger)
}

proof fn lemma_burst_waits(n: nat)
    requires
        n >= 1,
    ensures
        run(DebounceState::Idle, burst(n)) == (DebounceState::Waiting, 0nat),
    decreases n,
{
    assert(burst(n).len() == n);
    assert(burst(n).last() == PumpEvent::Trigger);
    if n > 1 {
        lemma_burst_waits((n - 1) as nat);
        assert(burst(n).drop_last() =~= burst((n - 1) as nat));
    } else {
        assert(burst(n).drop_last() =~= Seq::<PumpEvent>::empty());
        assert(run(DebounceState::Idle, burst(n).drop_last()) == (DebounceState::Idle, 0nat));
    }
}

/// A burst of any number of requests followed by a quiet window fires
/// exactly one refresh and leaves the debouncer idle.
pub proof fn law_burst_collapses_to_one_refresh(n: nat)
    requires
        n >= 1,
    ensures
        run(DebounceState::Idle, burst(n).push(PumpEvent::WindowElapsed)) == (DebounceState::Idle, 1nat),
{
    lemma_burst_waits(n);
    assert(burst(n).push(PumpEvent::WindowElapsed).drop_last() =~= burst(n));
}

/// Never more refreshes fire than were requested; while one is pending it
/// counts against the requests too.
pub proof fn law_refreshes_never_exceed_requests(events: Seq<PumpEvent>)
    ensures
        run(DebounceState::Idle, events).1 + (if run(DebounceState::Idle, events).0 == DebounceState::Waiting { 1nat } else { 0nat })
            <= triggers(events),
    decreases events.len(),
{
    if events.len() > 0 {
        law_refreshes_never_exceed_requests(events.drop_last());
    }
}

/// Once stopped, the debouncer stays stopped and fires nothing, whatever
/// comes after: a cancelled or closed debouncer drops any pending refresh.
pub proof fn law_stopped_is_final(events: Seq<PumpEvent>)
    ensures
        run(DebounceState::Stopped, events) == (DebounceState::Stopped, 0nat),
    decreases events.len(),
{
    if events.len() > 0 {
        law_stopped_is_final(events.drop_last());
    }
}

/// Cancellation or a closed channel stops the debouncer from any state.
pub proof fn law_shutdown_stops(state: DebounceState, event: PumpEvent)
    requires
        event == PumpEvent::Cancelled || event == PumpEvent::ChannelClosed,
    ensures
        step(state, event) == (DebounceState::Stopped, PumpAction::Exit),
{
}

/// Bursts of `ns[0]`, `ns[1]`, ... requests, each followed by a quiet window.
pub open spec fn bursts(ns: Seq<nat>) -> Seq<PumpEvent>
    decreases ns.len(),
{
    if ns.len() == 0 {
        Seq::empty()
    } else {
        bursts(ns.drop_last()) + burst(ns.last()).push(PumpEvent::WindowElapsed)
    }
}

/// Running `a` then `b` is running `b` from where `a` left off; the
/// refreshes add up.
proof fn lemma_run_append(start: DebounceState, a: Seq<PumpEvent>, b: Seq<PumpEvent>)
    ensures
        run(start, a + b) == (run(run(start, a).0, b).0, run(start, a).1 + run(run(start, a).0, b).1),
    decreases b.len(),
{
    if b.len() == 0 {
        assert(a + b =~= a);
    } else {
        lemma_run_append(start, a, b.drop_last());
        assert((a + b).drop_last() =~= a + b.drop_last());
        assert((a + b).last() == b.last());
    }
}

/// Separate bursts each fire exactly one refresh: `k` bursts, each of at
/// least one request and each followed by a quiet window, fire `k`
/// refreshes and leave the debouncer idle.
pub proof fn law_separate_bursts_each_fire(ns: Seq<nat>)
    requires
        forall|i: int| 0 <= i < ns.len() ==> #[trigger] ns[i] >= 1,
    ensures
        run(DebounceState::Idle, bursts(ns)) == (DebounceState::Idle, ns.len()),
    decreases ns.len(),
{
    if ns.len() > 0 {
        let init = ns.drop_last();
        assert forall|i: int| 0 <= i < init.len() implies #[trigger] init[i] >= 1 by {
            assert(init[i] == ns[i]);
        }
        law_separate_bursts_each_fire(init);
        assert(ns[ns.len() - 1] >= 1);
        law_burst_collapses_to_one_refresh(ns.last());
        lemma_run_append(DebounceState::Idle, bursts(init), burst(ns.last()).push(PumpEvent::WindowElapsed));
    }
}

} // verus!
