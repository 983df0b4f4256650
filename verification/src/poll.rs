//! The schedule of the polling loop.
//!
//! The loop itself waits for the network and for the clock, which is not
//! this library's to do. What it decides is here: a machine that is told
//! what happened and answers with what to do next.

use vstd::prelude::*;

verus! {

/// Seconds of sleep between the end of one cycle and the start of the next.
pub const INTERVAL: u64 = 1_800;

/// Seconds from the start after which no further cycle is begun: seven days.
pub const BUDGET: u64 = 604_800;

/// Where the loop stands.
#[derive(Debug, Clone, Copy, PartialEq, Eq)]
pub enum Phase {
    /// Nothing has been done yet.
    Idle,
    /// A cycle is under way.
    Fetching,
    /// The loop sleeps between two cycles.
    Sleeping,
    /// The loop has ended.
    Stopped,
}

/// What the loop is told.
#[derive(Debug, Clone, Copy, PartialEq, Eq)]
pub enum Event {
    /// The program has started.
    Started,
    /// The cycle under way is complete, so many seconds after the start.
    CycleDone(u64),
    /// The cycle under way has failed.
    CycleFailed,
    /// The sleep is over.
    Woke,
}

/// What the loop does next.
#[derive(Debug, Clone, Copy, PartialEq, Eq)]
pub enum Action {
    /// Run one cycle: ask the service once and deal with the answer.
    Fetch,
    /// Sleep for so many seconds.
    Sleep(u64),
    /// End the loop.
    Stop,
}

/// The phase that follows and the action that is taken when `event` is told
/// in `phase`. A cycle that completes before the budget is spent is followed
/// by a sleep, one that completes at or past it ends the loop, and so does a
/// failed cycle and any event that the phase does not expect.
pub open spec fn next(phase: Phase, event: Event) -> (Phase, Action) {
    match (phase, event) {
        (Phase::Idle, Event::Started) => (Phase::Fetching, Action::Fetch),
        (Phase::Fetching, Event::CycleDone(elapsed)) => if elapsed >= BUDGET {
            (Phase::Stopped, Action::Stop)
        } else {
            (Phase::Sleeping, Action::Sleep(INTERVAL))
        },
        (Phase::Sleeping, Event::Woke) => (Phase::Fetching, Action::Fetch),
        _ => (Phase::Stopped, Action::Stop),
    }
}

/// The polling loop's schedule.
#[derive(Debug, Clone, Copy, PartialEq, Eq)]
pub struct PollLoop {
    pub phase: Phase,
}

impl PollLoop {
    /// A loop that has not started.
    pub fn new() -> (machine: PollLoop)
        ensures
            machine.phase == Phase::Idle,
    {
        PollLoop { phase: Phase::Idle }
    }

    /// Takes note of an event and says what to do next.
    pub fn step(&mut self, event: Event) -> (action: Action)
        ensures
            (final(self).phase, action) == next(old(self).phase, event),
    {
        let (phase, action) = match (self.phase, event) {
            (Phase::Idle, Event::Started) => (Phase::Fetching, Action::Fetch),
            (Phase::Fetching, Event::CycleDone(elapsed)) => if elapsed >= BUDGET {
                (Phase::Stopped, Action::Stop)
            } else {
                (Phase::Sleeping, Action::Sleep(INTERVAL))
            },
            (Phase::Sleeping, Event::Woke) => (Phase::Fetching, Action::Fetch),
            _ => (Phase::Stopped, Action::Stop),
        };
        self.phase = phase;
        action
    }
}

/// The phase of a loop that was told the first `n` of `events`.
pub open spec fn phase_at(events: Seq<Event>, n: int) -> Phase
    decreases n,
{
    if n <= 0 {
        Phase::Idle
    } else {
        next(phase_at(events, n - 1), events[n - 1]).0
    }
}

/// The action that a loop takes on `events[n]`, having been told all the
/// events before it.
pub open spec fn action_at(events: Seq<Event>, n: int) -> Action {
    next(phase_at(events, n), events[n]).1
}

/// In any run, a cycle is under way exactly after a fetch, and the loop
/// sleeps exactly after an action of sleep.
pub proof fn phase_follows_action(events: Seq<Event>, n: int)
    requires
        0 <= n < events.len(),
    ensures
        phase_at(events, n + 1) == Phase::Fetching <==> action_at(events, n) == Action::Fetch,
        phase_at(events, n + 1) == Phase::Sleeping <==> action_at(events, n) is Sleep,
        phase_at(events, n + 1) == Phase::Stopped <==> action_at(events, n) == Action::Stop,
        phase_at(events, n + 1) != Phase::Idle,
{
}

/// One fetch for each interval: in any run every sleep lasts one interval,
/// every sleep comes straight after a fetch, and every fetch but the one at
/// the start comes straight after a sleep.
pub proof fn one_fetch_per_interval(events: Seq<Event>, n: int)
    requires
        0 <= n < events.len(),
    ensures
        action_at(events, n) matches Action::Sleep(secs) ==> secs == INTERVAL,
        action_at(events, n) is Sleep ==> n > 0 && action_at(events, n - 1) == Action::Fetch,
        action_at(events, n) == Action::Fetch && n > 0 ==> action_at(events, n - 1)
            == Action::Sleep(INTERVAL),
{
    if n > 0 {
        phase_follows_action(events, n - 1);
    }
}

/// The cycle that completes at or past the budget is the last: the loop
/// answers with a stop, and with nothing but a stop from then on, so no
/// further fetch is made.
pub proof fn budget_ends_loop(events: Seq<Event>, n: int, elapsed: u64, later: int)
    requires
        0 <= n <= later < events.len(),
        events[n] == Event::CycleDone(elapsed),
        elapsed >= BUDGET,
    ensures
        action_at(events, n) == Action::Stop,
        action_at(events, later) == Action::Stop,
{
    stop_is_final(events, n, later);
}

/// A cycle that completes before the budget is spent is followed by a sleep
/// of one interval.
pub proof fn loop_goes_on_within_budget(events: Seq<Event>, n: int, elapsed: u64)
    requires
        0 <= n < events.len(),
        phase_at(events, n) == Phase::Fetching,
        events[n] == Event::CycleDone(elapsed),
        elapsed < BUDGET,
    ensures
        action_at(events, n) == Action::Sleep(INTERVAL),
{
}

/// Once the loop has stopped, it does nothing but stop.
pub proof fn stop_is_final(events: Seq<Event>, n: int, later: int)
    requires
        0 <= n <= later < events.len(),
        action_at(events, n) == Action::Stop,
    ensures
        action_at(events, later) == Action::Stop,
    decreases later - n,
{
    if n < later {
        stop_is_final(events, n, later - 1);
        phase_follows_action(events, later - 1);
    }
}

/// No cycle starts after the budget, for a cycle that does not complete
/// within the last interval before it: if the loop goes on after a cycle
/// that completed at `elapsed`, the sleep that follows ends within the
/// budget.
pub proof fn no_start_past_budget(events: Seq<Event>, n: int, elapsed: u64)
    requires
        0 <= n < events.len(),
        events[n] == Event::CycleDone(elapsed),
        !(BUDGET - INTERVAL < elapsed < BUDGET),
        action_at(events, n) is Sleep,
    ensures
        elapsed + INTERVAL <= BUDGET,
{
}

} // verus!
