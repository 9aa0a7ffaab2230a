//! The autoclick engine: a state machine from commands and elapsed
//! intervals to emitted clicks.
//!
//! The engine is either idle or clicking at a configured interval. Each
//! cycle of its loop first attempts one click if it is clicking, then waits
//! for the next command for up to the current interval (a fixed short poll
//! interval while idle). The decision logic — which state follows which
//! command, when a click is due, how long to wait — lives here, verified;
//! the loop that blocks on the command channel and touches the device only
//! executes these decisions.
//!
//! The trace semantics `run_trace` replays a whole sequence of wait
//! outcomes and counts the clicks the loop would attempt, which is how the
//! rate, idempotence and responsiveness laws below are stated and proved.

use vstd::prelude::*;

verus! {

/// The wait used while idle, in milliseconds: a fixed modest poll interval,
/// so that re-enabling stays responsive without busy-waiting.
pub const IDLE_POLL_MILLIS: u64 = 50;

/// A command from the presentation layer. Intervals are in milliseconds;
/// the sender validates them, the engine treats them as authoritative.
#[derive(Clone, Copy, Debug, PartialEq, Eq, Structural)]
pub enum Command {
    /// Start clicking, one click per the given interval.
    EnableAutoclick(u64),
    /// Stop clicking.
    DisableAutoclick,
    /// Liveness probe: acknowledged, no further effect.
    Ping,
}

/// The engine state: idle, or clicking at an interval in milliseconds.
#[derive(Clone, Copy, Debug, PartialEq, Eq, Structural)]
pub enum EngineState {
    /// Not clicking.
    Idle,
    /// Clicking once per the carried interval.
    Clicking(u64),
}

/// What one bounded wait for a command produced.
#[derive(Clone, Copy, Debug, PartialEq, Eq, Structural)]
pub enum WaitOutcome {
    /// A command arrived before the wait elapsed.
    Received(Command),
    /// The wait elapsed with no command.
    TimedOut,
    /// Every sender is gone: no command can ever arrive again.
    Disconnected,
}

/// The state transition for one command: enabling moves to clicking at the
/// given interval (replacing any current one), disabling moves to idle from
/// any state, and a ping changes nothing.
pub open spec fn apply_command_spec(s: EngineState, c: Command) -> EngineState {
    match c {
        Command::EnableAutoclick(interval) => EngineState::Clicking(interval),
        Command::DisableAutoclick => EngineState::Idle,
        Command::Ping => s,
    }
}

/// Applies one command to the engine state.
pub fn apply_command(s: EngineState, c: Command) -> (r: EngineState)
    ensures
        r == apply_command_spec(s, c),
{
    match c {
        Command::EnableAutoclick(interval) => EngineState::Clicking(interval),
        Command::DisableAutoclick => EngineState::Idle,
        Command::Ping => s,
    }
}

/// The state after one wait outcome: a received command is applied, an
/// elapsed wait and a disconnect leave the state unchanged (a disconnect
/// ends the loop instead).
pub open spec fn outcome_next(s: EngineState, o: WaitOutcome) -> EngineState {
    match o {
        WaitOutcome::Received(c) => apply_command_spec(s, c),
        WaitOutcome::TimedOut => s,
        WaitOutcome::Disconnected => s,
    }
}

/// Applies one wait outcome; the second result is whether the loop is done
/// (true exactly on a disconnect).
pub fn apply_outcome(s: EngineState, o: &WaitOutcome) -> (r: (EngineState, bool))
    ensures
        r.0 == outcome_next(s, *o),
        r.1 == (*o is Disconnected),
{
    match o {
        WaitOutcome::Received(c) => (apply_command(s, *c), false),
        WaitOutcome::TimedOut => (s, false),
        WaitOutcome::Disconnected => (s, true),
    }
}

/// Whether a cycle beginning in this state attempts one click before it
/// waits: exactly the clicking states.
pub fn should_click(s: &EngineState) -> (r: bool)
    ensures
        r == (*s is Clicking),
{
    match s {
        EngineState::Idle => false,
        EngineState::Clicking(_) => true,
    }
}

/// How long one cycle waits for the next command, in milliseconds: the
/// current interval while clicking, the fixed poll interval while idle.
/// This bounds the latency of reacting to a command to roughly one
/// interval.
pub fn wait_millis(s: &EngineState) -> (r: u64)
    ensures
        (*s matches EngineState::Clicking(interval) ==> r == interval),
        (*s is Idle ==> r == IDLE_POLL_MILLIS),
{
    match s {
        EngineState::Idle => IDLE_POLL_MILLIS,
        EngineState::Clicking(interval) => *interval,
    }
}

/// The clicks one cycle beginning in this state attempts: one while
/// clicking, none while idle.
pub open spec fn cycle_clicks(s: EngineState) -> nat {
    if s is Clicking {
        1nat
    } else {
        0nat
    }
}

/// Replays the engine loop over a sequence of wait outcomes, from a given
/// state: each cycle first attempts a click if the state is clicking, then
/// takes the next outcome. The result is the final state, the number of
/// clicks attempted, and whether the loop observed a disconnect (it then
/// stops, ignoring anything after).
pub open spec fn run_spec(s: EngineState, outs: Seq<WaitOutcome>) -> (EngineState, nat, bool)
    decreases outs.len(),
{
    if outs.len() == 0 {
        (s, 0nat, false)
    } else if outs[0] is Disconnected {
        (s, cycle_clicks(s), true)
    } else {
        let rest = run_spec(outcome_next(s, outs[0]), outs.drop_first());
        (rest.0, cycle_clicks(s) + rest.1, rest.2)
    }
}

/// One unrolling of `run_spec`: a nonempty trace either stops on an
/// immediate disconnect, or contributes this cycle's click and continues
/// from the next state.
pub proof fn lemma_run_step(s: EngineState, outs: Seq<WaitOutcome>)
    requires
        outs.len() > 0,
    ensures
        outs[0] is Disconnected ==> run_spec(s, outs) == (s, cycle_clicks(s), true),
        !(outs[0] is Disconnected) ==> {
            &&& run_spec(s, outs).0 == run_spec(outcome_next(s, outs[0]), outs.drop_first()).0
            &&& run_spec(s, outs).1 == cycle_clicks(s) + run_spec(
                outcome_next(s, outs[0]),
                outs.drop_first(),
            ).1
            &&& run_spec(s, outs).2 == run_spec(outcome_next(s, outs[0]), outs.drop_first()).2
        },
{
}

/// Replays the engine loop over a whole trace of wait outcomes. Returns
/// the final state, the number of clicks attempted, and whether a
/// disconnect was observed.
pub fn run_trace(start: EngineState, outs: &Vec<WaitOutcome>) -> (r: (EngineState, usize, bool))
    ensures
        r.0 == run_spec(start, outs@).0,
        r.1 == run_spec(start, outs@).1,
        r.2 == run_spec(start, outs@).2,
{
    let mut s = start;
    let mut clicks: usize = 0;
    let mut done: bool = false;
    let mut i: usize = 0;
    proof {
        assert(outs@.skip(0) =~= outs@);
    }
    while i < outs.len() && !done
        invariant
            i <= outs@.len(),
            clicks <= i,
            !done ==> {
                &&& run_spec(start, outs@).0 == run_spec(s, outs@.skip(i as int)).0
                &&& run_spec(start, outs@).1 == clicks + run_spec(s, outs@.skip(i as int)).1
                &&& run_spec(start, outs@).2 == run_spec(s, outs@.skip(i as int)).2
            },
            done ==> {
                &&& run_spec(start, outs@).0 == s
                &&& run_spec(start, outs@).1 == clicks
                &&& run_spec(start, outs@).2 == true
            },
        decreases outs@.len() - i,
    {
        proof {
            assert(outs@.skip(i as int).len() > 0);
            assert(outs@.skip(i as int)[0] == outs@[i as int]);
            assert(outs@.skip(i as int).drop_first() =~= outs@.skip(i as int + 1));
            lemma_run_step(s, outs@.skip(i as int));
        }
        if should_click(&s) {
            clicks = clicks + 1;
        }
        let (next, stop) = apply_outcome(s, &outs[i]);
        s = next;
        done = stop;
        i = i + 1;
    }
    proof {
        if !done {
            assert(outs@.skip(i as int) =~= Seq::<WaitOutcome>::empty());
        }
    }
    (s, clicks, done)
}

/// From idle, only an enable command moves the engine to clicking; from
/// clicking, a disable command always returns it to idle; a ping never
/// changes the state.
pub proof fn lemma_transition_table(s: EngineState, c: Command)
    ensures
        (apply_command_spec(EngineState::Idle, c) is Clicking) <==> (c is EnableAutoclick),
        (c matches Command::EnableAutoclick(interval) ==> apply_command_spec(s, c)
            == EngineState::Clicking(interval)),
        c is DisableAutoclick ==> apply_command_spec(s, c) == EngineState::Idle,
        c is Ping ==> apply_command_spec(s, c) == s,
{
}

/// Disabling while already idle is a no-op: the state and the click count
/// of the whole remaining run are exactly what they would have been without
/// the command.
pub proof fn lemma_disable_while_idle_is_noop(rest: Seq<WaitOutcome>)
    ensures
        run_spec(
            EngineState::Idle,
            seq![WaitOutcome::Received(Command::DisableAutoclick)] + rest,
        ).0 == run_spec(EngineState::Idle, rest).0,
        run_spec(
            EngineState::Idle,
            seq![WaitOutcome::Received(Command::DisableAutoclick)] + rest,
        ).1 == run_spec(EngineState::Idle, rest).1,
        run_spec(
            EngineState::Idle,
            seq![WaitOutcome::Received(Command::DisableAutoclick)] + rest,
        ).2 == run_spec(EngineState::Idle, rest).2,
{
    let outs = seq![WaitOutcome::Received(Command::DisableAutoclick)] + rest;
    assert(outs[0] == WaitOutcome::Received(Command::DisableAutoclick));
    assert(outs.drop_first() =~= rest);
    lemma_run_step(EngineState::Idle, outs);
}

/// While continuously clicking at some interval with no further commands,
/// the engine attempts exactly one click per elapsed interval: a run of `n`
/// elapsed waits attempts `n` clicks and leaves the state unchanged.
pub proof fn lemma_click_rate(interval: u64, n: nat)
    ensures
        run_spec(EngineState::Clicking(interval), Seq::new(n, |i: int| WaitOutcome::TimedOut)).0
            == EngineState::Clicking(interval),
        run_spec(EngineState::Clicking(interval), Seq::new(n, |i: int| WaitOutcome::TimedOut)).1
            == n,
        run_spec(EngineState::Clicking(interval), Seq::new(n, |i: int| WaitOutcome::TimedOut)).2
            == false,
    decreases n,
{
    let outs = Seq::new(n, |i: int| WaitOutcome::TimedOut);
    if n > 0 {
        assert(outs[0] == WaitOutcome::TimedOut);
        assert(outs.drop_first() =~= Seq::new((n - 1) as nat, |i: int| WaitOutcome::TimedOut));
        lemma_click_rate(interval, (n - 1) as nat);
        lemma_run_step(EngineState::Clicking(interval), outs);
    }
}

/// Enabling and then immediately disabling, before any interval elapses,
/// attempts at most one click and ends idle.
pub proof fn lemma_enable_then_disable(interval: u64)
    ensures
        run_spec(
            EngineState::Idle,
            seq![
                WaitOutcome::Received(Command::EnableAutoclick(interval)),
                WaitOutcome::Received(Command::DisableAutoclick),
            ],
        ).1 <= 1,
        run_spec(
            EngineState::Idle,
            seq![
                WaitOutcome::Received(Command::EnableAutoclick(interval)),
                WaitOutcome::Received(Command::DisableAutoclick),
            ],
        ).0 == EngineState::Idle,
{
    let outs = seq![
        WaitOutcome::Received(Command::EnableAutoclick(interval)),
        WaitOutcome::Received(Command::DisableAutoclick),
    ];
    let tail = seq![WaitOutcome::Received(Command::DisableAutoclick)];
    assert(outs.drop_first() =~= tail);
    assert(tail.drop_first() =~= Seq::<WaitOutcome>::empty());
    lemma_run_step(EngineState::Clicking(interval), tail);
    lemma_run_step(EngineState::Idle, outs);
}

/// A disconnect ends the run in the cycle that observes it: the last cycle
/// still attempts its click if the engine was clicking, nothing after the
/// disconnect is taken, and teardown is what follows.
pub proof fn lemma_disconnect_stops(s: EngineState, later: Seq<WaitOutcome>)
    ensures
        run_spec(s, seq![WaitOutcome::Disconnected] + later).0 == s,
        run_spec(s, seq![WaitOutcome::Disconnected] + later).1 == cycle_clicks(s),
        run_spec(s, seq![WaitOutcome::Disconnected] + later).2 == true,
{
    let outs = seq![WaitOutcome::Disconnected] + later;
    assert(outs[0] == WaitOutcome::Disconnected);
    lemma_run_step(s, outs);
}

} // verus!
