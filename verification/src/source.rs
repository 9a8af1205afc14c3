//! The supervisor that owns one `Input` and drives its open → read
//! lifecycle, restarting it with a fixed backoff on any failure —
//! forever, by design: a daemon must not give up on a flaky feed.
//!
//! The supervisor here is the decision core: a state machine from
//! (state, event) to (state, action). The embedding program runs the
//! loop on its thread: it performs each returned action — calling
//! `open`, calling `read`, sleeping out a backoff — and reports how
//! the action went as the next event. A stop request is observed at
//! `start` and at every step, so stopping is load-bearing.

use crate::error::Error;
use crate::input::Input;
use vstd::prelude::*;

verus! {

/// Delay between consecutive `read` calls, in seconds.
pub const READ_DELAY_SECS: u64 = 1;

/// Backoff between a failure and the next `open` attempt, in seconds.
pub const BACKOFF_SECS: u64 = 3;

/// Where the supervised lifecycle stands.
#[derive(Clone, Copy, PartialEq, Eq, Structural, Debug)]
pub enum SourceState {
    /// Constructed, not started.
    Idle,
    /// An `open` attempt is owed or under way.
    Opening,
    /// Opened; `read` calls are under way.
    Reading,
    /// A failure was seen; the backoff is running.
    Failed,
}

/// How the last action went, reported by the embedding program.
#[derive(Clone, Copy, PartialEq, Eq, Structural, Debug)]
pub enum SourceEvent {
    OpenOk,
    OpenErr,
    ReadOk,
    ReadErr,
    BackoffElapsed,
}

/// What the embedding program must do next.
#[derive(Clone, Copy, PartialEq, Eq, Structural, Debug)]
pub enum SourceAction {
    /// Call `open` on the input and report `OpenOk` or `OpenErr`.
    DoOpen,
    /// Call `read` on the input, wait `READ_DELAY_SECS`, and report
    /// `ReadOk` or `ReadErr`.
    DoRead,
    /// Sleep `BACKOFF_SECS`, then report `BackoffElapsed`.
    DoBackoff,
    /// Leave the supervision loop.
    Exit,
}

/// The whole retry policy in one function: a success while opening or
/// reading keeps reading; any failure backs off and then reopens from
/// scratch; a stop request ends the loop whatever the state; an event
/// that its state cannot produce ends the loop defensively.
pub open spec fn spec_step(state: SourceState, stop: bool, event: SourceEvent) -> (
    SourceState,
    SourceAction,
) {
    if stop {
        (state, SourceAction::Exit)
    } else {
        match (state, event) {
            (SourceState::Opening, SourceEvent::OpenOk) => (
                SourceState::Reading,
                SourceAction::DoRead,
            ),
            (SourceState::Opening, SourceEvent::OpenErr) => (
                SourceState::Failed,
                SourceAction::DoBackoff,
            ),
            (SourceState::Reading, SourceEvent::ReadOk) => (
                SourceState::Reading,
                SourceAction::DoRead,
            ),
            (SourceState::Reading, SourceEvent::ReadErr) => (
                SourceState::Failed,
                SourceAction::DoBackoff,
            ),
            (SourceState::Failed, SourceEvent::BackoffElapsed) => (
                SourceState::Opening,
                SourceAction::DoOpen,
            ),
            _ => (state, SourceAction::Exit),
        }
    }
}

/// The supervisor: exactly one input, owned under exclusive access,
/// and the lifecycle state around it.
pub struct Source<I> {
    input: I,
    state: SourceState,
    stop_requested: bool,
}

impl<I: Input> Source<I> {
    pub closed spec fn spec_input(&self) -> I {
        self.input
    }

    pub closed spec fn spec_state(&self) -> SourceState {
        self.state
    }

    pub closed spec fn spec_stop_requested(&self) -> bool {
        self.stop_requested
    }

    pub open spec fn inv(&self) -> bool {
        self.spec_input().inv()
    }

    pub fn new(input: I) -> (r: Source<I>)
        requires
            input.inv(),
        ensures
            r.inv(),
            r.spec_input() == input,
            r.spec_state() == SourceState::Idle,
            !r.spec_stop_requested(),
    {
        Source { input, state: SourceState::Idle, stop_requested: false }
    }

    /// Start supervision: the first `open` becomes owed. A stop
    /// request that preceded the start wins.
    pub fn start(&mut self) -> (a: SourceAction)
        requires
            old(self).inv(),
            old(self).spec_state() == SourceState::Idle,
        ensures
            final(self).inv(),
            final(self).spec_input() == old(self).spec_input(),
            final(self).spec_stop_requested() == old(self).spec_stop_requested(),
            if old(self).spec_stop_requested() {
                final(self).spec_state() == SourceState::Idle && a == SourceAction::Exit
            } else {
                final(self).spec_state() == SourceState::Opening && a == SourceAction::DoOpen
            },
    {
        if self.stop_requested {
            SourceAction::Exit
        } else {
            self.state = SourceState::Opening;
            SourceAction::DoOpen
        }
    }

    /// One turn of the supervision loop.
    pub fn step(&mut self, event: SourceEvent) -> (a: SourceAction)
        requires
            old(self).inv(),
        ensures
            final(self).inv(),
            final(self).spec_input() == old(self).spec_input(),
            final(self).spec_stop_requested() == old(self).spec_stop_requested(),
            (final(self).spec_state(), a) == spec_step(
                old(self).spec_state(),
                old(self).spec_stop_requested(),
                event,
            ),
    {
        if self.stop_requested {
            return SourceAction::Exit;
        }
        match (self.state, event) {
            (SourceState::Opening, SourceEvent::OpenOk) => {
                self.state = SourceState::Reading;
                SourceAction::DoRead
            },
            (SourceState::Opening, SourceEvent::OpenErr) => {
                self.state = SourceState::Failed;
                SourceAction::DoBackoff
            },
            (SourceState::Reading, SourceEvent::ReadOk) => {
                self.state = SourceState::Reading;
                SourceAction::DoRead
            },
            (SourceState::Reading, SourceEvent::ReadErr) => {
                self.state = SourceState::Failed;
                SourceAction::DoBackoff
            },
            (SourceState::Failed, SourceEvent::BackoffElapsed) => {
                self.state = SourceState::Opening;
                SourceAction::DoOpen
            },
            _ => SourceAction::Exit,
        }
    }

    /// Request a graceful shutdown: every later `start` or `step`
    /// returns `Exit`.
    pub fn stop(&mut self) -> (r: Result<(), Error>)
        requires
            old(self).inv(),
        ensures
            final(self).inv(),
            final(self).spec_input() == old(self).spec_input(),
            final(self).spec_state() == old(self).spec_state(),
            final(self).spec_stop_requested(),
            r is Ok,
    {
        self.stop_requested = true;
        Ok(())
    }

    /// The owned input, for performing the decided actions on it.
    pub fn input_mut(&mut self) -> (r: &mut I)
        ensures
            *r == old(self).spec_input(),
            final(self).spec_input() == *final(r),
            final(self).spec_state() == old(self).spec_state(),
            final(self).spec_stop_requested() == old(self).spec_stop_requested(),
    {
        &mut self.input
    }

    pub fn state(&self) -> (r: SourceState)
        ensures
            r == self.spec_state(),
    {
        self.state
    }

    /// Whether a shutdown was requested: what a blocking wait polls
    /// so that `stop` can interrupt it.
    pub fn is_stop_requested(&self) -> (r: bool)
        ensures
            r == self.spec_stop_requested(),
    {
        self.stop_requested
    }
}

/// The events a permanently failing input produces, cycle after
/// cycle: the owed `open` fails, then the backoff elapses.
pub open spec fn failing_open_trace(n: nat) -> Seq<SourceEvent>
    decreases n,
{
    if n == 0 {
        Seq::empty()
    } else {
        seq![SourceEvent::OpenErr, SourceEvent::BackoffElapsed] + failing_open_trace((n - 1) as nat)
    }
}

/// The supervisor's run over a sequence of events: the final state and
/// every action taken, in order.
pub open spec fn run_steps(state: SourceState, stop: bool, events: Seq<SourceEvent>) -> (
    SourceState,
    Seq<SourceAction>,
)
    decreases events.len(),
{
    if events.len() == 0 {
        (state, Seq::empty())
    } else {
        let (s1, a) = spec_step(state, stop, events[0]);
        let (sf, rest) = run_steps(s1, stop, events.subrange(1, events.len() as int));
        (sf, seq![a] + rest)
    }
}

/// Supervisor retry: with no stop requested, an input whose `open`
/// always fails drives the supervisor through any number of cycles —
/// after `n` failed attempts it is opening again, having emitted
/// exactly `2 n` actions: a backoff at every even position and a fresh
/// `open` right after it at every odd position. Every reopen is thus
/// separated from the failure before it by one full backoff.
pub proof fn lemma_supervisor_retry(n: nat)
    ensures
        run_steps(SourceState::Opening, false, failing_open_trace(n)).0 == SourceState::Opening,
        run_steps(SourceState::Opening, false, failing_open_trace(n)).1.len() == 2 * n,
        forall|i: int|
            0 <= i < 2 * n ==> run_steps(SourceState::Opening, false, failing_open_trace(n)).1[i]
                == (if i % 2 == 0 {
                SourceAction::DoBackoff
            } else {
                SourceAction::DoOpen
            }),
    decreases n,
{
    if n > 0 {
        let t = failing_open_trace(n);
        let t1 = t.subrange(1, t.len() as int);
        let t2 = t1.subrange(1, t1.len() as int);
        lemma_supervisor_retry((n - 1) as nat);
        assert(t2 =~= failing_open_trace((n - 1) as nat));
        let (sf, rest) = run_steps(SourceState::Opening, false, t2);
        assert(run_steps(SourceState::Failed, false, t1).1 =~= seq![SourceAction::DoOpen] + rest);
        assert(run_steps(SourceState::Opening, false, t).1 =~= seq![SourceAction::DoBackoff, SourceAction::DoOpen] + rest);
        assert forall|i: int| 0 <= i < 2 * n implies run_steps(
            SourceState::Opening,
            false,
            t,
        ).1[i] == (if i % 2 == 0 {
            SourceAction::DoBackoff
        } else {
            SourceAction::DoOpen
        }) by {
            if i >= 2 {
                assert(run_steps(SourceState::Opening, false, t).1[i] == rest[i - 2]);
                assert((i - 2) % 2 == i % 2);
            }
        }
    }
}

} // verus!
