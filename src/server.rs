//! The decisions of the accept loop: when to accept, dispatch, idle or stop.
//! The loop itself, with its socket, sleeps and handler threads, runs
//! outside; it reports what happened and performs the action returned.
use vstd::prelude::*;

verus! {

/// How long the loop sleeps when no connection is pending.
pub const IDLE_POLL_MILLIS: u64 = 50;

/// The read timeout a connection handler applies, in seconds.
pub const HANDLER_READ_TIMEOUT_SECS: u64 = 10;

/// Why the loop stopped.
#[derive(Clone, Copy, Debug, PartialEq, Eq, Structural)]
pub enum StopReason {
    Cancelled,
    SingleShotDone,
    AcceptFailed,
}

/// Where the loop stands: about to check for cancellation, cleared to
/// accept, or stopped for good.
#[derive(Clone, Copy, Debug, PartialEq, Eq, Structural)]
pub enum Phase {
    Polling,
    Accepting,
    Stopped(StopReason),
}

/// What one attempt to accept gave.
#[derive(Clone, Copy, Debug, PartialEq, Eq, Structural)]
pub enum AcceptOutcome {
    Accepted,
    WouldBlock,
    Failed,
}

/// What the loop is to do next.
#[derive(Clone, Copy, Debug, PartialEq, Eq, Structural)]
pub enum LoopAction {
    /// Try to accept one connection, without blocking.
    Accept,
    /// Hand the accepted connection to a new handler; stop after that when
    /// `then_stop` holds.
    Dispatch { then_stop: bool },
    /// Sleep this many milliseconds, then check for cancellation again.
    Sleep(u64),
    /// Leave the loop and release the listening socket.
    Stop(StopReason),
}

/// The state of the loop as a mathematical value.
pub ghost struct LoopModel {
    pub single_shot: bool,
    pub phase: Phase,
    pub dispatched: nat,
}

/// One iteration as the loop sees it: whether cancellation was signalled,
/// and what the accept attempt would give.
pub ghost struct Tick {
    pub cancelled: bool,
    pub outcome: AcceptOutcome,
}

/// The state after the cancellation check.
pub open spec fn after_check(m: LoopModel, cancelled: bool) -> LoopModel {
    match m.phase {
        Phase::Polling => if cancelled {
            LoopModel { phase: Phase::Stopped(StopReason::Cancelled), ..m }
        } else {
            LoopModel { phase: Phase::Accepting, ..m }
        },
        _ => m,
    }
}

/// The action the cancellation check calls for.
pub open spec fn check_action(m: LoopModel, cancelled: bool) -> LoopAction {
    match after_check(m, cancelled).phase {
        Phase::Stopped(reason) => LoopAction::Stop(reason),
        _ => LoopAction::Accept,
    }
}

/// The state after an accept attempt.
pub open spec fn after_accept(m: LoopModel, outcome: AcceptOutcome) -> LoopModel {
    match outcome {
        AcceptOutcome::Accepted => LoopModel {
            phase: if m.single_shot {
                Phase::Stopped(StopReason::SingleShotDone)
            } else {
                Phase::Polling
            },
            dispatched: m.dispatched + 1,
            ..m
        },
        AcceptOutcome::WouldBlock => LoopModel { phase: Phase::Polling, ..m },
        AcceptOutcome::Failed => LoopModel { phase: Phase::Stopped(StopReason::AcceptFailed), ..m },
    }
}

/// The action an accept attempt calls for.
pub open spec fn accept_action(m: LoopModel, outcome: AcceptOutcome) -> LoopAction {
    match outcome {
        AcceptOutcome::Accepted => LoopAction::Dispatch { then_stop: m.single_shot },
        AcceptOutcome::WouldBlock => LoopAction::Sleep(IDLE_POLL_MILLIS),
        AcceptOutcome::Failed => LoopAction::Stop(StopReason::AcceptFailed),
    }
}

/// One iteration: the cancellation check, then an accept attempt if the
/// check cleared one.
pub open spec fn tick(m: LoopModel, t: Tick) -> LoopModel {
    let checked = after_check(m, t.cancelled);
    if checked.phase is Accepting {
        after_accept(checked, t.outcome)
    } else {
        checked
    }
}

/// The state after a sequence of iterations.
pub open spec fn run(m: LoopModel, ticks: Seq<Tick>) -> LoopModel
    decreases ticks.len(),
{
    if ticks.len() == 0 {
        m
    } else {
        run(tick(m, ticks[0]), ticks.drop_first())
    }
}

/// The state of one server's accept loop.
pub struct ServerLoop {
    pub single_shot: bool,
    pub phase: Phase,
    pub dispatched: Ghost<nat>,
}

impl View for ServerLoop {
    type V = LoopModel;

    open spec fn view(&self) -> LoopModel {
        LoopModel { single_shot: self.single_shot, phase: self.phase, dispatched: self.dispatched@ }
    }
}

impl ServerLoop {
    /// A loop that has dispatched nothing and is about to check for
    /// cancellation.
    pub fn new(single_shot: bool) -> (r: ServerLoop)
        ensures
            r@ == (LoopModel { single_shot, phase: Phase::Polling, dispatched: 0 }),
    {
        ServerLoop { single_shot, phase: Phase::Polling, dispatched: Ghost(0) }
    }

    /// Takes in whether cancellation has been signalled; a loop that is
    /// polling stops on it, and is otherwise cleared to accept.
    pub fn check_cancel(&mut self, cancelled: bool) -> (r: LoopAction)
        ensures
            final(self)@ == after_check(old(self)@, cancelled),
            r == check_action(old(self)@, cancelled),
    {
        if let Phase::Polling = self.phase {
            if cancelled {
                self.phase = Phase::Stopped(StopReason::Cancelled);
            } else {
                self.phase = Phase::Accepting;
            }
        }
        match self.phase {
            Phase::Stopped(reason) => LoopAction::Stop(reason),
            _ => LoopAction::Accept,
        }
    }

    /// Takes in what the accept attempt gave: a connection is dispatched
    /// (and ends a single-shot loop), an idle socket means a short sleep
    /// before the next check, and any other failure stops the loop.
    pub fn on_accept(&mut self, outcome: AcceptOutcome) -> (r: LoopAction)
        requires
            old(self).phase == Phase::Accepting,
        ensures
            final(self)@ == after_accept(old(self)@, outcome),
            r == accept_action(old(self)@, outcome),
    {
        match outcome {
            AcceptOutcome::Accepted => {
                self.dispatched = Ghost(self.dispatched@ + 1);
                if self.single_shot {
                    self.phase = Phase::Stopped(StopReason::SingleShotDone);
                } else {
                    self.phase = Phase::Polling;
                }
                LoopAction::Dispatch { then_stop: self.single_shot }
            },
            AcceptOutcome::WouldBlock => {
                self.phase = Phase::Polling;
                LoopAction::Sleep(IDLE_POLL_MILLIS)
            },
            AcceptOutcome::Failed => {
                self.phase = Phase::Stopped(StopReason::AcceptFailed);
                LoopAction::Stop(StopReason::AcceptFailed)
            },
        }
    }

    /// Whether the loop has stopped.
    pub fn is_stopped(&self) -> (r: bool)
        ensures
            r == (self.phase is Stopped),
    {
        match self.phase {
            Phase::Stopped(_) => true,
            _ => false,
        }
    }
}

/// A stopped loop stays stopped, whatever happens afterwards.
pub proof fn lemma_stopped_is_final(m: LoopModel, ticks: Seq<Tick>)
    requires
        m.phase is Stopped,
    ensures
        run(m, ticks) == m,
    decreases ticks.len(),
{
    if ticks.len() > 0 {
        lemma_stopped_is_final(tick(m, ticks[0]), ticks.drop_first());
    }
}

/// A single-shot loop dispatches at most one connection, and it stops as
/// soon as it has dispatched one, without accepting a second.
pub proof fn lemma_single_shot_dispatches_once(m: LoopModel, ticks: Seq<Tick>)
    requires
        m.single_shot,
        m.dispatched == 0,
        m.phase is Polling,
    ensures
        run(m, ticks).dispatched <= 1,
        run(m, ticks).dispatched == 1 ==> run(m, ticks).phase == Phase::Stopped(
            StopReason::SingleShotDone,
        ),
    decreases ticks.len(),
{
    if ticks.len() > 0 {
        let next = tick(m, ticks[0]);
        if next.phase is Stopped {
            lemma_stopped_is_final(next, ticks.drop_first());
        } else {
            lemma_single_shot_dispatches_once(next, ticks.drop_first());
        }
    }
}

/// A loop that is not single-shot stops only on cancellation or on a
/// failed accept, never on its own after serving connections.
pub proof fn lemma_serving_loop_stop_reasons(m: LoopModel, ticks: Seq<Tick>)
    requires
        !m.single_shot,
        m.phase is Polling,
    ensures
        run(m, ticks).phase != Phase::Stopped(StopReason::SingleShotDone),
    decreases ticks.len(),
{
    if ticks.len() > 0 {
        let next = tick(m, ticks[0]);
        if next.phase is Stopped {
            lemma_stopped_is_final(next, ticks.drop_first());
        } else {
            lemma_serving_loop_stop_reasons(next, ticks.drop_first());
        }
    }
}

/// A cancellation signalled while the loop polls stops it at that very
/// check, with no connection needed and none dispatched.
pub proof fn lemma_cancel_stops(m: LoopModel, ticks: Seq<Tick>)
    requires
        m.phase is Polling,
        ticks.len() > 0,
        ticks[0].cancelled,
    ensures
        run(m, ticks) == (LoopModel { phase: Phase::Stopped(StopReason::Cancelled), ..m }),
{
    lemma_stopped_is_final(tick(m, ticks[0]), ticks.drop_first());
}

/// An idle loop sleeps one poll interval and then checks for cancellation
/// again: a cancellation signalled while idle ends the loop after at most
/// one sleep of `IDLE_POLL_MILLIS`.
pub proof fn lemma_idle_then_cancel(m: LoopModel, ticks: Seq<Tick>)
    requires
        m.phase is Polling,
        ticks.len() == 2,
        !ticks[0].cancelled,
        ticks[0].outcome == AcceptOutcome::WouldBlock,
        ticks[1].cancelled,
    ensures
        accept_action(after_check(m, false), AcceptOutcome::WouldBlock) == LoopAction::Sleep(
            IDLE_POLL_MILLIS,
        ),
        tick(m, ticks[0]) == m,
        run(m, ticks) == (LoopModel { phase: Phase::Stopped(StopReason::Cancelled), ..m }),
{
    assert(ticks.drop_first().len() == 1);
    assert(ticks.drop_first()[0] == ticks[1]);
    lemma_cancel_stops(m, ticks.drop_first());
}

} // verus!
