//! Session-lifetime state and the supervisor's per-tick decision: announce a
//! full buffer, launch one fragment task, terminate the session once too
//! many consecutive errors have piled up, and otherwise advance the active
//! fragment index.

use vstd::prelude::*;
use crate::pipeline::StepEffects;

verus! {

/// Good fragments that make the stream safely consumable downstream.
pub const BUFFER_SIZE_IN_FRAGMENTS: i32 = 50;

/// Consecutive errors that force the session to be abandoned.
pub const MAX_CONSECUTIVE_ERRORS: i32 = 5;

/// One mutation of the shared session state: a supervisor tick, or one
/// fragment task's step effects landing in the counters. Within a session
/// the shared state sees an arbitrary interleaving of these.
pub enum SessionOp {
    Tick,
    Land { effects: StepEffects },
}

/// The state of one session, shared by the supervisor and every fragment
/// task the session has launched.
#[derive(Clone, Copy, Debug, PartialEq, Eq, Structural)]
pub struct SessionState {
    /// Index of the fragment the next tick will launch a task for; advances
    /// by one per tick for as long as the session lives.
    pub active_fragment: i32,
    /// Fragments whose delta payload was stored, over the whole session.
    pub good_fragments_loaded: i32,
    /// Fragment tasks that failed since the last fully completed one.
    pub consecutive_errors: i32,
    /// Set when the session is abandoned, so that tasks still in flight
    /// stop sending failure notifications.
    pub mute_bot: bool,
}

/// What the driver must do on one supervisor tick.
#[derive(Clone, Copy, Debug, PartialEq, Eq, Structural)]
pub struct TickDecision {
    /// Announce that the buffer holds exactly its target number of good
    /// fragments. Deliberately not latched: it holds on every tick that
    /// sees the counter at exactly the threshold.
    pub buffer_ready: bool,
    /// Launch a fragment task for this index, whatever else the tick says.
    pub launch_fragment: i32,
    /// Record this index in the `current` marker file; absent when the
    /// session ends this tick.
    pub persist_fragment: Option<i32>,
    /// Abandon the session after launching the task: notify, reset the
    /// counters, mute in-flight tasks, and hand control back to sync.
    pub terminate: bool,
}

impl SessionState {
    /// The shared state after one fragment-task step's effects land in it.
    pub open spec fn spec_land(self, e: StepEffects) -> SessionState {
        SessionState {
            good_fragments_loaded: if e.good_increment {
                (self.good_fragments_loaded + 1) as i32
            } else {
                self.good_fragments_loaded
            },
            consecutive_errors: if e.reset_errors {
                0
            } else if e.error_increment {
                (self.consecutive_errors + 1) as i32
            } else {
                self.consecutive_errors
            },
            ..self
        }
    }

    /// The shared state after one supervisor tick.
    pub open spec fn spec_tick_next(self) -> SessionState {
        if self.consecutive_errors >= MAX_CONSECUTIVE_ERRORS {
            SessionState {
                good_fragments_loaded: 0,
                consecutive_errors: 0,
                mute_bot: true,
                ..self
            }
        } else {
            SessionState { active_fragment: (self.active_fragment + 1) as i32, ..self }
        }
    }

    /// A fresh session, starting at the fragment index the accepted
    /// snapshot announced.
    pub fn new(initial_fragment: i32) -> (s: Self)
        ensures
            s.active_fragment == initial_fragment,
            s.good_fragments_loaded == 0,
            s.consecutive_errors == 0,
            !s.mute_bot,
    {
        SessionState {
            active_fragment: initial_fragment,
            good_fragments_loaded: 0,
            consecutive_errors: 0,
            mute_bot: false,
        }
    }

    /// Land one fragment-task step's effects in the shared counters. Each
    /// such landing is one critical section in the driver.
    pub fn apply_effects(&mut self, effects: &StepEffects)
        requires
            effects.good_increment ==> old(self).good_fragments_loaded < i32::MAX,
            effects.error_increment ==> old(self).consecutive_errors < i32::MAX,
        ensures
            final(self).good_fragments_loaded == old(self).good_fragments_loaded + (
                if effects.good_increment {
                    1 as int
                } else {
                    0
                }
            ),
            final(self).consecutive_errors == (if effects.reset_errors {
                0
            } else {
                old(self).consecutive_errors + (
                    if effects.error_increment {
                        1 as int
                    } else {
                        0
                    }
                )
            }),
            final(self).active_fragment == old(self).active_fragment,
            final(self).mute_bot == old(self).mute_bot,
            *final(self) == old(self).spec_land(*effects),
    {
        if effects.good_increment {
            self.good_fragments_loaded = self.good_fragments_loaded + 1;
        }
        if effects.error_increment {
            self.consecutive_errors = self.consecutive_errors + 1;
        }
        if effects.reset_errors {
            self.consecutive_errors = 0;
        }
    }

    /// One supervisor tick. A task is launched for the active fragment on
    /// every tick, even the one that terminates the session; termination
    /// resets both counters and mutes in-flight tasks; every other tick
    /// persists the launched index and advances the active fragment by
    /// exactly one.
    pub fn tick(&mut self) -> (t: TickDecision)
        requires
            old(self).active_fragment < i32::MAX,
        ensures
            t.buffer_ready == (old(self).good_fragments_loaded == BUFFER_SIZE_IN_FRAGMENTS),
            t.launch_fragment == old(self).active_fragment,
            t.terminate == (old(self).consecutive_errors >= MAX_CONSECUTIVE_ERRORS),
            t.terminate ==> {
                &&& final(self).active_fragment == old(self).active_fragment
                &&& final(self).good_fragments_loaded == 0
                &&& final(self).consecutive_errors == 0
                &&& final(self).mute_bot
                &&& t.persist_fragment is None
            },
            !t.terminate ==> {
                &&& final(self).active_fragment == old(self).active_fragment + 1
                &&& final(self).good_fragments_loaded == old(self).good_fragments_loaded
                &&& final(self).consecutive_errors == old(self).consecutive_errors
                &&& final(self).mute_bot == old(self).mute_bot
                &&& t.persist_fragment == Some(old(self).active_fragment)
            },
            *final(self) == old(self).spec_tick_next(),
    {
        let buffer_ready = self.good_fragments_loaded == BUFFER_SIZE_IN_FRAGMENTS;
        let launch_fragment = self.active_fragment;
        if self.consecutive_errors >= MAX_CONSECUTIVE_ERRORS {
            self.good_fragments_loaded = 0;
            self.consecutive_errors = 0;
            self.mute_bot = true;
            TickDecision { buffer_ready, launch_fragment, persist_fragment: None, terminate: true }
        } else {
            let persist_fragment = Some(self.active_fragment);
            self.active_fragment = self.active_fragment + 1;
            TickDecision { buffer_ready, launch_fragment, persist_fragment, terminate: false }
        }
    }
}

/// The shared session state after an interleaving of supervisor ticks and
/// fragment-task effect landings.
pub open spec fn spec_run_session(s: SessionState, ops: Seq<SessionOp>) -> SessionState
    decreases ops.len(),
{
    if ops.len() == 0 {
        s
    } else {
        let next = match ops[0] {
            SessionOp::Tick => s.spec_tick_next(),
            SessionOp::Land { effects } => s.spec_land(effects),
        };
        spec_run_session(next, ops.skip(1))
    }
}

/// Supervisor ticks among `ops`.
pub open spec fn spec_tick_count(ops: Seq<SessionOp>) -> nat
    decreases ops.len(),
{
    if ops.len() == 0 {
        0
    } else {
        (if ops[0] is Tick {
            1 as nat
        } else {
            0 as nat
        }) + spec_tick_count(ops.skip(1))
    }
}

/// No tick along the interleaving sees the error counter at the threshold:
/// the session is never abandoned.
pub open spec fn spec_never_terminates(s: SessionState, ops: Seq<SessionOp>) -> bool
    decreases ops.len(),
{
    if ops.len() == 0 {
        true
    } else {
        match ops[0] {
            SessionOp::Tick => s.consecutive_errors < MAX_CONSECUTIVE_ERRORS
                && spec_never_terminates(s.spec_tick_next(), ops.skip(1)),
            SessionOp::Land { effects } => spec_never_terminates(s.spec_land(effects), ops.skip(1)),
        }
    }
}

/// For as long as the session is not abandoned, the active fragment index
/// advances by exactly one per supervisor tick, whatever fragment-task
/// effects land in the shared counters in between and in whatever order.
pub proof fn active_fragment_counts_ticks(s: SessionState, ops: Seq<SessionOp>)
    requires
        spec_never_terminates(s, ops),
        s.active_fragment + spec_tick_count(ops) <= i32::MAX,
    ensures
        spec_run_session(s, ops).active_fragment == s.active_fragment + spec_tick_count(ops),
    decreases ops.len(),
{
    if ops.len() > 0 {
        match ops[0] {
            SessionOp::Tick => {
                active_fragment_counts_ticks(s.spec_tick_next(), ops.skip(1));
            },
            SessionOp::Land { effects } => {
                active_fragment_counts_ticks(s.spec_land(effects), ops.skip(1));
            },
        }
    }
}

} // verus!
