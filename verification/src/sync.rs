//! The sync manager's decision: given the latest snapshot from the sync
//! endpoint and what the mirror remembers across sessions, classify the poll
//! as malformed, stale, a map transition, or a fresh session, and say what
//! the driver must do about it (sleep, clear the output tree, notify, start
//! a session).

use vstd::prelude::*;
use crate::snapshot::SyncSnapshot;

verus! {

/// Seconds between ordinary sync attempts.
pub const SYNC_RETRY_DELAY_SECONDS: u64 = 15;

/// Seconds to wait before re-polling once the upstream looks stalled.
pub const STALE_RETRY_DELAY_SECONDS: u64 = 60;

/// Minimum seconds between two stale-upstream notifications (and output
/// clears): stale polls inside this window stay quiet.
pub const STALE_NOTICE_COOLDOWN_SECONDS: u64 = 60 * 5;

/// Sentinel remembered before any snapshot is accepted, far outside the
/// range of real fragment indices.
pub const NO_SYNC_FRAGMENT: i32 = -0xFFFF;

/// State surviving across sessions: the fragment index of the last snapshot
/// that was acted on, used to recognise a stalled upstream.
#[derive(Clone, Copy, Debug, PartialEq, Eq, Structural)]
pub struct ResyncMemory {
    pub last_sync_fragment: i32,
}

/// What one sync poll amounts to.
#[derive(Clone, Copy, Debug, PartialEq, Eq, Structural)]
pub enum SyncDecision {
    /// The snapshot carries no `fragment` key: retry on the next tick.
    MissingFragment,
    /// The snapshot carries no `signup_fragment` key: retry on the next tick.
    MissingSignupFragment,
    /// The fragment index did not move since the last accepted snapshot: the
    /// upstream is stalled. When `clear_and_notify` holds (no stale notice
    /// sent within the cooldown window), clear the output tree, send one
    /// notice and record its time; either way sleep the stale delay.
    Stale { clear_and_notify: bool },
    /// The upstream announces a transition with a negative index: notify,
    /// sleep `sleep_seconds`, clear the output tree, and remember `fragment`.
    MapTransition { fragment: i32, sleep_seconds: u64 },
    /// A fresh session: remember `initial_fragment`, store the start payload
    /// for `signup_fragment`, and hand both to the session supervisor.
    Fresh { initial_fragment: i32, signup_fragment: i32, keyframe_interval_seconds: u64 },
}

/// Whether a stale poll is allowed to notify (and clear the output tree):
/// only when no stale notice was ever sent, or the last one is older than
/// the cooldown window.
pub open spec fn spec_stale_notice_due(seconds_since_stale_notice: Option<u64>) -> bool {
    match seconds_since_stale_notice {
        Option::None => true,
        Option::Some(s) => s > STALE_NOTICE_COOLDOWN_SECONDS,
    }
}

/// The sync manager's decision for one poll. The checks run in the order the
/// protocol fixes: malformed snapshot first, then staleness (even a negative
/// index that repeats counts as stale), then transition, then fresh.
pub open spec fn spec_decide(
    snapshot: &SyncSnapshot,
    last_sync_fragment: i32,
    seconds_since_stale_notice: Option<u64>,
) -> SyncDecision {
    match snapshot.spec_fragment() {
        Option::None => SyncDecision::MissingFragment,
        Option::Some(f) => match snapshot.spec_signup_fragment() {
            Option::None => SyncDecision::MissingSignupFragment,
            Option::Some(s) => if f == last_sync_fragment {
                SyncDecision::Stale {
                    clear_and_notify: spec_stale_notice_due(seconds_since_stale_notice),
                }
            } else if f < 0 {
                SyncDecision::MapTransition { fragment: f, sleep_seconds: (-(f as int)) as u64 }
            } else {
                SyncDecision::Fresh {
                    initial_fragment: f,
                    signup_fragment: s,
                    keyframe_interval_seconds: snapshot.spec_keyframe_interval_seconds(),
                }
            },
        },
    }
}

/// Classify one successfully parsed snapshot.
pub fn decide(
    snapshot: &SyncSnapshot,
    memory: &ResyncMemory,
    seconds_since_stale_notice: Option<u64>,
) -> (d: SyncDecision)
    ensures
        d == spec_decide(snapshot, memory.last_sync_fragment, seconds_since_stale_notice),
{
    let f = match snapshot.fragment() {
        Some(f) => f,
        None => {
            return SyncDecision::MissingFragment;
        },
    };
    let s = match snapshot.signup_fragment() {
        Some(s) => s,
        None => {
            return SyncDecision::MissingSignupFragment;
        },
    };
    if f == memory.last_sync_fragment {
        let clear_and_notify = match seconds_since_stale_notice {
            None => true,
            Some(since) => since > STALE_NOTICE_COOLDOWN_SECONDS,
        };
        SyncDecision::Stale { clear_and_notify }
    } else if f < 0 {
        let sleep_seconds = (-(f as i64)) as u64;
        SyncDecision::MapTransition { fragment: f, sleep_seconds }
    } else {
        SyncDecision::Fresh {
            initial_fragment: f,
            signup_fragment: s,
            keyframe_interval_seconds: snapshot.keyframe_interval_seconds(),
        }
    }
}

impl ResyncMemory {
    /// Memory before the first poll: no snapshot accepted yet.
    pub fn new() -> (m: Self)
        ensures
            m.last_sync_fragment == NO_SYNC_FRAGMENT,
    {
        ResyncMemory { last_sync_fragment: NO_SYNC_FRAGMENT }
    }

    /// What the memory becomes once a decision is acted on: transitions and
    /// fresh sessions are remembered, stale and malformed polls are not.
    pub open spec fn spec_after(self, d: SyncDecision) -> ResyncMemory {
        match d {
            SyncDecision::MapTransition { fragment, .. } => ResyncMemory {
                last_sync_fragment: fragment,
            },
            SyncDecision::Fresh { initial_fragment, .. } => ResyncMemory {
                last_sync_fragment: initial_fragment,
            },
            _ => self,
        }
    }

    /// Record a decision.
    pub fn apply(&mut self, d: &SyncDecision)
        ensures
            *final(self) == old(self).spec_after(*d),
    {
        match d {
            SyncDecision::MapTransition { fragment, .. } => {
                self.last_sync_fragment = *fragment;
            },
            SyncDecision::Fresh { initial_fragment, .. } => {
                self.last_sync_fragment = *initial_fragment;
            },
            _ => {},
        }
    }
}

/// Seconds the driver must sleep before the next sync attempt, beyond its
/// ordinary poll interval.
pub open spec fn spec_sleep_seconds(d: SyncDecision) -> u64 {
    match d {
        SyncDecision::Stale { .. } => STALE_RETRY_DELAY_SECONDS,
        SyncDecision::MapTransition { sleep_seconds, .. } => sleep_seconds,
        _ => 0,
    }
}

pub fn sleep_seconds(d: &SyncDecision) -> (s: u64)
    ensures
        s == spec_sleep_seconds(*d),
{
    match d {
        SyncDecision::Stale { .. } => STALE_RETRY_DELAY_SECONDS,
        SyncDecision::MapTransition { sleep_seconds, .. } => *sleep_seconds,
        _ => 0,
    }
}

/// Whether acting on the decision clears the output directory tree.
pub open spec fn spec_clears_output(d: SyncDecision) -> bool {
    match d {
        SyncDecision::Stale { clear_and_notify } => clear_and_notify,
        SyncDecision::MapTransition { .. } => true,
        _ => false,
    }
}

pub fn clears_output(d: &SyncDecision) -> (b: bool)
    ensures
        b == spec_clears_output(*d),
{
    match d {
        SyncDecision::Stale { clear_and_notify } => *clear_and_notify,
        SyncDecision::MapTransition { .. } => true,
        _ => false,
    }
}

/// Whether acting on the decision sends a notification.
pub open spec fn spec_notifies(d: SyncDecision) -> bool {
    match d {
        SyncDecision::Stale { clear_and_notify } => clear_and_notify,
        SyncDecision::MapTransition { .. } => true,
        _ => false,
    }
}

pub fn notifies(d: &SyncDecision) -> (b: bool)
    ensures
        b == spec_notifies(*d),
{
    match d {
        SyncDecision::Stale { clear_and_notify } => *clear_and_notify,
        SyncDecision::MapTransition { .. } => true,
        _ => false,
    }
}

/// Whether the decision hands a fresh session to the supervisor.
pub open spec fn spec_starts_session(d: SyncDecision) -> bool {
    d is Fresh
}

pub fn starts_session(d: &SyncDecision) -> (b: bool)
    ensures
        b == spec_starts_session(*d),
{
    match d {
        SyncDecision::Fresh { .. } => true,
        _ => false,
    }
}

/// A poll whose fragment index repeats the previously accepted one never
/// starts a session: it is classified stale, the driver sleeps the full
/// stale delay, and the remembered index is left unchanged.
pub proof fn stale_poll_starts_no_session(
    snapshot: SyncSnapshot,
    memory: ResyncMemory,
    seconds_since_stale_notice: Option<u64>,
)
    requires
        snapshot.spec_fragment() == Some(memory.last_sync_fragment),
        snapshot.spec_signup_fragment() is Some,
    ensures
        ({
            let d = spec_decide(&snapshot, memory.last_sync_fragment, seconds_since_stale_notice);
            &&& d matches SyncDecision::Stale { .. }
            &&& !spec_starts_session(d)
            &&& spec_sleep_seconds(d) == STALE_RETRY_DELAY_SECONDS
            &&& memory.spec_after(d) == memory
        }),
{
}

/// A negative fragment index that differs from the remembered one announces
/// a map transition: the driver sleeps exactly the announced number of
/// seconds, clears the output tree, starts no session, and remembers the
/// new (negative) index.
pub proof fn map_transition_sleeps_and_clears(
    snapshot: SyncSnapshot,
    memory: ResyncMemory,
    seconds_since_stale_notice: Option<u64>,
    f: i32,
)
    requires
        snapshot.spec_fragment() == Some(f),
        f < 0,
        f != memory.last_sync_fragment,
        snapshot.spec_signup_fragment() is Some,
    ensures
        ({
            let d = spec_decide(&snapshot, memory.last_sync_fragment, seconds_since_stale_notice);
            &&& d matches SyncDecision::MapTransition { .. }
            &&& spec_sleep_seconds(d) as int == -(f as int)
            &&& spec_clears_output(d)
            &&& !spec_starts_session(d)
            &&& memory.spec_after(d).last_sync_fragment == f
        }),
{
}

} // verus!
