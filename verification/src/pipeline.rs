//! The per-fragment download pipeline: create the fragment's directory,
//! fetch its `delta` payload with bounded retries against the primary
//! mirror, escalate to the fallback mirror after a cool-down, and finally
//! fetch the `full` payload, again with bounded retries.
//!
//! The pipeline is a state machine over plain values: the driver asks
//! [`command`] what to do, performs the request or sleep, and feeds the
//! result back through [`step`], which also reports the effect on the shared
//! session counters.

use vstd::prelude::*;

verus! {

/// Attempts granted to the primary mirror, for `delta` and `full` alike.
pub const FRAGMENT_RETRY_COUNT: u8 = 5;

/// Attempts granted to the fallback mirror for `delta`.
pub const FALLBACK_RETRY_COUNT: u8 = 2;

/// Seconds that must have passed since the first delta attempt before the
/// fallback mirror may be contacted.
pub const FALLBACK_COOLDOWN_SECONDS: u64 = 40;

/// How one fragment task ended, or how one of its phases concluded.
#[derive(Clone, Copy, Debug, PartialEq, Eq, Structural)]
pub enum FragmentOutcome {
    /// The primary mirror served the delta payload.
    DeltaOk,
    /// The primary mirror failed every attempt; the fallback served it.
    DeltaFailedUsedFallback,
    /// Primary and fallback both failed every delta attempt.
    DeltaFailedNoFallback,
    /// The full payload was stored.
    FullOk,
    /// The full payload was given up on after its retries; non-fatal.
    FullFailedAfterRetries,
    /// The fragment's directory could not be created.
    DirectoryCreateFailed,
}

/// Where one fragment task stands.
#[derive(Clone, Copy, Debug, PartialEq, Eq, Structural)]
pub enum PipelinePhase {
    /// Creating the fragment's output directory.
    CreateDir,
    /// Fetching `delta` from the primary mirror; `tries` attempts failed so far.
    Delta { tries: u8 },
    /// Every primary delta attempt failed; waiting out the fallback cool-down.
    FallbackWait,
    /// Fetching `delta` from the fallback mirror; `tries` attempts failed so far.
    Fallback { tries: u8 },
    /// Fetching `full` from the primary mirror; `tries` attempts failed so far.
    Full { tries: u8 },
    /// The task is over.
    Done { outcome: FragmentOutcome },
}

/// What the driver reports back to the state machine.
#[derive(Clone, Copy, Debug, PartialEq, Eq, Structural)]
pub enum PipelineEvent {
    /// Whether the fragment's directory could be created.
    DirResult { ok: bool },
    /// Whether one primary `delta` attempt fetched and stored the payload.
    DeltaResult { ok: bool },
    /// The fallback cool-down has fully elapsed.
    CooldownDone,
    /// Whether one fallback `delta` attempt fetched and stored the payload.
    FallbackResult { ok: bool },
    /// Whether one `full` attempt fetched and stored the payload.
    FullResult { ok: bool },
}

/// What the driver must do next.
#[derive(Clone, Copy, Debug, PartialEq, Eq, Structural)]
pub enum PipelineCommand {
    /// Create the fragment's output directory.
    TryCreateDir,
    /// Request `delta` from the primary mirror and store it.
    TryDelta,
    /// Sleep until the cool-down since the first delta attempt has elapsed.
    AwaitFallbackCooldown,
    /// Request `delta` from the fallback mirror and store it.
    TryFallback,
    /// Request `full` from the primary mirror and store it.
    TryFull,
    /// Nothing: the task is over.
    Stop,
}

/// What one step does to the session's shared state.
#[derive(Clone, Copy, Debug)]
pub struct StepEffects {
    /// Count one more good fragment.
    pub good_increment: bool,
    /// Count one more consecutive error.
    pub error_increment: bool,
    /// Reset the consecutive-error counter: the task ran to completion.
    pub reset_errors: bool,
    /// Send a delta-failure notification (already suppressed when muted).
    pub notify_failure: bool,
    /// The phase this step concluded, if it concluded one.
    pub outcome: Option<FragmentOutcome>,
}

/// The phase after one step, and what the step did.
#[derive(Clone, Copy, Debug)]
pub struct StepResult {
    pub next: PipelinePhase,
    pub effects: StepEffects,
}

/// Effects of a step that only moves the machine along.
pub open spec fn spec_no_effects() -> StepEffects {
    StepEffects {
        good_increment: false,
        error_increment: false,
        reset_errors: false,
        notify_failure: false,
        outcome: Option::None,
    }
}

/// The command the driver must perform in a phase.
pub open spec fn spec_command(phase: PipelinePhase) -> PipelineCommand {
    match phase {
        PipelinePhase::CreateDir => PipelineCommand::TryCreateDir,
        PipelinePhase::Delta { .. } => PipelineCommand::TryDelta,
        PipelinePhase::FallbackWait => PipelineCommand::AwaitFallbackCooldown,
        PipelinePhase::Fallback { .. } => PipelineCommand::TryFallback,
        PipelinePhase::Full { .. } => PipelineCommand::TryFull,
        PipelinePhase::Done { .. } => PipelineCommand::Stop,
    }
}

pub fn command(phase: &PipelinePhase) -> (c: PipelineCommand)
    ensures
        c == spec_command(*phase),
{
    match phase {
        PipelinePhase::CreateDir => PipelineCommand::TryCreateDir,
        PipelinePhase::Delta { .. } => PipelineCommand::TryDelta,
        PipelinePhase::FallbackWait => PipelineCommand::AwaitFallbackCooldown,
        PipelinePhase::Fallback { .. } => PipelineCommand::TryFallback,
        PipelinePhase::Full { .. } => PipelineCommand::TryFull,
        PipelinePhase::Done { .. } => PipelineCommand::Stop,
    }
}

/// One transition of the pipeline. An event that does not belong to the
/// current phase moves nothing. `mute_bot` is the session's mute flag at the
/// moment the event lands: when set, exhausting the fallback neither
/// notifies nor counts an error nor aborts, and the task falls through to
/// the full phase.
pub open spec fn spec_step(
    phase: PipelinePhase,
    event: PipelineEvent,
    mute_bot: bool,
) -> StepResult {
    match (phase, event) {
        (PipelinePhase::CreateDir, PipelineEvent::DirResult { ok }) => if ok {
            StepResult { next: PipelinePhase::Delta { tries: 0 }, effects: spec_no_effects() }
        } else {
            StepResult {
                next: PipelinePhase::Done { outcome: FragmentOutcome::DirectoryCreateFailed },
                effects: StepEffects {
                    error_increment: true,
                    outcome: Option::Some(FragmentOutcome::DirectoryCreateFailed),
                    ..spec_no_effects()
                },
            }
        },
        (PipelinePhase::Delta { tries }, PipelineEvent::DeltaResult { ok }) => if ok {
            StepResult {
                next: PipelinePhase::Full { tries: 0 },
                effects: StepEffects {
                    good_increment: true,
                    outcome: Option::Some(FragmentOutcome::DeltaOk),
                    ..spec_no_effects()
                },
            }
        } else if tries + 1 < FRAGMENT_RETRY_COUNT {
            StepResult {
                next: PipelinePhase::Delta { tries: (tries + 1) as u8 },
                effects: spec_no_effects(),
            }
        } else {
            StepResult { next: PipelinePhase::FallbackWait, effects: spec_no_effects() }
        },
        (PipelinePhase::FallbackWait, PipelineEvent::CooldownDone) => StepResult {
            next: PipelinePhase::Fallback { tries: 0 },
            effects: spec_no_effects(),
        },
        (PipelinePhase::Fallback { tries }, PipelineEvent::FallbackResult { ok }) => if ok {
            StepResult {
                next: PipelinePhase::Full { tries: 0 },
                effects: StepEffects {
                    good_increment: true,
                    outcome: Option::Some(FragmentOutcome::DeltaFailedUsedFallback),
                    ..spec_no_effects()
                },
            }
        } else if tries + 1 < FALLBACK_RETRY_COUNT {
            StepResult {
                next: PipelinePhase::Fallback { tries: (tries + 1) as u8 },
                effects: spec_no_effects(),
            }
        } else if !mute_bot {
            StepResult {
                next: PipelinePhase::Done { outcome: FragmentOutcome::DeltaFailedNoFallback },
                effects: StepEffects {
                    error_increment: true,
                    notify_failure: true,
                    outcome: Option::Some(FragmentOutcome::DeltaFailedNoFallback),
                    ..spec_no_effects()
                },
            }
        } else {
            StepResult {
                next: PipelinePhase::Full { tries: 0 },
                effects: StepEffects {
                    outcome: Option::Some(FragmentOutcome::DeltaFailedNoFallback),
                    ..spec_no_effects()
                },
            }
        },
        (PipelinePhase::Full { tries }, PipelineEvent::FullResult { ok }) => if ok {
            StepResult {
                next: PipelinePhase::Done { outcome: FragmentOutcome::FullOk },
                effects: StepEffects {
                    reset_errors: true,
                    outcome: Option::Some(FragmentOutcome::FullOk),
                    ..spec_no_effects()
                },
            }
        } else if tries + 1 < FRAGMENT_RETRY_COUNT {
            StepResult {
                next: PipelinePhase::Full { tries: (tries + 1) as u8 },
                effects: spec_no_effects(),
            }
        } else {
            StepResult {
                next: PipelinePhase::Done { outcome: FragmentOutcome::FullFailedAfterRetries },
                effects: StepEffects {
                    reset_errors: true,
                    outcome: Option::Some(FragmentOutcome::FullFailedAfterRetries),
                    ..spec_no_effects()
                },
            }
        },
        (p, _) => StepResult { next: p, effects: spec_no_effects() },
    }
}

/// Feed one event into the pipeline.
pub fn step(phase: &PipelinePhase, event: PipelineEvent, mute_bot: bool) -> (r: StepResult)
    ensures
        r == spec_step(*phase, event, mute_bot),
{
    let none = StepEffects {
        good_increment: false,
        error_increment: false,
        reset_errors: false,
        notify_failure: false,
        outcome: None,
    };
    match (phase, event) {
        (PipelinePhase::CreateDir, PipelineEvent::DirResult { ok }) => if ok {
            StepResult { next: PipelinePhase::Delta { tries: 0 }, effects: none }
        } else {
            StepResult {
                next: PipelinePhase::Done { outcome: FragmentOutcome::DirectoryCreateFailed },
                effects: StepEffects {
                    error_increment: true,
                    outcome: Some(FragmentOutcome::DirectoryCreateFailed),
                    ..none
                },
            }
        },
        (PipelinePhase::Delta { tries }, PipelineEvent::DeltaResult { ok }) => if ok {
            StepResult {
                next: PipelinePhase::Full { tries: 0 },
                effects: StepEffects {
                    good_increment: true,
                    outcome: Some(FragmentOutcome::DeltaOk),
                    ..none
                },
            }
        } else if *tries < FRAGMENT_RETRY_COUNT - 1 {
            StepResult { next: PipelinePhase::Delta { tries: *tries + 1 }, effects: none }
        } else {
            StepResult { next: PipelinePhase::FallbackWait, effects: none }
        },
        (PipelinePhase::FallbackWait, PipelineEvent::CooldownDone) => StepResult {
            next: PipelinePhase::Fallback { tries: 0 },
            effects: none,
        },
        (PipelinePhase::Fallback { tries }, PipelineEvent::FallbackResult { ok }) => if ok {
            StepResult {
                next: PipelinePhase::Full { tries: 0 },
                effects: StepEffects {
                    good_increment: true,
                    outcome: Some(FragmentOutcome::DeltaFailedUsedFallback),
                    ..none
                },
            }
        } else if *tries < FALLBACK_RETRY_COUNT - 1 {
            StepResult { next: PipelinePhase::Fallback { tries: *tries + 1 }, effects: none }
        } else if !mute_bot {
            StepResult {
                next: PipelinePhase::Done { outcome: FragmentOutcome::DeltaFailedNoFallback },
                effects: StepEffects {
                    error_increment: true,
                    notify_failure: true,
                    outcome: Some(FragmentOutcome::DeltaFailedNoFallback),
                    ..none
                },
            }
        } else {
            StepResult {
                next: PipelinePhase::Full { tries: 0 },
                effects: StepEffects {
                    outcome: Some(FragmentOutcome::DeltaFailedNoFallback),
                    ..none
                },
            }
        },
        (PipelinePhase::Full { tries }, PipelineEvent::FullResult { ok }) => if ok {
            StepResult {
                next: PipelinePhase::Done { outcome: FragmentOutcome::FullOk },
                effects: StepEffects {
                    reset_errors: true,
                    outcome: Some(FragmentOutcome::FullOk),
                    ..none
                },
            }
        } else if *tries < FRAGMENT_RETRY_COUNT - 1 {
            StepResult { next: PipelinePhase::Full { tries: *tries + 1 }, effects: none }
        } else {
            StepResult {
                next: PipelinePhase::Done { outcome: FragmentOutcome::FullFailedAfterRetries },
                effects: StepEffects {
                    reset_errors: true,
                    outcome: Some(FragmentOutcome::FullFailedAfterRetries),
                    ..none
                },
            }
        },
        (p, _) => StepResult { next: *p, effects: none },
    }
}

/// How long the fallback cool-down still has to run, given how many seconds
/// have passed since the first primary delta attempt: fast consecutive
/// failures still wait the full window out before the fallback mirror is
/// contacted.
pub fn fallback_wait_seconds(elapsed_seconds: u64) -> (w: u64)
    ensures
        w == if elapsed_seconds < FALLBACK_COOLDOWN_SECONDS {
            FALLBACK_COOLDOWN_SECONDS - elapsed_seconds
        } else {
            0
        },
{
    if elapsed_seconds < FALLBACK_COOLDOWN_SECONDS {
        FALLBACK_COOLDOWN_SECONDS - elapsed_seconds
    } else {
        0
    }
}

/// Accumulated effect of a run of steps on the session's shared state.
pub struct TraceEffects {
    pub good_increments: nat,
    pub error_increments: nat,
    pub resets_errors: bool,
    pub notices: nat,
}

/// The run that performs no step.
pub open spec fn spec_empty_totals() -> TraceEffects {
    TraceEffects { good_increments: 0, error_increments: 0, resets_errors: false, notices: 0 }
}

/// One step's effects, as a run of length one.
pub open spec fn spec_effects_totals(e: StepEffects) -> TraceEffects {
    TraceEffects {
        good_increments: if e.good_increment { 1 as nat } else { 0 as nat },
        error_increments: if e.error_increment { 1 as nat } else { 0 as nat },
        resets_errors: e.reset_errors,
        notices: if e.notify_failure { 1 as nat } else { 0 as nat },
    }
}

/// Effects of two runs, one after the other.
pub open spec fn spec_totals_add(a: TraceEffects, b: TraceEffects) -> TraceEffects {
    TraceEffects {
        good_increments: a.good_increments + b.good_increments,
        error_increments: a.error_increments + b.error_increments,
        resets_errors: a.resets_errors || b.resets_errors,
        notices: a.notices + b.notices,
    }
}

/// Where a run of events ends, and its accumulated effects.
pub struct TraceResult {
    pub phase: PipelinePhase,
    pub totals: TraceEffects,
}

/// Run the pipeline from `phase` over `events`, accumulating effects.
pub open spec fn spec_run(
    phase: PipelinePhase,
    events: Seq<PipelineEvent>,
    mute_bot: bool,
) -> TraceResult
    decreases events.len(),
{
    if events.len() == 0 {
        TraceResult { phase, totals: spec_empty_totals() }
    } else {
        let s = spec_step(phase, events[0], mute_bot);
        let rest = spec_run(s.next, events.skip(1), mute_bot);
        TraceResult {
            phase: rest.phase,
            totals: spec_totals_add(spec_effects_totals(s.effects), rest.totals),
        }
    }
}

/// Running one event is one step.
pub proof fn lemma_run_single(phase: PipelinePhase, e: PipelineEvent, mute_bot: bool)
    ensures
        spec_run(phase, seq![e], mute_bot).phase == spec_step(phase, e, mute_bot).next,
        spec_run(phase, seq![e], mute_bot).totals == spec_effects_totals(
            spec_step(phase, e, mute_bot).effects,
        ),
{
    let s = spec_step(phase, e, mute_bot);
    assert(seq![e][0] == e);
    assert(seq![e].skip(1) =~= Seq::<PipelineEvent>::empty());
    assert(spec_run(s.next, Seq::<PipelineEvent>::empty(), mute_bot).phase == s.next);
    assert(spec_run(s.next, Seq::<PipelineEvent>::empty(), mute_bot).totals
        == spec_empty_totals());
    let t = spec_effects_totals(s.effects);
    assert(spec_totals_add(t, spec_empty_totals()) == t);
}

/// A run over `a + b` is the run over `a` continued over `b`.
pub proof fn lemma_run_append(
    phase: PipelinePhase,
    a: Seq<PipelineEvent>,
    b: Seq<PipelineEvent>,
    mute_bot: bool,
)
    ensures
        spec_run(phase, a + b, mute_bot).phase == spec_run(
            spec_run(phase, a, mute_bot).phase,
            b,
            mute_bot,
        ).phase,
        spec_run(phase, a + b, mute_bot).totals == spec_totals_add(
            spec_run(phase, a, mute_bot).totals,
            spec_run(spec_run(phase, a, mute_bot).phase, b, mute_bot).totals,
        ),
    decreases a.len(),
{
    if a.len() == 0 {
        assert(a + b =~= b);
        let r = spec_run(phase, b, mute_bot);
        assert(spec_totals_add(spec_empty_totals(), r.totals) == r.totals);
    } else {
        let s = spec_step(phase, a[0], mute_bot);
        assert((a + b)[0] == a[0]);
        assert((a + b).skip(1) =~= a.skip(1) + b);
        lemma_run_append(s.next, a.skip(1), b, mute_bot);
    }
}

/// Once the delta question is settled — the machine stands in the full
/// phase, or the task is done — no later step touches the good-fragment
/// counter, counts an error, or notifies; at most the final
/// task-completed reset of the error counter still fires.
pub proof fn lemma_full_phase_counter_silent(
    phase: PipelinePhase,
    events: Seq<PipelineEvent>,
    mute_bot: bool,
)
    requires
        phase matches PipelinePhase::Full { .. } || phase matches PipelinePhase::Done { .. },
    ensures
        ({
            let r = spec_run(phase, events, mute_bot);
            &&& r.totals.good_increments == 0
            &&& r.totals.error_increments == 0
            &&& r.totals.notices == 0
            &&& (r.phase matches PipelinePhase::Full { .. } || r.phase
                matches PipelinePhase::Done { .. })
        }),
    decreases events.len(),
{
    if events.len() > 0 {
        let s = spec_step(phase, events[0], mute_bot);
        lemma_full_phase_counter_silent(s.next, events.skip(1), mute_bot);
    }
}

/// A finished task stays finished: later events move nothing and have no
/// effect at all.
pub proof fn lemma_done_absorbs(
    phase: PipelinePhase,
    events: Seq<PipelineEvent>,
    mute_bot: bool,
)
    requires
        phase matches PipelinePhase::Done { .. },
    ensures
        spec_run(phase, events, mute_bot).phase == phase,
        spec_run(phase, events, mute_bot).totals == spec_empty_totals(),
    decreases events.len(),
{
    if events.len() > 0 {
        let s = spec_step(phase, events[0], mute_bot);
        lemma_done_absorbs(s.next, events.skip(1), mute_bot);
        assert(spec_totals_add(spec_effects_totals(s.effects), spec_empty_totals())
            == spec_empty_totals());
    }
}

/// `n` failed primary delta attempts in a row.
pub open spec fn spec_delta_failures(n: nat) -> Seq<PipelineEvent> {
    Seq::new(n, |i: int| PipelineEvent::DeltaResult { ok: false })
}

/// Failing the remaining primary delta attempts lands the task in the
/// fallback cool-down, touching nothing on the way.
pub proof fn lemma_delta_exhaustion(tries: u8, n: nat, mute_bot: bool)
    requires
        tries < FRAGMENT_RETRY_COUNT,
        n == FRAGMENT_RETRY_COUNT - tries,
    ensures
        spec_run(
            PipelinePhase::Delta { tries },
            spec_delta_failures(n),
            mute_bot,
        ).phase == PipelinePhase::FallbackWait,
        spec_run(
            PipelinePhase::Delta { tries },
            spec_delta_failures(n),
            mute_bot,
        ).totals == spec_empty_totals(),
    decreases n,
{
    let events = spec_delta_failures(n);
    let s = spec_step(PipelinePhase::Delta { tries }, events[0], mute_bot);
    assert(events.skip(1) =~= spec_delta_failures((n - 1) as nat));
    if tries + 1 < FRAGMENT_RETRY_COUNT {
        lemma_delta_exhaustion((tries + 1) as u8, (n - 1) as nat, mute_bot);
    } else {
        assert(spec_run(s.next, events.skip(1), mute_bot).phase == PipelinePhase::FallbackWait);
    }
    assert(spec_totals_add(spec_empty_totals(), spec_empty_totals()) == spec_empty_totals());
}

/// The events of a whole task whose five primary delta attempts all fail:
/// directory created, five failures, the cool-down, then whatever the
/// fallback and full phases bring.
pub open spec fn spec_primary_exhausted_trace(rest: Seq<PipelineEvent>) -> Seq<PipelineEvent> {
    seq![PipelineEvent::DirResult { ok: true }]
        + spec_delta_failures(FRAGMENT_RETRY_COUNT as nat)
        + seq![PipelineEvent::CooldownDone]
        + rest
}

/// Running the whole task over a primary-exhausted trace is the same as
/// running `rest` from the first fallback attempt, with nothing accumulated
/// on the way there.
proof fn lemma_reach_fallback(rest: Seq<PipelineEvent>, mute_bot: bool)
    ensures
        spec_run(PipelinePhase::CreateDir, spec_primary_exhausted_trace(rest), mute_bot)
            == spec_run(PipelinePhase::Fallback { tries: 0 }, rest, mute_bot),
{
    let dir = seq![PipelineEvent::DirResult { ok: true }];
    let fails = spec_delta_failures(FRAGMENT_RETRY_COUNT as nat);
    let cd = seq![PipelineEvent::CooldownDone];
    let events = spec_primary_exhausted_trace(rest);

    lemma_run_single(PipelinePhase::CreateDir, PipelineEvent::DirResult { ok: true }, mute_bot);
    lemma_delta_exhaustion(0, FRAGMENT_RETRY_COUNT as nat, mute_bot);
    lemma_run_single(PipelinePhase::FallbackWait, PipelineEvent::CooldownDone, mute_bot);

    lemma_run_append(PipelinePhase::CreateDir, dir, fails + cd + rest, mute_bot);
    assert(events =~= dir + (fails + cd + rest));
    lemma_run_append(PipelinePhase::Delta { tries: 0 }, fails, cd + rest, mute_bot);
    assert(fails + cd + rest =~= fails + (cd + rest));
    lemma_run_append(PipelinePhase::FallbackWait, cd, rest, mute_bot);

    let r = spec_run(PipelinePhase::Fallback { tries: 0 }, rest, mute_bot);
    assert(spec_totals_add(spec_empty_totals(), r.totals) == r.totals);
}

/// Five primary delta failures followed by a fallback success within its
/// two attempts load exactly one good fragment and never count an error,
/// whatever the full phase then brings and whether or not the session is
/// muted. (`second_try` says whether the first fallback attempt failed and
/// the second succeeded, rather than the first succeeding.)
pub proof fn fallback_rescue_loads_one_fragment(
    second_try: bool,
    full_events: Seq<PipelineEvent>,
    mute_bot: bool,
)
    ensures
        ({
            let fb = if second_try {
                seq![
                    PipelineEvent::FallbackResult { ok: false },
                    PipelineEvent::FallbackResult { ok: true },
                ]
            } else {
                seq![PipelineEvent::FallbackResult { ok: true }]
            };
            let r = spec_run(
                PipelinePhase::CreateDir,
                spec_primary_exhausted_trace(fb + full_events),
                mute_bot,
            );
            &&& r.totals.good_increments == 1
            &&& r.totals.error_increments == 0
            &&& r.totals.notices == 0
        }),
{
    let fb = if second_try {
        seq![
            PipelineEvent::FallbackResult { ok: false },
            PipelineEvent::FallbackResult { ok: true },
        ]
    } else {
        seq![PipelineEvent::FallbackResult { ok: true }]
    };
    lemma_reach_fallback(fb + full_events, mute_bot);
    lemma_run_append(PipelinePhase::Fallback { tries: 0 }, fb, full_events, mute_bot);
    if second_try {
        lemma_run_single(
            PipelinePhase::Fallback { tries: 0 },
            PipelineEvent::FallbackResult { ok: false },
            mute_bot,
        );
        lemma_run_single(
            PipelinePhase::Fallback { tries: 1 },
            PipelineEvent::FallbackResult { ok: true },
            mute_bot,
        );
        assert(fb =~= seq![PipelineEvent::FallbackResult { ok: false }]
            + seq![PipelineEvent::FallbackResult { ok: true }]);
        lemma_run_append(
            PipelinePhase::Fallback { tries: 0 },
            seq![PipelineEvent::FallbackResult { ok: false }],
            seq![PipelineEvent::FallbackResult { ok: true }],
            mute_bot,
        );
    } else {
        lemma_run_single(
            PipelinePhase::Fallback { tries: 0 },
            PipelineEvent::FallbackResult { ok: true },
            mute_bot,
        );
    }
    assert(spec_run(PipelinePhase::Fallback { tries: 0 }, fb, mute_bot).phase
        == PipelinePhase::Full { tries: 0 });
    lemma_full_phase_counter_silent(PipelinePhase::Full { tries: 0 }, full_events, mute_bot);
}

/// With notifications unmuted, a task whose five primary and both fallback
/// delta attempts all fail counts exactly one consecutive error, sends
/// exactly one notification, and skips the full phase: the task ends right
/// there, never resets the error counter, and later events move nothing.
pub proof fn delta_exhaustion_aborts_task(
    later_events: Seq<PipelineEvent>,
    mute_bot: bool,
)
    requires
        !mute_bot,
    ensures
        ({
            let fb = seq![
                PipelineEvent::FallbackResult { ok: false },
                PipelineEvent::FallbackResult { ok: false },
            ];
            let r = spec_run(
                PipelinePhase::CreateDir,
                spec_primary_exhausted_trace(fb + later_events),
                mute_bot,
            );
            &&& r.phase == PipelinePhase::Done {
                outcome: FragmentOutcome::DeltaFailedNoFallback,
            }
            &&& r.totals.good_increments == 0
            &&& r.totals.error_increments == 1
            &&& r.totals.notices == 1
            &&& !r.totals.resets_errors
        }),
{
    let fb = seq![
        PipelineEvent::FallbackResult { ok: false },
        PipelineEvent::FallbackResult { ok: false },
    ];
    lemma_reach_fallback(fb + later_events, mute_bot);
    lemma_run_append(PipelinePhase::Fallback { tries: 0 }, fb, later_events, mute_bot);
    lemma_run_single(
        PipelinePhase::Fallback { tries: 0 },
        PipelineEvent::FallbackResult { ok: false },
        mute_bot,
    );
    lemma_run_single(
        PipelinePhase::Fallback { tries: 1 },
        PipelineEvent::FallbackResult { ok: false },
        mute_bot,
    );
    assert(fb =~= seq![PipelineEvent::FallbackResult { ok: false }]
        + seq![PipelineEvent::FallbackResult { ok: false }]);
    lemma_run_append(
        PipelinePhase::Fallback { tries: 0 },
        seq![PipelineEvent::FallbackResult { ok: false }],
        seq![PipelineEvent::FallbackResult { ok: false }],
        mute_bot,
    );
    lemma_done_absorbs(
        PipelinePhase::Done { outcome: FragmentOutcome::DeltaFailedNoFallback },
        later_events,
        mute_bot,
    );
}

} // verus!
