use stream_mirror::pipeline::{
    command, fallback_wait_seconds, step, FragmentOutcome, PipelineCommand, PipelineEvent,
    PipelinePhase, StepEffects, FALLBACK_COOLDOWN_SECONDS,
};
use stream_mirror::session::SessionState;

/// Drive one whole fragment task: `phase` starts at `CreateDir`, every
/// command is answered from the given attempt results, every step's effects
/// land in `session`. Returns the outcome the task ended with.
fn drive_task(
    dir_ok: bool,
    delta: &[bool],
    fallback: &[bool],
    full: &[bool],
    session: &mut SessionState,
) -> FragmentOutcome {
    let mute = session.mute_bot;
    let mut phase = PipelinePhase::CreateDir;
    let mut delta = delta.iter();
    let mut fallback = fallback.iter();
    let mut full = full.iter();
    loop {
        let event = match command(&phase) {
            PipelineCommand::TryCreateDir => PipelineEvent::DirResult { ok: dir_ok },
            PipelineCommand::TryDelta => PipelineEvent::DeltaResult { ok: *delta.next().unwrap() },
            PipelineCommand::AwaitFallbackCooldown => PipelineEvent::CooldownDone,
            PipelineCommand::TryFallback => {
                PipelineEvent::FallbackResult { ok: *fallback.next().unwrap() }
            }
            PipelineCommand::TryFull => PipelineEvent::FullResult { ok: *full.next().unwrap() },
            PipelineCommand::Stop => match phase {
                PipelinePhase::Done { outcome } => return outcome,
                _ => unreachable!(),
            },
        };
        let r = step(&phase, event, mute);
        session.apply_effects(&r.effects);
        phase = r.next;
    }
}

#[test]
fn first_delta_success_loads_the_fragment() {
    let mut s = SessionState::new(100);
    s.consecutive_errors = 2;
    let outcome = drive_task(true, &[true], &[], &[true], &mut s);
    assert_eq!(outcome, FragmentOutcome::FullOk);
    assert_eq!(s.good_fragments_loaded, 1);
    // The fully completed task resets the error counter.
    assert_eq!(s.consecutive_errors, 0);
}

#[test]
fn five_delta_failures_then_fallback_success_count_one_good_fragment() {
    let mut s = SessionState::new(100);
    let outcome =
        drive_task(true, &[false; 5], &[true], &[false; 5], &mut s);
    assert_eq!(outcome, FragmentOutcome::FullFailedAfterRetries);
    assert_eq!(s.good_fragments_loaded, 1);
    assert_eq!(s.consecutive_errors, 0);
}

#[test]
fn fallback_success_on_the_second_attempt_still_counts() {
    let mut s = SessionState::new(100);
    drive_task(true, &[false; 5], &[false, true], &[true], &mut s);
    assert_eq!(s.good_fragments_loaded, 1);
    assert_eq!(s.consecutive_errors, 0);
}

#[test]
fn exhausting_primary_and_fallback_aborts_and_counts_one_error() {
    let mut s = SessionState::new(100);
    // No full results are supplied: the aborted task must never ask for one.
    let outcome = drive_task(true, &[false; 5], &[false, false], &[], &mut s);
    assert_eq!(outcome, FragmentOutcome::DeltaFailedNoFallback);
    assert_eq!(s.good_fragments_loaded, 0);
    assert_eq!(s.consecutive_errors, 1);
}

#[test]
fn the_final_fallback_failure_notifies_unless_muted() {
    let phase = PipelinePhase::Fallback { tries: 1 };
    let loud = step(&phase, PipelineEvent::FallbackResult { ok: false }, false);
    assert!(loud.effects.notify_failure);
    assert!(loud.effects.error_increment);
    assert_eq!(
        loud.next,
        PipelinePhase::Done { outcome: FragmentOutcome::DeltaFailedNoFallback }
    );
    let muted = step(&phase, PipelineEvent::FallbackResult { ok: false }, true);
    assert!(!muted.effects.notify_failure);
    assert!(!muted.effects.error_increment);
    // Muted, the task falls through to the full phase instead of aborting.
    assert_eq!(muted.next, PipelinePhase::Full { tries: 0 });
}

#[test]
fn muted_exhausted_task_still_completes_and_resets_errors() {
    let mut s = SessionState::new(100);
    s.mute_bot = true;
    s.consecutive_errors = 3;
    let outcome = drive_task(true, &[false; 5], &[false, false], &[true], &mut s);
    assert_eq!(outcome, FragmentOutcome::FullOk);
    assert_eq!(s.good_fragments_loaded, 0);
    assert_eq!(s.consecutive_errors, 0);
}

#[test]
fn directory_failure_counts_one_error_and_stops() {
    let mut s = SessionState::new(100);
    let outcome = drive_task(false, &[], &[], &[], &mut s);
    assert_eq!(outcome, FragmentOutcome::DirectoryCreateFailed);
    assert_eq!(s.good_fragments_loaded, 0);
    assert_eq!(s.consecutive_errors, 1);
}

#[test]
fn full_failures_alone_are_not_errors() {
    let mut s = SessionState::new(100);
    s.consecutive_errors = 4;
    let outcome = drive_task(true, &[true], &[], &[false; 5], &mut s);
    assert_eq!(outcome, FragmentOutcome::FullFailedAfterRetries);
    assert_eq!(s.good_fragments_loaded, 1);
    assert_eq!(s.consecutive_errors, 0);
}

#[test]
fn full_retries_until_its_fifth_attempt() {
    let mut s = SessionState::new(100);
    let outcome = drive_task(true, &[true], &[], &[false, false, false, false, true], &mut s);
    assert_eq!(outcome, FragmentOutcome::FullOk);
}

#[test]
fn delta_retries_up_to_five_times() {
    let mut s = SessionState::new(100);
    let outcome = drive_task(true, &[false, false, false, false, true], &[], &[true], &mut s);
    assert_eq!(outcome, FragmentOutcome::FullOk);
    assert_eq!(s.good_fragments_loaded, 1);
}

#[test]
fn effects_land_exactly_once_per_step() {
    let mut s = SessionState::new(0);
    let fx = StepEffects {
        good_increment: true,
        error_increment: false,
        reset_errors: false,
        notify_failure: false,
        outcome: None,
    };
    s.apply_effects(&fx);
    s.apply_effects(&fx);
    assert_eq!(s.good_fragments_loaded, 2);
}

#[test]
fn fallback_waits_out_the_rest_of_the_cooldown() {
    assert_eq!(FALLBACK_COOLDOWN_SECONDS, 40);
    assert_eq!(fallback_wait_seconds(0), 40);
    assert_eq!(fallback_wait_seconds(12), 28);
    assert_eq!(fallback_wait_seconds(39), 1);
    assert_eq!(fallback_wait_seconds(40), 0);
    assert_eq!(fallback_wait_seconds(1000), 0);
}
