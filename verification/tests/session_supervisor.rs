use stream_mirror::pipeline::{
    command, step, PipelineCommand, PipelineEvent, PipelinePhase, StepEffects,
};
use stream_mirror::session::{SessionState, BUFFER_SIZE_IN_FRAGMENTS, MAX_CONSECUTIVE_ERRORS};
use stream_mirror::snapshot::SyncSnapshot;
use stream_mirror::sync::{decide, starts_session, ResyncMemory, SyncDecision};

#[test]
fn a_session_starts_with_clean_counters() {
    let s = SessionState::new(100);
    assert_eq!(s.active_fragment, 100);
    assert_eq!(s.good_fragments_loaded, 0);
    assert_eq!(s.consecutive_errors, 0);
    assert!(!s.mute_bot);
}

#[test]
fn each_tick_advances_the_active_fragment_by_one() {
    let mut s = SessionState::new(100);
    for expected in 100..110 {
        let t = s.tick();
        assert!(!t.terminate);
        assert_eq!(t.launch_fragment, expected);
        assert_eq!(t.persist_fragment, Some(expected));
        assert_eq!(s.active_fragment, expected + 1);
    }
}

#[test]
fn ticks_advance_regardless_of_task_outcomes() {
    let mut s = SessionState::new(0);
    // Interleave ticks with arbitrary counter traffic below the threshold.
    s.good_fragments_loaded = 7;
    assert_eq!(s.tick().launch_fragment, 0);
    s.consecutive_errors = 4;
    assert_eq!(s.tick().launch_fragment, 1);
    s.consecutive_errors = 0;
    assert_eq!(s.tick().launch_fragment, 2);
    assert_eq!(s.active_fragment, 3);
}

#[test]
fn interleaved_task_effects_never_disturb_the_tick_count() {
    fn land(good: bool, err: bool, reset: bool) -> StepEffects {
        StepEffects {
            good_increment: good,
            error_increment: err,
            reset_errors: reset,
            notify_failure: false,
            outcome: None,
        }
    }
    let mut s = SessionState::new(10);
    s.tick();
    s.apply_effects(&land(true, false, false));
    s.apply_effects(&land(false, true, false));
    s.tick();
    s.apply_effects(&land(false, true, false));
    s.apply_effects(&land(false, false, true));
    s.tick();
    // Three ticks, none of them at the error threshold: the active fragment
    // moved by exactly three.
    assert_eq!(s.active_fragment, 13);
    assert_eq!(s.good_fragments_loaded, 1);
    assert_eq!(s.consecutive_errors, 0);
}

#[test]
fn buffer_ready_fires_at_exactly_the_threshold_and_is_not_latched() {
    let mut s = SessionState::new(0);
    s.good_fragments_loaded = BUFFER_SIZE_IN_FRAGMENTS - 1;
    assert!(!s.tick().buffer_ready);
    s.good_fragments_loaded = BUFFER_SIZE_IN_FRAGMENTS;
    assert!(s.tick().buffer_ready);
    // Still exactly at the threshold: it fires again by design.
    assert!(s.tick().buffer_ready);
    s.good_fragments_loaded = BUFFER_SIZE_IN_FRAGMENTS + 1;
    assert!(!s.tick().buffer_ready);
}

#[test]
fn five_consecutive_errors_end_the_session_on_that_tick() {
    let mut s = SessionState::new(200);
    s.consecutive_errors = MAX_CONSECUTIVE_ERRORS - 1;
    let t = s.tick();
    assert!(!t.terminate);
    s.consecutive_errors = MAX_CONSECUTIVE_ERRORS;
    let t = s.tick();
    assert!(t.terminate);
    // The terminating tick still launched a task for the active fragment.
    assert_eq!(t.launch_fragment, 201);
    assert_eq!(t.persist_fragment, None);
    // Both counters are reset and in-flight tasks are muted.
    assert_eq!(s.consecutive_errors, 0);
    assert_eq!(s.good_fragments_loaded, 0);
    assert!(s.mute_bot);
    assert_eq!(s.active_fragment, 201);
}

#[test]
fn more_than_five_errors_also_terminate() {
    let mut s = SessionState::new(0);
    s.consecutive_errors = MAX_CONSECUTIVE_ERRORS + 3;
    assert!(s.tick().terminate);
}

/// One fragment task where every request succeeds, run to completion.
fn run_good_task(session: &mut SessionState) {
    let mute = session.mute_bot;
    let mut phase = PipelinePhase::CreateDir;
    loop {
        let event = match command(&phase) {
            PipelineCommand::TryCreateDir => PipelineEvent::DirResult { ok: true },
            PipelineCommand::TryDelta => PipelineEvent::DeltaResult { ok: true },
            PipelineCommand::AwaitFallbackCooldown => PipelineEvent::CooldownDone,
            PipelineCommand::TryFallback => PipelineEvent::FallbackResult { ok: true },
            PipelineCommand::TryFull => PipelineEvent::FullResult { ok: true },
            PipelineCommand::Stop => break,
        };
        let r = step(&phase, event, mute);
        session.apply_effects(&r.effects);
        phase = r.next;
    }
}

#[test]
fn a_fresh_snapshot_drives_fragments_in_tick_order() {
    // The accepted snapshot names fragment 100, storage from 90, a tick
    // every 2 seconds.
    let entries = vec![
        ("fragment".to_string(), 100),
        ("signup_fragment".to_string(), 90),
        ("keyframe_interval".to_string(), 2),
    ];
    let snapshot = SyncSnapshot::new(entries);
    let mut memory = ResyncMemory::new();
    let d = decide(&snapshot, &memory, None);
    assert!(starts_session(&d));
    let (initial_fragment, signup_fragment, keyframe_interval_seconds) = match d {
        SyncDecision::Fresh { initial_fragment, signup_fragment, keyframe_interval_seconds } => {
            (initial_fragment, signup_fragment, keyframe_interval_seconds)
        }
        _ => unreachable!(),
    };
    // The driver creates the signup directory and stores its start payload.
    assert_eq!(signup_fragment, 90);
    assert_eq!(keyframe_interval_seconds, 2);
    memory.apply(&d);

    // Fragments 100, 101, 102 are launched on successive ticks, each task
    // storing its delta and full payloads.
    let mut session = SessionState::new(initial_fragment);
    let mut launched = Vec::new();
    for _ in 0..3 {
        let t = session.tick();
        assert!(!t.terminate);
        launched.push(t.launch_fragment);
        run_good_task(&mut session);
    }
    assert_eq!(launched, vec![100, 101, 102]);
    assert_eq!(session.good_fragments_loaded, 3);
    assert_eq!(session.consecutive_errors, 0);
}
