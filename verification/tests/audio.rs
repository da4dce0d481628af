use codictate::audio::{
    FIRST_PREPARE_TOKEN,
    StartAction,
    StartEvent,
    StartPhase,
    start_step,
    RecordingTimer,
    TimerTick,
    ModeChangeStreamAction,
    MuteTracker,
    cancel_recording_state,
    mode_change_stream_action,
    prepare_recording,
    stop_recording_state,
    MicrophoneMode,
    PrearmOwnership,
    PrepareToken,
    RecorderStartError,
    RecordingStartFailure,
    RecordingState,
    StartCommitMismatchOwner,
    StartFailureCleanupAction,
    StateMismatchKind,
    StreamOpenAttempt,
    StreamOpenContext,
    TopologyResolutionMode,
    WHISPER_SAMPLE_RATE,
    begin_prepare_cancellation,
    classify_open_attempt,
    classify_start_commit_mismatch,
    classify_start_failure_cleanup,
    classify_start_precondition,
    cleanup_failed_start,
    commit_mismatch_failure,
    commit_recording_start,
    device_cache_is_fresh,
    finalize_prepare_cancellation,
    map_recorder_start_error,
    padded_transcription_sample_count,
    resolve_topology,
    should_auto_close_prearm_stream,
    should_force_fresh_default_route_enumeration,
    should_stop_stream_for_start_cleanup,
    stopped_recording_durations,
};

#[test]
fn short_clip_padding_does_not_change_duration_fields() {
    let short_speech_samples = 8_000;
    let padded = padded_transcription_sample_count(short_speech_samples);
    let (speech_duration_ms, recording_duration_ms) =
        stopped_recording_durations(short_speech_samples, 1_500);

    assert_eq!(padded, WHISPER_SAMPLE_RATE * 5 / 4);
    assert_eq!(speech_duration_ms, 500);
    assert_eq!(recording_duration_ms, 1_500);
}

#[test]
fn speech_duration_is_clamped_to_recording_duration() {
    let speech_samples = 16_000;
    let (speech_duration_ms, recording_duration_ms) =
        stopped_recording_durations(speech_samples, 400);

    assert_eq!(speech_duration_ms, 400);
    assert_eq!(recording_duration_ms, 400);
}

#[test]
fn cleanup_classification_clears_matching_preparing_state() {
    let prepare_token: PrepareToken = 10;
    let state = RecordingState::Preparing {
        binding_id: "transcribe".to_string(),
        prepare_token,
    };
    let action = classify_start_failure_cleanup(&state, "transcribe", prepare_token);
    assert_eq!(
        action,
        StartFailureCleanupAction::ClearPreparingAndCloseStream
    );
}

#[test]
fn cleanup_classification_closes_stream_when_state_is_idle() {
    let action = classify_start_failure_cleanup(&RecordingState::Idle, "transcribe", 10);
    assert_eq!(action, StartFailureCleanupAction::CloseStream);
}

#[test]
fn cleanup_stream_policy_on_demand_allows_stream_teardown_actions() {
    assert!(should_stop_stream_for_start_cleanup(
        &MicrophoneMode::OnDemand,
        StartFailureCleanupAction::ClearPreparingAndCloseStream
    ));
    assert!(should_stop_stream_for_start_cleanup(
        &MicrophoneMode::OnDemand,
        StartFailureCleanupAction::CloseStream
    ));
    assert!(!should_stop_stream_for_start_cleanup(
        &MicrophoneMode::OnDemand,
        StartFailureCleanupAction::Noop
    ));
}

#[test]
fn cleanup_stream_policy_always_on_blocks_stream_teardown_actions() {
    assert!(!should_stop_stream_for_start_cleanup(
        &MicrophoneMode::AlwaysOn,
        StartFailureCleanupAction::ClearPreparingAndCloseStream
    ));
    assert!(!should_stop_stream_for_start_cleanup(
        &MicrophoneMode::AlwaysOn,
        StartFailureCleanupAction::CloseStream
    ));
    assert!(!should_stop_stream_for_start_cleanup(
        &MicrophoneMode::AlwaysOn,
        StartFailureCleanupAction::Noop
    ));
}

#[test]
fn default_route_requires_fresh_enumeration_without_monitor() {
    assert!(should_force_fresh_default_route_enumeration(
        Some("default"),
        false,
        Some(5),
        Some(5),
    ));
    assert!(should_force_fresh_default_route_enumeration(
        None,
        false,
        Some(5),
        Some(5),
    ));
}

#[test]
fn default_route_requires_fresh_enumeration_when_generation_changes() {
    assert!(should_force_fresh_default_route_enumeration(
        Some("default"),
        true,
        Some(4),
        Some(5),
    ));
    assert!(should_force_fresh_default_route_enumeration(
        Some("default"),
        true,
        None,
        Some(5),
    ));
}

#[test]
fn explicit_selection_does_not_force_fresh_default_route_policy() {
    assert!(!should_force_fresh_default_route_enumeration(
        Some("USB Mic"),
        false,
        None,
        None,
    ));
}

#[test]
fn prearm_autoclose_requires_owned_idle_on_demand_stream() {
    assert!(should_auto_close_prearm_stream(
        &MicrophoneMode::OnDemand,
        &RecordingState::Idle,
        false,
        true,
        true,
        Some(7),
        7,
    ));
    assert!(!should_auto_close_prearm_stream(
        &MicrophoneMode::OnDemand,
        &RecordingState::Idle,
        false,
        true,
        true,
        Some(7),
        8,
    ));
    assert!(!should_auto_close_prearm_stream(
        &MicrophoneMode::AlwaysOn,
        &RecordingState::Idle,
        false,
        true,
        true,
        Some(7),
        7,
    ));
    assert!(!should_auto_close_prearm_stream(
        &MicrophoneMode::OnDemand,
        &RecordingState::Recording {
            binding_id: "transcribe".to_string(),
            session_id: "session".to_string(),
        },
        true,
        true,
        true,
        Some(7),
        7,
    ));
}

#[test]
fn cleanup_classification_skips_when_other_work_is_active() {
    let preparing_other = RecordingState::Preparing {
        binding_id: "transcribe_handsfree".to_string(),
        prepare_token: 2,
    };
    let cancelling_other = RecordingState::CancellingPrepare {
        binding_id: "transcribe_handsfree".to_string(),
        prepare_token: 2,
    };
    let recording_other = RecordingState::Recording {
        binding_id: "transcribe_handsfree".to_string(),
        session_id: "abc12345".to_string(),
    };
    assert_eq!(
        classify_start_failure_cleanup(&preparing_other, "transcribe", 1),
        StartFailureCleanupAction::Noop
    );
    assert_eq!(
        classify_start_failure_cleanup(&cancelling_other, "transcribe", 1),
        StartFailureCleanupAction::Noop
    );
    assert_eq!(
        classify_start_failure_cleanup(&recording_other, "transcribe", 1),
        StartFailureCleanupAction::Noop
    );
}

#[test]
fn idle_mismatch_performs_self_cleanup() {
    let mismatch = classify_start_commit_mismatch(&RecordingState::Idle, "transcribe", 1)
        .expect("idle state should produce self-cancelled mismatch");
    assert_eq!(
        mismatch,
        (
            StateMismatchKind::IdleBeforeCommit,
            StartCommitMismatchOwner::SelfCancelled,
        )
    );
}

#[test]
fn commit_mismatch_with_other_owner_is_non_destructive() {
    let mismatch = classify_start_commit_mismatch(
        &RecordingState::Recording {
            binding_id: "transcribe_handsfree".to_string(),
            session_id: "abc12345".to_string(),
        },
        "transcribe",
        10,
    )
    .expect("different owner state should produce superseded mismatch");
    assert_eq!(mismatch.1, StartCommitMismatchOwner::SupersededByOther);
    match mismatch.0 {
        StateMismatchKind::StateChangedBeforeCommit { state } => {
            assert!(state.contains("Recording"));
        }
        other => panic!("unexpected mismatch kind: {other:?}"),
    }
}

#[test]
fn cleanup_classification_is_noop_when_same_binding_has_newer_prepare_token() {
    let state = RecordingState::Preparing {
        binding_id: "transcribe".to_string(),
        prepare_token: 11,
    };
    assert_eq!(
        classify_start_failure_cleanup(&state, "transcribe", 10),
        StartFailureCleanupAction::Noop
    );
}

#[test]
fn commit_mismatch_with_same_binding_and_different_token_is_other_owned() {
    let mismatch = classify_start_commit_mismatch(
        &RecordingState::Preparing {
            binding_id: "transcribe".to_string(),
            prepare_token: 11,
        },
        "transcribe",
        10,
    )
    .expect("different token must be treated as superseded");
    assert_eq!(mismatch.1, StartCommitMismatchOwner::SupersededByOther);
    assert_eq!(
        mismatch.0,
        StateMismatchKind::SupersededByNewPrepareToken {
            active_prepare_token: 11,
            requested_prepare_token: 10,
        }
    );
}

#[test]
fn recorder_start_error_mapping_preserves_timeout_variant() {
    let failure = map_recorder_start_error(
        RecorderStartError::CaptureReadyTimeout(500),
        StartFailureCleanupAction::ClearPreparingAndCloseStream,
    );
    assert_eq!(
        failure,
        RecordingStartFailure::CaptureReadyTimeout(500)
    );
}

#[test]
fn recorder_start_error_mapping_treats_unavailable_channel_as_recorder_unavailable() {
    let failure = map_recorder_start_error(
        RecorderStartError::CommandChannelUnavailable,
        StartFailureCleanupAction::Noop,
    );
    assert_eq!(failure, RecordingStartFailure::RecorderUnavailable);
}

#[test]
fn recorder_start_error_mapping_treats_superseded_start_as_abandoned() {
    let failure = map_recorder_start_error(
        RecorderStartError::SupersededByNewStart,
        StartFailureCleanupAction::ClearPreparingAndCloseStream,
    );
    assert_eq!(
        failure,
        RecordingStartFailure::StartAbandonedDueToSupersededState(
            "recorder_start_superseded_by_new_start".to_string()
        )
    );
}

#[test]
fn recorder_start_error_mapping_uses_start_command_failed_for_self_owned_worker_errors() {
    let failure = map_recorder_start_error(
        RecorderStartError::WorkerDisconnected,
        StartFailureCleanupAction::CloseStream,
    );
    match failure {
        RecordingStartFailure::StartCommandFailed(detail) => {
            assert!(detail.contains("disconnected"));
        }
        other => panic!("unexpected mapping for worker error: {other:?}"),
    }
}

#[test]
fn recorder_start_error_mapping_treats_worker_disconnect_as_abandoned_when_superseded() {
    let failure = map_recorder_start_error(
        RecorderStartError::WorkerDisconnected,
        StartFailureCleanupAction::Noop,
    );
    match failure {
        RecordingStartFailure::StartAbandonedDueToSupersededState(detail) => {
            assert!(detail.contains("disconnected"));
        }
        other => panic!("unexpected mapping for superseded worker disconnect: {other:?}"),
    }
}

#[test]
fn recorder_start_error_mapping_treats_send_failure_as_abandoned_when_superseded() {
    let failure = map_recorder_start_error(
        RecorderStartError::CommandSendFailed,
        StartFailureCleanupAction::Noop,
    );
    match failure {
        RecordingStartFailure::StartAbandonedDueToSupersededState(detail) => {
            assert!(detail.contains("Failed to send start command"));
        }
        other => panic!("unexpected mapping for superseded send failure: {other:?}"),
    }
}

#[test]
fn commit_mismatch_in_cancelling_prepare_is_self_owned() {
    let mismatch = classify_start_commit_mismatch(
        &RecordingState::CancellingPrepare {
            binding_id: "transcribe".to_string(),
            prepare_token: 11,
        },
        "transcribe",
        10,
    )
    .expect("cancelling state must reject stale commit as self-cancelled");
    assert_eq!(mismatch.1, StartCommitMismatchOwner::SelfCancelled);
    assert_eq!(
        mismatch.0,
        StateMismatchKind::CancellingPrepare {
            active_binding: "transcribe".to_string(),
            active_prepare_token: 11,
        }
    );
}

#[test]
fn begin_prepare_cancellation_moves_state_to_transient_and_finalize_returns_idle() {
    let mut state = RecordingState::Preparing {
        binding_id: "transcribe".to_string(),
        prepare_token: 42,
    };

    let cancelled = begin_prepare_cancellation(&mut state, Some("transcribe"))
        .expect("matching prepare should enter cancellation state");
    assert_eq!(cancelled, ("transcribe".to_string(), 42));
    assert!(matches!(
        state,
        RecordingState::CancellingPrepare {
            ref binding_id,
            prepare_token: 42,
        } if binding_id == "transcribe"
    ));

    assert!(finalize_prepare_cancellation(&mut state, "transcribe", 42));
    assert!(matches!(state, RecordingState::Idle));
}

#[test]
fn begin_prepare_cancellation_respects_binding_filter_and_blocks_reentry() {
    let mut state = RecordingState::Preparing {
        binding_id: "transcribe_handsfree".to_string(),
        prepare_token: 9,
    };

    assert_eq!(
        begin_prepare_cancellation(&mut state, Some("transcribe")),
        None,
        "different binding must not be cancelled"
    );
    assert_eq!(
        begin_prepare_cancellation(&mut state, Some("transcribe_handsfree")),
        Some(("transcribe_handsfree".to_string(), 9))
    );
    assert_eq!(
        begin_prepare_cancellation(&mut state, Some("transcribe_handsfree")),
        None,
        "cancellation is one-way until finalized"
    );
}

#[test]
fn superseded_start_then_cancelled_new_prepare_never_reverts_to_new_owner() {
    let mut state = RecordingState::Preparing {
        binding_id: "transcribe".to_string(),
        prepare_token: 11,
    };

    let stale_commit = classify_start_commit_mismatch(&state, "transcribe", 10)
        .expect("older token must be treated as superseded");
    assert_eq!(stale_commit.1, StartCommitMismatchOwner::SupersededByOther);

    let cancelled = begin_prepare_cancellation(&mut state, Some("transcribe"))
        .expect("stop during preparing should enter cancellation state");
    assert_eq!(cancelled.1, 11);

    let stale_commit_during_cancel = classify_start_commit_mismatch(&state, "transcribe", 10)
        .expect("stale commit must still be rejected during cancellation");
    assert_eq!(
        stale_commit_during_cancel.1,
        StartCommitMismatchOwner::SelfCancelled
    );

    assert!(finalize_prepare_cancellation(&mut state, "transcribe", 11));
    assert!(matches!(state, RecordingState::Idle));
}

#[test]
fn start_precondition_requires_own_prepare_phase() {
    let own = RecordingState::Preparing { binding_id: "transcribe".to_string(), prepare_token: 4 };
    assert_eq!(classify_start_precondition(&own, "transcribe", 4), None);
    assert_eq!(
        classify_start_precondition(&own, "transcribe", 3),
        Some(StateMismatchKind::SupersededByNewPrepareToken { active_prepare_token: 4, requested_prepare_token: 3 })
    );
    assert_eq!(
        classify_start_precondition(&own, "other", 4),
        Some(StateMismatchKind::PreparingForDifferentBinding { active_binding: "transcribe".to_string() })
    );
    assert_eq!(classify_start_precondition(&RecordingState::Idle, "transcribe", 4), Some(StateMismatchKind::IdleDuringPrepare));
    match classify_start_precondition(
        &RecordingState::Recording { binding_id: "b".to_string(), session_id: "s".to_string() },
        "transcribe",
        4,
    ) {
        Some(StateMismatchKind::UnexpectedState { state }) => assert!(state.contains("Recording")),
        other => panic!("unexpected precondition result: {other:?}"),
    }
}

#[test]
fn failed_start_clears_only_its_own_prepare_phase() {
    let mut state = RecordingState::Preparing { binding_id: "transcribe".to_string(), prepare_token: 4 };
    assert_eq!(cleanup_failed_start(&mut state, "transcribe", 4), StartFailureCleanupAction::ClearPreparingAndCloseStream);
    assert_eq!(state, RecordingState::Idle);
    let mut other = RecordingState::Preparing { binding_id: "transcribe".to_string(), prepare_token: 5 };
    assert_eq!(cleanup_failed_start(&mut other, "transcribe", 4), StartFailureCleanupAction::Noop);
    assert_eq!(other, RecordingState::Preparing { binding_id: "transcribe".to_string(), prepare_token: 5 });
}

#[test]
fn commit_records_only_from_own_prepare_phase() {
    let mut state = RecordingState::Preparing { binding_id: "transcribe".to_string(), prepare_token: 4 };
    assert_eq!(commit_recording_start(&mut state, "transcribe", "s1", 4), None);
    assert_eq!(state, RecordingState::Recording { binding_id: "transcribe".to_string(), session_id: "s1".to_string() });
    let mut idle = RecordingState::Idle;
    let mismatch = commit_recording_start(&mut idle, "transcribe", "s1", 4).expect("mismatch");
    assert_eq!(idle, RecordingState::Idle);
    assert_eq!(mismatch.1, StartCommitMismatchOwner::SelfCancelled);
    assert_eq!(commit_mismatch_failure(mismatch.0.clone(), mismatch.1), RecordingStartFailure::StateMismatch(mismatch.0));
    assert_eq!(
        commit_mismatch_failure(StateMismatchKind::IdleBeforeCommit, StartCommitMismatchOwner::SupersededByOther),
        RecordingStartFailure::StartAbandonedDueToSupersededState("state_idle_before_recording_commit".to_string())
    );
}

#[test]
fn topology_plan_uses_cache_unless_default_route_may_have_moved() {
    let plan = resolve_topology(Some(Some(5)), Some("USB Mic"), false, None);
    assert!(plan.use_cached_devices);
    assert_eq!(plan.mode, TopologyResolutionMode::Cache);
    assert_eq!(plan.reason, "explicit_selection_cache_hit");
    let confirmed = resolve_topology(Some(Some(5)), None, true, Some(5));
    assert_eq!((confirmed.use_cached_devices, confirmed.reason), (true, "default_route_confirmed"));
    let moved = resolve_topology(Some(Some(4)), None, true, Some(5));
    assert_eq!((moved.use_cached_devices, moved.mode, moved.reason), (false, TopologyResolutionMode::Fresh, "default_route_generation_changed"));
    let unmonitored = resolve_topology(Some(None), Some("default"), false, None);
    assert_eq!(unmonitored.reason, "default_route_monitor_unavailable");
    let miss = resolve_topology(None, Some("USB Mic"), true, Some(1));
    assert_eq!((miss.use_cached_devices, miss.reason), (false, "cache_miss_or_stale"));
    assert!(device_cache_is_fresh(600_000));
    assert!(!device_cache_is_fresh(600_001));
}

#[test]
fn open_attempts_retry_once_from_cached_topology() {
    assert_eq!(classify_open_attempt(true, false, Ok(()), true), StreamOpenAttempt::AlreadyOpen);
    assert_eq!(classify_open_attempt(false, false, Ok(()), true), StreamOpenAttempt::CancelledBeforeOpen);
    assert_eq!(classify_open_attempt(false, true, Ok(()), true), StreamOpenAttempt::Opened);
    assert_eq!(
        classify_open_attempt(false, true, Err("busy".to_string()), true),
        StreamOpenAttempt::RetryWithFreshTopology("busy".to_string())
    );
    assert_eq!(
        classify_open_attempt(false, true, Err("busy".to_string()), false),
        StreamOpenAttempt::Failed("busy".to_string())
    );
}

#[test]
fn prearm_ownership_is_exclusive() {
    let mut owner = PrearmOwnership::new();
    assert!(owner.open_allowed(StreamOpenContext::UserTriggered));
    assert!(!owner.open_allowed(StreamOpenContext::Prearm { owner_token: 0 }));
    assert!(owner.try_claim(7));
    assert!(!owner.try_claim(8));
    assert!(owner.open_allowed(StreamOpenContext::Prearm { owner_token: 7 }));
    assert!(!owner.open_allowed(StreamOpenContext::Prearm { owner_token: 8 }));
    assert!(!owner.release(8));
    assert!(owner.release(7));
    assert!(!owner.open_allowed(StreamOpenContext::Prearm { owner_token: 7 }));
    assert!(owner.try_claim(8));
}

#[test]
fn recording_lifecycle_prepare_commit_stop() {
    let mut state = RecordingState::Idle;
    let mut next: PrepareToken = 7;
    let token = prepare_recording(&mut state, &mut next, "transcribe").unwrap();
    assert_eq!(token, 7);
    assert_eq!(next, 8);
    assert_eq!(prepare_recording(&mut state, &mut next, "other"), None);
    assert_eq!(next, 8);
    assert!(commit_recording_start(&mut state, "transcribe", "s1", token).is_none());
    assert!(!stop_recording_state(&mut state, "other"));
    assert!(stop_recording_state(&mut state, "transcribe"));
    assert_eq!(state, RecordingState::Idle);
}

#[test]
fn prepare_tokens_wrap_around() {
    let mut state = RecordingState::Idle;
    let mut next: PrepareToken = u64::MAX;
    assert_eq!(prepare_recording(&mut state, &mut next, "b"), Some(u64::MAX));
    assert_eq!(next, 0);
}

#[test]
fn cancel_recording_only_ends_recordings() {
    let mut state = RecordingState::Recording { binding_id: "b".to_string(), session_id: "s".to_string() };
    assert!(cancel_recording_state(&mut state));
    assert_eq!(state, RecordingState::Idle);
    let mut preparing = RecordingState::Preparing { binding_id: "b".to_string(), prepare_token: 1 };
    assert!(!cancel_recording_state(&mut preparing));
}

#[test]
fn mode_changes_open_or_close_the_stream() {
    assert_eq!(
        mode_change_stream_action(MicrophoneMode::AlwaysOn, MicrophoneMode::OnDemand, true),
        ModeChangeStreamAction::Stop
    );
    assert_eq!(
        mode_change_stream_action(MicrophoneMode::AlwaysOn, MicrophoneMode::OnDemand, false),
        ModeChangeStreamAction::Keep
    );
    assert_eq!(
        mode_change_stream_action(MicrophoneMode::OnDemand, MicrophoneMode::AlwaysOn, false),
        ModeChangeStreamAction::Start
    );
    assert_eq!(
        mode_change_stream_action(MicrophoneMode::OnDemand, MicrophoneMode::OnDemand, true),
        ModeChangeStreamAction::Keep
    );
}

#[test]
fn only_our_mute_is_undone() {
    let mut t = MuteTracker::new();
    assert!(!t.apply(true, false));
    assert!(!t.remove());
    assert!(t.apply(true, true));
    assert!(t.remove());
    assert!(!t.remove());
}

#[test]
fn recording_timer_reports_warns_once_and_stops_at_the_limit() {
    let mut timer = RecordingTimer::new();
    let quiet = TimerTick { emit_time: false, warn_remaining: None, auto_stop: false };
    assert_eq!(timer.tick(0, 60), quiet);
    assert_eq!(timer.tick(1, 60), TimerTick { emit_time: true, warn_remaining: None, auto_stop: false });
    assert_eq!(timer.next_tick, 2);
    assert_eq!(timer.tick(1, 60), quiet);
    assert_eq!(timer.tick(30, 60), TimerTick { emit_time: true, warn_remaining: Some(30), auto_stop: false });
    assert!(timer.warned_at_30s);
    assert_eq!(timer.tick(31, 60), TimerTick { emit_time: true, warn_remaining: None, auto_stop: false });
    assert_eq!(timer.tick(60, 60), TimerTick { emit_time: true, warn_remaining: None, auto_stop: true });
}

#[test]
fn recording_timer_catches_up_after_a_late_wake_up() {
    let mut timer = RecordingTimer::new();
    assert_eq!(timer.tick(45, 40), TimerTick { emit_time: true, warn_remaining: None, auto_stop: true });
    let mut timer = RecordingTimer::new();
    assert_eq!(timer.tick(5, 30), TimerTick { emit_time: true, warn_remaining: Some(25), auto_stop: false });
    assert_eq!(timer.next_tick, 6);
}

#[test]
fn start_sequence_on_demand_happy_path() {
    let (p, a) = start_step(StartPhase::CheckingPrecondition, StartEvent::Precondition(None), true);
    assert_eq!((p, a), (StartPhase::CheckingMaintenance, StartAction::CheckMaintenance));
    let (p, a) = start_step(p, StartEvent::Maintenance { allowed: true }, true);
    assert_eq!((p, a), (StartPhase::OpeningStream, StartAction::OpenStream));
    let (p, a) = start_step(p, StartEvent::StreamOpened, true);
    assert_eq!((p, a), (StartPhase::AwaitingCaptureReady, StartAction::WaitForCaptureReady));
    let (p, a) = start_step(p, StartEvent::CaptureReady, true);
    assert_eq!((p, a), (StartPhase::Committing, StartAction::CommitStart));
    let (p, a) = start_step(p, StartEvent::Commit(None), true);
    assert_eq!((p, a), (StartPhase::Finished, StartAction::Started));
    assert_eq!(start_step(p, StartEvent::CaptureReady, true), (StartPhase::Finished, StartAction::Ignore));
}

#[test]
fn start_sequence_failures() {
    assert_eq!(
        start_step(StartPhase::CheckingMaintenance, StartEvent::Maintenance { allowed: true }, false),
        (StartPhase::AwaitingCaptureReady, StartAction::WaitForCaptureReady)
    );
    assert_eq!(
        start_step(StartPhase::CheckingMaintenance, StartEvent::Maintenance { allowed: false }, true),
        (StartPhase::Finished, StartAction::CleanUpAndFail(RecordingStartFailure::MaintenanceMode))
    );
    assert_eq!(
        start_step(StartPhase::OpeningStream, StartEvent::StreamOpenFailed("busy".to_string()), true),
        (StartPhase::Finished, StartAction::CleanUpAndFail(RecordingStartFailure::StreamOpenFailed("busy".to_string())))
    );
    assert_eq!(
        start_step(StartPhase::AwaitingCaptureReady, StartEvent::RecorderMissing, true),
        (StartPhase::Finished, StartAction::CleanUpAndFail(RecordingStartFailure::RecorderUnavailable))
    );
    assert_eq!(
        start_step(StartPhase::AwaitingCaptureReady, StartEvent::CaptureFailed(RecorderStartError::CaptureReadyTimeout(500)), true),
        (StartPhase::Finished, StartAction::CleanUpAndFailWith(RecorderStartError::CaptureReadyTimeout(500)))
    );
    assert_eq!(
        start_step(StartPhase::CheckingPrecondition, StartEvent::Precondition(Some(StateMismatchKind::IdleDuringPrepare)), true),
        (StartPhase::Finished, StartAction::Fail(RecordingStartFailure::StateMismatch(StateMismatchKind::IdleDuringPrepare)))
    );
    assert_eq!(
        start_step(
            StartPhase::Committing,
            StartEvent::Commit(Some((StateMismatchKind::IdleBeforeCommit, StartCommitMismatchOwner::SelfCancelled))),
            true
        ),
        (StartPhase::Finished, StartAction::StopRecorderAndFail(RecordingStartFailure::StateMismatch(StateMismatchKind::IdleBeforeCommit)))
    );
    assert_eq!(
        start_step(
            StartPhase::Committing,
            StartEvent::Commit(Some((StateMismatchKind::IdleBeforeCommit, StartCommitMismatchOwner::SupersededByOther))),
            true
        ),
        (StartPhase::Finished, StartAction::Abandon(StateMismatchKind::IdleBeforeCommit))
    );
    assert_eq!(
        start_step(StartPhase::OpeningStream, StartEvent::CaptureReady, true),
        (StartPhase::OpeningStream, StartAction::Ignore)
    );
}

#[test]
fn prepare_tokens_grow_from_the_first() {
    let mut next: PrepareToken = FIRST_PREPARE_TOKEN;
    let mut last = 0;
    for _ in 0..5 {
        let mut state = RecordingState::Idle;
        let t = prepare_recording(&mut state, &mut next, "b").unwrap();
        assert!(t >= 1 && t > last);
        last = t;
    }
    assert_eq!(last, 5);
}
