use codictate::overlay::{HoverFallbackRefresh, OverlayCursorIntent, OverlayHoverFallbackState, OverlayInputMode, OverlayInteractionState, OverlayMonitorSelectionReason, OverlayPosition, OverlayReadiness, OverlayState, clear_correcting_state, hide_after_aborted_recording, hide_after_transcription, hover_poll_step, is_correcting, is_overlay_active, mark_overlay_fully_ready, mark_overlay_listener_ready, onboarding_transcribing_hide_delay_remaining, overlay_position_label, record_input_mode_transition, refresh_hover_fallback, should_hide_overlay_after_aborted_recording_state, should_poll_hover_fallback};

#[test]
fn aborted_recording_hide_only_applies_to_pre_transcription_states() {
    assert!(should_hide_overlay_after_aborted_recording_state(
        OverlayState::Hidden
    ));
    assert!(should_hide_overlay_after_aborted_recording_state(
        OverlayState::Recording
    ));
    assert!(should_hide_overlay_after_aborted_recording_state(
        OverlayState::Connecting
    ));

    assert!(!should_hide_overlay_after_aborted_recording_state(
        OverlayState::Transcribing
    ));
    assert!(!should_hide_overlay_after_aborted_recording_state(
        OverlayState::Processing
    ));
    assert!(!should_hide_overlay_after_aborted_recording_state(
        OverlayState::Cancelling
    ));
    assert!(!should_hide_overlay_after_aborted_recording_state(
        OverlayState::Correcting
    ));
}

#[test]
fn clearing_correcting_state_only_touches_correcting() {
    let mut state = OverlayState::Correcting;
    assert!(is_correcting(state));
    clear_correcting_state(&mut state);
    assert_eq!(state, OverlayState::Hidden);
    assert!(!is_overlay_active(state));
    clear_correcting_state(&mut state);
    assert_eq!(state, OverlayState::Hidden);

    let mut recording = OverlayState::Recording;
    clear_correcting_state(&mut recording);
    assert_eq!(recording, OverlayState::Recording);
    assert!(is_overlay_active(recording));
}

#[test]
fn hide_after_transcription_spares_new_sessions() {
    for state in [OverlayState::Recording, OverlayState::Cancelling, OverlayState::Connecting] {
        let mut s = state;
        assert!(!hide_after_transcription(&mut s));
        assert_eq!(s, state);
    }
    for state in [OverlayState::Transcribing, OverlayState::Processing, OverlayState::Hidden, OverlayState::Correcting] {
        let mut s = state;
        assert!(hide_after_transcription(&mut s));
        assert_eq!(s, OverlayState::Hidden);
    }
    let mut s = OverlayState::Transcribing;
    assert!(!hide_after_aborted_recording(&mut s));
    assert_eq!(s, OverlayState::Transcribing);
    let mut r = OverlayState::Recording;
    assert!(hide_after_aborted_recording(&mut r));
    assert_eq!(r, OverlayState::Hidden);
}

#[test]
fn readiness_flags_and_replay() {
    let mut readiness = OverlayReadiness { ready: false, replay_ready: true };
    mark_overlay_listener_ready(&mut readiness);
    assert_eq!(readiness, OverlayReadiness { ready: true, replay_ready: false });
    assert_eq!(mark_overlay_fully_ready(&mut readiness, OverlayState::Transcribing), Some("transcribing"));
    assert_eq!(readiness, OverlayReadiness { ready: true, replay_ready: true });
    assert_eq!(mark_overlay_fully_ready(&mut readiness, OverlayState::Hidden), None);
}

#[test]
fn onboarding_delay_keeps_transcribing_overlay_visible() {
    assert_eq!(onboarding_transcribing_hide_delay_remaining(true, OverlayState::Transcribing, Some(100)), Some(250));
    assert_eq!(onboarding_transcribing_hide_delay_remaining(true, OverlayState::Transcribing, Some(350)), None);
    assert_eq!(onboarding_transcribing_hide_delay_remaining(false, OverlayState::Transcribing, Some(100)), None);
    assert_eq!(onboarding_transcribing_hide_delay_remaining(true, OverlayState::Processing, Some(100)), None);
    assert_eq!(onboarding_transcribing_hide_delay_remaining(true, OverlayState::Transcribing, None), None);
}

#[test]
fn overlay_labels() {
    assert_eq!(overlay_position_label(OverlayPosition::Top), "top");
    assert_eq!(overlay_position_label(OverlayPosition::Bottom), "bottom");
    assert_eq!(overlay_position_label(OverlayPosition::Off), "none");
    assert_eq!(OverlayInputMode::InteractiveUndo.as_str(), "interactive_undo");
    assert!(OverlayInputMode::InteractiveOperation.is_interactive());
    assert!(OverlayInputMode::Passthrough.is_passthrough());
    assert!(!OverlayInputMode::Passthrough.is_interactive());
    assert_eq!(
        OverlayMonitorSelectionReason::OnboardingActivationTargetWindow.as_str(),
        "onboarding_activation_target_window"
    );
}

#[test]
fn should_poll_hover_requires_interactive_visible_and_regions() {
    for on_macos in [true, false] {
        let mut state = OverlayHoverFallbackState::new();
        state.overlay_visible = true;
        assert!(!should_poll_hover_fallback(on_macos, OverlayInputMode::InteractiveOperation, &state));

        state.has_message_lane = true;
        if on_macos {
            assert!(should_poll_hover_fallback(on_macos, OverlayInputMode::InteractiveUndo, &state));
        } else {
            assert!(!should_poll_hover_fallback(on_macos, OverlayInputMode::InteractiveUndo, &state));
        }
        assert!(!should_poll_hover_fallback(on_macos, OverlayInputMode::Passthrough, &state));
    }
}

#[test]
fn input_mode_transitions_are_counted() {
    let mut state = OverlayInteractionState::default();
    assert_eq!(
        record_input_mode_transition(&mut state, OverlayInputMode::InteractiveUndo),
        (OverlayInputMode::Passthrough, 1)
    );
    assert_eq!(
        record_input_mode_transition(&mut state, OverlayInputMode::Passthrough),
        (OverlayInputMode::InteractiveUndo, 2)
    );
    assert_eq!(state.requested_mode, OverlayInputMode::Passthrough);
    state.transition_seq = u64::MAX;
    assert_eq!(record_input_mode_transition(&mut state, OverlayInputMode::Passthrough).1, u64::MAX);
}

#[test]
fn hover_fallback_starts_polls_and_stops() {
    let mut state = OverlayHoverFallbackState::new();
    state.overlay_visible = true;
    state.has_action_regions = true;
    let r = refresh_hover_fallback(&mut state, OverlayInputMode::InteractiveOperation, true);
    assert_eq!(
        r,
        HoverFallbackRefresh {
            polling_changed: Some(true),
            emit_hover_leave: false,
            emit_cursor_default: false,
            start_worker: true
        }
    );
    let events = hover_poll_step(&mut state, true, true).unwrap();
    assert!(events.emit_enter && !events.emit_leave);
    assert_eq!(events.cursor_intent, Some(OverlayCursorIntent::Pointer));
    assert_eq!(OverlayCursorIntent::Pointer.as_str(), "pointer");
    let again = hover_poll_step(&mut state, true, true).unwrap();
    assert!(!again.emit_enter && again.cursor_intent.is_none());
    let r = refresh_hover_fallback(&mut state, OverlayInputMode::Passthrough, true);
    assert_eq!(r.polling_changed, Some(false));
    assert!(r.emit_hover_leave && r.emit_cursor_default && !r.start_worker);
    assert!(!state.lane_hover_active && !state.pointer_intent_active && state.worker_started);
    assert_eq!(hover_poll_step(&mut state, false, false), None);
    let r = refresh_hover_fallback(&mut state, OverlayInputMode::InteractiveUndo, true);
    assert!(!r.start_worker);
}
