//! Overlay state decisions: which overlay state is active or may be hidden, how the
//! readiness flags of the overlay webview change, the input mode transitions, the hover
//! fallback polling of interactive regions, and the labels used when logging.

use vstd::prelude::*;

verus! {

/// Why a monitor was chosen for the overlay.
#[derive(Clone, Copy, Debug, PartialEq, Eq, Structural)]
pub enum OverlayMonitorSelectionReason {
    ActiveCursorMonitor,
    FocusedAxWindow,
    CachedLastSuccessfulScreen,
    OnboardingActivationTargetWindow,
    FocusedMainWindow,
    MouseCursorMonitor,
    PrimaryFallback,
}

pub open spec fn selection_reason_label(r: OverlayMonitorSelectionReason) -> Seq<char> {
    match r {
        OverlayMonitorSelectionReason::ActiveCursorMonitor => "active_cursor_monitor"@,
        OverlayMonitorSelectionReason::FocusedAxWindow => "focused_ax_window"@,
        OverlayMonitorSelectionReason::CachedLastSuccessfulScreen => "cached_last_successful_screen"@,
        OverlayMonitorSelectionReason::OnboardingActivationTargetWindow => "onboarding_activation_target_window"@,
        OverlayMonitorSelectionReason::FocusedMainWindow => "focused_main_window"@,
        OverlayMonitorSelectionReason::MouseCursorMonitor => "mouse_cursor_monitor"@,
        OverlayMonitorSelectionReason::PrimaryFallback => "primary_fallback"@,
    }
}

impl OverlayMonitorSelectionReason {
    pub fn as_str(self) -> (r: &'static str)
        ensures
            r@ == selection_reason_label(self),
    {
        match self {
            OverlayMonitorSelectionReason::ActiveCursorMonitor => "active_cursor_monitor",
            OverlayMonitorSelectionReason::FocusedAxWindow => "focused_ax_window",
            OverlayMonitorSelectionReason::CachedLastSuccessfulScreen => "cached_last_successful_screen",
            OverlayMonitorSelectionReason::OnboardingActivationTargetWindow => "onboarding_activation_target_window",
            OverlayMonitorSelectionReason::FocusedMainWindow => "focused_main_window",
            OverlayMonitorSelectionReason::MouseCursorMonitor => "mouse_cursor_monitor",
            OverlayMonitorSelectionReason::PrimaryFallback => "primary_fallback",
        }
    }
}

/// Where the overlay is shown on the screen.
#[derive(Clone, Copy, Debug, PartialEq, Eq, Structural)]
pub enum OverlayPosition {
    Top,
    Bottom,
    /// No overlay is shown.
    Off,
}

pub open spec fn position_label(position: OverlayPosition) -> Seq<char> {
    match position {
        OverlayPosition::Top => "top"@,
        OverlayPosition::Bottom => "bottom"@,
        OverlayPosition::Off => "none"@,
    }
}

pub fn overlay_position_label(position: OverlayPosition) -> (r: &'static str)
    ensures
        r@ == position_label(position),
{
    match position {
        OverlayPosition::Top => "top",
        OverlayPosition::Bottom => "bottom",
        OverlayPosition::Off => "none",
    }
}

/// What the overlay currently shows.
#[derive(Clone, Copy, Debug, PartialEq, Eq, Structural)]
pub enum OverlayState {
    Hidden,
    Recording,
    Transcribing,
    Processing,
    Connecting,
    Cancelling,
    Correcting,
}

/// How the overlay window treats pointer input.
#[derive(Clone, Copy, Debug, PartialEq, Eq, Structural)]
pub enum OverlayInputMode {
    Passthrough,
    InteractiveOperation,
    InteractiveUndo,
}

pub open spec fn input_mode_label(mode: OverlayInputMode) -> Seq<char> {
    match mode {
        OverlayInputMode::Passthrough => "passthrough"@,
        OverlayInputMode::InteractiveOperation => "interactive_operation"@,
        OverlayInputMode::InteractiveUndo => "interactive_undo"@,
    }
}

impl OverlayInputMode {
    pub fn as_str(self) -> (r: &'static str)
        ensures
            r@ == input_mode_label(self),
    {
        match self {
            OverlayInputMode::Passthrough => "passthrough",
            OverlayInputMode::InteractiveOperation => "interactive_operation",
            OverlayInputMode::InteractiveUndo => "interactive_undo",
        }
    }

    pub fn is_interactive(self) -> (r: bool)
        ensures
            r == (self != OverlayInputMode::Passthrough),
    {
        !matches!(self, OverlayInputMode::Passthrough)
    }

    pub fn is_passthrough(self) -> (r: bool)
        ensures
            r == (self == OverlayInputMode::Passthrough),
    {
        matches!(self, OverlayInputMode::Passthrough)
    }
}

/// The overlay is in any active state (not hidden).
pub fn is_overlay_active(state: OverlayState) -> (r: bool)
    ensures
        r == (state != OverlayState::Hidden),
{
    !matches!(state, OverlayState::Hidden)
}

/// The overlay is showing a correction (Tab accepts, Esc dismisses).
pub fn is_correcting(state: OverlayState) -> (r: bool)
    ensures
        r == (state == OverlayState::Correcting),
{
    matches!(state, OverlayState::Correcting)
}

/// The state after clearing the correcting state: hidden if it was correcting, else as it
/// was.
pub open spec fn cleared(state: OverlayState) -> OverlayState {
    if state == OverlayState::Correcting {
        OverlayState::Hidden
    } else {
        state
    }
}

/// Clears the correcting state to hidden; any other state is left as it is.
pub fn clear_correcting_state(state: &mut OverlayState)
    ensures
        *final(state) == cleared(*old(state)),
{
    if matches!(*state, OverlayState::Correcting) {
        *state = OverlayState::Hidden;
    }
}

/// Whether the overlay webview can receive events: visibility events once its listeners
/// are attached, replay-sensitive ones once it signalled full readiness.
#[derive(Clone, Copy, Debug, PartialEq, Eq, Structural)]
pub struct OverlayReadiness {
    pub ready: bool,
    pub replay_ready: bool,
}

/// The overlay's core listeners are attached: visibility events may be sent; replay must
/// wait for full readiness.
pub fn mark_overlay_listener_ready(readiness: &mut OverlayReadiness)
    ensures
        final(readiness).ready,
        !final(readiness).replay_ready,
{
    readiness.ready = true;
    readiness.replay_ready = false;
}

/// The overlay signalled full readiness; returns the overlay name to show again, if any.
pub open spec fn replay_label(state: OverlayState) -> Option<Seq<char>> {
    match state {
        OverlayState::Hidden => None,
        OverlayState::Recording => Some("recording"@),
        OverlayState::Transcribing => Some("transcribing"@),
        OverlayState::Processing => Some("processing"@),
        OverlayState::Connecting => Some("connecting"@),
        OverlayState::Cancelling => Some("cancelling"@),
        OverlayState::Correcting => Some("correcting"@),
    }
}

/// Marks the overlay fully ready and names what it must show again: the current state,
/// unless the overlay is hidden.
pub fn mark_overlay_fully_ready(readiness: &mut OverlayReadiness, state: OverlayState) -> (r: Option<
    &'static str,
>)
    ensures
        final(readiness).ready && final(readiness).replay_ready,
        match replay_label(state) {
            Some(l) => r matches Some(x) && x@ == l,
            None => r is None,
        },
{
    readiness.ready = true;
    readiness.replay_ready = true;
    match state {
        OverlayState::Hidden => None,
        OverlayState::Recording => Some("recording"),
        OverlayState::Transcribing => Some("transcribing"),
        OverlayState::Processing => Some("processing"),
        OverlayState::Connecting => Some("connecting"),
        OverlayState::Cancelling => Some("cancelling"),
        OverlayState::Correcting => Some("correcting"),
    }
}

/// An overlay left behind by an aborted recording stop is hidden only before transcription
/// starts.
pub open spec fn hides_after_aborted_recording(state: OverlayState) -> bool {
    state == OverlayState::Hidden || state == OverlayState::Recording || state
        == OverlayState::Connecting
}

pub fn should_hide_overlay_after_aborted_recording_state(state: OverlayState) -> (r: bool)
    ensures
        r == hides_after_aborted_recording(state),
{
    matches!(state, OverlayState::Hidden | OverlayState::Recording | OverlayState::Connecting)
}

/// The state change of hiding after an aborted recording; returns whether the overlay is
/// hidden (the state was a pre-transcription one).
pub fn hide_after_aborted_recording(state: &mut OverlayState) -> (r: bool)
    ensures
        r == hides_after_aborted_recording(*old(state)),
        r ==> *final(state) == OverlayState::Hidden,
        !r ==> *final(state) == *old(state),
{
    if !should_hide_overlay_after_aborted_recording_state(*state) {
        return false;
    }
    *state = OverlayState::Hidden;
    true
}

/// After transcription the overlay is hidden unless a new session is active (recording,
/// connecting or cancelling).
pub open spec fn hides_after_transcription(state: OverlayState) -> bool {
    !(state == OverlayState::Recording || state == OverlayState::Cancelling || state
        == OverlayState::Connecting)
}

/// The state change of hiding after transcription; returns whether the overlay is hidden.
pub fn hide_after_transcription(state: &mut OverlayState) -> (r: bool)
    ensures
        r == hides_after_transcription(*old(state)),
        r ==> *final(state) == OverlayState::Hidden,
        !r ==> *final(state) == *old(state),
{
    match *state {
        OverlayState::Recording | OverlayState::Cancelling | OverlayState::Connecting => false,
        _ => {
            *state = OverlayState::Hidden;
            true
        },
    }
}

/// How long the transcribing overlay stays visible at least during onboarding, in ms.
pub const ONBOARDING_TRANSCRIBING_MIN_VISIBLE_MS: u64 = 350;

/// How much longer the onboarding transcribing overlay must stay visible before it may be
/// hidden, in ms: only during the onboarding paste step, while transcribing, and when it has
/// been shown for less than the minimum.
pub fn onboarding_transcribing_hide_delay_remaining(
    onboarding_paste_override: bool,
    state: OverlayState,
    shown_elapsed_ms: Option<u64>,
) -> (r: Option<u64>)
    ensures
        r == (if onboarding_paste_override && state == OverlayState::Transcribing
            && shown_elapsed_ms is Some && shown_elapsed_ms->0
            < ONBOARDING_TRANSCRIBING_MIN_VISIBLE_MS {
            Some((ONBOARDING_TRANSCRIBING_MIN_VISIBLE_MS - shown_elapsed_ms->0) as u64)
        } else {
            None
        }),
{
    if !onboarding_paste_override {
        return None;
    }
    if !matches!(state, OverlayState::Transcribing) {
        return None;
    }
    match shown_elapsed_ms {
        None => None,
        Some(elapsed) => {
            if elapsed >= ONBOARDING_TRANSCRIBING_MIN_VISIBLE_MS {
                None
            } else {
                Some(ONBOARDING_TRANSCRIBING_MIN_VISIBLE_MS - elapsed)
            }
        },
    }
}

/// Clearing the correcting state leaves the overlay not correcting, so a second clear
/// changes nothing (a Tab or Esc is handled once).
pub proof fn law_clear_correcting_once(s: OverlayState)
    ensures
        cleared(s) != OverlayState::Correcting,
        cleared(cleared(s)) == cleared(s),
{
}

/// The overlay's requested and effective input modes and the number of transitions made.
#[derive(Clone, Copy, Debug, PartialEq, Eq, Structural)]
pub struct OverlayInteractionState {
    pub requested_mode: OverlayInputMode,
    pub effective_mode: OverlayInputMode,
    pub transition_seq: u64,
}

impl Default for OverlayInteractionState {
    fn default() -> (r: Self)
        ensures
            r == (OverlayInteractionState {
                requested_mode: OverlayInputMode::Passthrough,
                effective_mode: OverlayInputMode::Passthrough,
                transition_seq: 0,
            }),
    {
        OverlayInteractionState {
            requested_mode: OverlayInputMode::Passthrough,
            effective_mode: OverlayInputMode::Passthrough,
            transition_seq: 0,
        }
    }
}

/// Records a transition to the requested input mode, which takes effect as requested; gives
/// the previous effective mode and the transition's number (which stops growing at the
/// largest `u64`).
pub fn record_input_mode_transition(
    state: &mut OverlayInteractionState,
    requested_mode: OverlayInputMode,
) -> (r: (OverlayInputMode, u64))
    ensures
        r.0 == old(state).effective_mode,
        *final(state) == (OverlayInteractionState {
            requested_mode,
            effective_mode: requested_mode,
            transition_seq: if old(state).transition_seq == u64::MAX {
                u64::MAX
            } else {
                (old(state).transition_seq + 1) as u64
            },
        }),
        r.1 == final(state).transition_seq,
{
    let previous = state.effective_mode;
    state.requested_mode = requested_mode;
    state.effective_mode = requested_mode;
    state.transition_seq = state.transition_seq.saturating_add(1);
    (previous, state.transition_seq)
}

/// What the hover fallback knows of the overlay: whether it is visible, whether it has a
/// message lane and action regions, whether the pointer is over the lane or an action, and
/// whether polling is on and its worker started.
#[derive(Clone, Copy, Debug, PartialEq, Eq, Structural)]
pub struct OverlayHoverFallbackState {
    pub overlay_visible: bool,
    pub has_message_lane: bool,
    pub has_action_regions: bool,
    pub lane_hover_active: bool,
    pub pointer_intent_active: bool,
    pub polling_active: bool,
    pub worker_started: bool,
}

impl OverlayHoverFallbackState {
    /// Nothing visible, nothing polled.
    pub fn new() -> (r: Self)
        ensures
            !r.overlay_visible && !r.has_message_lane && !r.has_action_regions
                && !r.lane_hover_active && !r.pointer_intent_active && !r.polling_active
                && !r.worker_started,
    {
        OverlayHoverFallbackState {
            overlay_visible: false,
            has_message_lane: false,
            has_action_regions: false,
            lane_hover_active: false,
            pointer_intent_active: false,
            polling_active: false,
            worker_started: false,
        }
    }
}

/// The pointer is polled on macOS while the overlay is interactive, visible, and has a
/// message lane or an action region.
pub open spec fn hover_polling_wanted(
    on_macos: bool,
    mode: OverlayInputMode,
    s: OverlayHoverFallbackState,
) -> bool {
    on_macos && mode != OverlayInputMode::Passthrough && s.overlay_visible && (s.has_message_lane
        || s.has_action_regions)
}

/// Whether the pointer should be polled.
pub fn should_poll_hover_fallback(
    on_macos: bool,
    effective_mode: OverlayInputMode,
    hover_state: &OverlayHoverFallbackState,
) -> (r: bool)
    ensures
        r == hover_polling_wanted(on_macos, effective_mode, *hover_state),
{
    if !on_macos {
        return false;
    }
    if !effective_mode.is_interactive() || !hover_state.overlay_visible {
        return false;
    }
    hover_state.has_message_lane || hover_state.has_action_regions
}

/// What a refresh of the hover fallback asks the app to do.
#[derive(Clone, Copy, Debug, PartialEq, Eq, Structural)]
pub struct HoverFallbackRefresh {
    /// Polling started (`true`) or stopped (`false`), if it changed.
    pub polling_changed: Option<bool>,
    /// Send the hover-leave event.
    pub emit_hover_leave: bool,
    /// Reset the cursor intent to the default one.
    pub emit_cursor_default: bool,
    /// Start the polling worker.
    pub start_worker: bool,
}

/// The hover fallback after a refresh: polling follows what is wanted; when polling stops,
/// a lane hover and a pointer intent in force end; the worker counts as started once
/// polling is wanted.
pub open spec fn refreshed_hover_state(
    s: OverlayHoverFallbackState,
    mode: OverlayInputMode,
    on_macos: bool,
) -> OverlayHoverFallbackState {
    let wanted = hover_polling_wanted(on_macos, mode, s);
    let stopping = s.polling_active && !wanted;
    OverlayHoverFallbackState {
        polling_active: wanted,
        lane_hover_active: s.lane_hover_active && !stopping,
        pointer_intent_active: s.pointer_intent_active && !stopping,
        worker_started: s.worker_started || wanted,
        ..s
    }
}

/// Brings polling in line with the input mode and the regions: when polling stops, a lane
/// hover and a pointer intent in force are ended; the worker is started the first time
/// polling is wanted.
pub fn refresh_hover_fallback(
    state: &mut OverlayHoverFallbackState,
    effective_mode: OverlayInputMode,
    on_macos: bool,
) -> (r: HoverFallbackRefresh)
    ensures
        ({
            let wanted = hover_polling_wanted(on_macos, effective_mode, *old(state));
            let stopping = old(state).polling_active && !wanted;
            &&& *final(state) == refreshed_hover_state(*old(state), effective_mode, on_macos)
            &&& r.polling_changed == if old(state).polling_active != wanted {
                Some(wanted)
            } else {
                None
            }
            &&& r.emit_hover_leave == (stopping && old(state).lane_hover_active)
            &&& r.emit_cursor_default == (stopping && old(state).pointer_intent_active)
            &&& r.start_worker == (wanted && !old(state).worker_started)
        }),
{
    let should_poll = should_poll_hover_fallback(on_macos, effective_mode, state);
    let mut r = HoverFallbackRefresh {
        polling_changed: None,
        emit_hover_leave: false,
        emit_cursor_default: false,
        start_worker: false,
    };
    if state.polling_active != should_poll {
        state.polling_active = should_poll;
        r.polling_changed = Some(should_poll);
        if !should_poll {
            r.emit_hover_leave = state.lane_hover_active;
            r.emit_cursor_default = state.pointer_intent_active;
            state.lane_hover_active = false;
            state.pointer_intent_active = false;
        }
    }
    if should_poll && !state.worker_started {
        state.worker_started = true;
        r.start_worker = true;
    }
    r
}

/// The cursor the overlay shows over its regions.
#[derive(Clone, Copy, Debug, PartialEq, Eq, Structural)]
pub enum OverlayCursorIntent {
    Pointer,
    Default,
}

impl OverlayCursorIntent {
    pub fn as_str(self) -> (r: &'static str)
        ensures
            r@ == (match self {
                OverlayCursorIntent::Pointer => "pointer"@,
                OverlayCursorIntent::Default => "default"@,
            }),
    {
        match self {
            OverlayCursorIntent::Pointer => "pointer",
            OverlayCursorIntent::Default => "default",
        }
    }
}

/// The events one poll of the pointer produces.
#[derive(Clone, Copy, Debug, PartialEq, Eq, Structural)]
pub struct HoverPollEvents {
    /// The pointer entered the message lane.
    pub emit_enter: bool,
    /// The pointer left the message lane.
    pub emit_leave: bool,
    /// The cursor intent changed to this one.
    pub cursor_intent: Option<OverlayCursorIntent>,
}

/// The hover fallback after a poll: while polling is on, the lane hover and the pointer
/// intent follow where the pointer is.
pub open spec fn polled_hover_state(
    s: OverlayHoverFallbackState,
    inside_lane: bool,
    inside_action: bool,
) -> OverlayHoverFallbackState {
    if s.polling_active {
        OverlayHoverFallbackState {
            lane_hover_active: inside_lane,
            pointer_intent_active: inside_action,
            ..s
        }
    } else {
        s
    }
}

/// One poll of the pointer, which is inside the message lane or not and over an action or
/// not; nothing happens while polling is off.
pub fn hover_poll_step(
    state: &mut OverlayHoverFallbackState,
    inside_lane: bool,
    inside_action: bool,
) -> (r: Option<HoverPollEvents>)
    ensures
        *final(state) == polled_hover_state(*old(state), inside_lane, inside_action),
        !old(state).polling_active ==> r is None,
        old(state).polling_active ==> r == Some(
            HoverPollEvents {
                emit_enter: inside_lane && !old(state).lane_hover_active,
                emit_leave: !inside_lane && old(state).lane_hover_active,
                cursor_intent: if old(state).pointer_intent_active == inside_action {
                    None
                } else if inside_action {
                    Some(OverlayCursorIntent::Pointer)
                } else {
                    Some(OverlayCursorIntent::Default)
                },
            },
        ),
{
    if !state.polling_active {
        return None;
    }
    let mut events = HoverPollEvents { emit_enter: false, emit_leave: false, cursor_intent: None };
    if state.lane_hover_active != inside_lane {
        state.lane_hover_active = inside_lane;
        if inside_lane {
            events.emit_enter = true;
        } else {
            events.emit_leave = true;
        }
    }
    if state.pointer_intent_active != inside_action {
        state.pointer_intent_active = inside_action;
        events.cursor_intent = Some(
            if inside_action {
                OverlayCursorIntent::Pointer
            } else {
                OverlayCursorIntent::Default
            },
        );
    }
    Some(events)
}

/// The hover fallback's invariant: no lane hover or pointer intent is in force while
/// polling is off.
pub open spec fn hover_state_consistent(s: OverlayHoverFallbackState) -> bool {
    !s.polling_active ==> !s.lane_hover_active && !s.pointer_intent_active
}

/// Refreshing and polling keep the hover fallback consistent, so a lane hover or a pointer
/// intent is only in force while polling is on; and once started, the polling worker stays
/// started, so it is started at most once.
pub proof fn law_hover_fallback_consistent(
    s: OverlayHoverFallbackState,
    mode: OverlayInputMode,
    on_macos: bool,
    inside_lane: bool,
    inside_action: bool,
)
    requires
        hover_state_consistent(s),
    ensures
        hover_state_consistent(refreshed_hover_state(s, mode, on_macos)),
        hover_state_consistent(polled_hover_state(s, inside_lane, inside_action)),
        s.worker_started ==> refreshed_hover_state(s, mode, on_macos).worker_started,
        polled_hover_state(s, inside_lane, inside_action).worker_started == s.worker_started,
{
}

} // verus!
