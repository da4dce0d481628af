//! Recording start state machine: the shared recording state, how a failed or stale
//! start is classified and cleaned up, and the stream policies around it.

use vstd::prelude::*;
use crate::text::{concat3, concat_str, decimal, eq_ignore_ascii_case, opt_str_view, str_eq_ignore_ascii_case, str_equals, string_from_chars, u64_to_decimal};

verus! {

pub type PrepareToken = u64;

/// Number of samples per second that transcription expects.
pub const WHISPER_SAMPLE_RATE: usize = 16000;

#[derive(Clone, Debug, PartialEq, Eq)]
pub enum RecordingState {
    Idle,
    Preparing { binding_id: String, prepare_token: PrepareToken },
    CancellingPrepare { binding_id: String, prepare_token: PrepareToken },
    Recording { binding_id: String, session_id: String },
}

#[derive(Clone, Copy, Debug, PartialEq, Eq, Structural)]
pub enum MicrophoneMode {
    AlwaysOn,
    OnDemand,
}

#[derive(Clone, Copy, Debug, Eq, PartialEq, Structural)]
pub enum RecordingPrearmSource {
    FnKeyDown,
    ShortcutStart,
}

impl RecordingPrearmSource {
    pub fn as_str(self) -> (r: &'static str)
        ensures
            r@ == (match self {
                RecordingPrearmSource::FnKeyDown => "fn_key_down"@,
                RecordingPrearmSource::ShortcutStart => "shortcut_start"@,
            }),
    {
        match self {
            RecordingPrearmSource::FnKeyDown => "fn_key_down",
            RecordingPrearmSource::ShortcutStart => "shortcut_start",
        }
    }
}

#[derive(Clone, Copy, Debug, Eq, PartialEq, Structural)]
pub enum StreamStartOutcome {
    AlreadyOpen,
    OpenedNow { stream_epoch: u64 },
    CancelledBeforeOpen,
}

#[derive(Clone, Copy, Debug, Eq, PartialEq, Structural)]
pub enum TopologyResolutionMode {
    Warm,
    Cache,
    Fresh,
}

impl TopologyResolutionMode {
    pub fn as_str(self) -> (r: &'static str)
        ensures
            r@ == (match self {
                TopologyResolutionMode::Warm => "warm"@,
                TopologyResolutionMode::Cache => "cache"@,
                TopologyResolutionMode::Fresh => "fresh"@,
            }),
    {
        match self {
            TopologyResolutionMode::Warm => "warm",
            TopologyResolutionMode::Cache => "cache",
            TopologyResolutionMode::Fresh => "fresh",
        }
    }
}

#[derive(Clone, Debug, Eq, PartialEq)]
pub struct StreamStartResult {
    pub outcome: StreamStartOutcome,
    pub resolution_mode: TopologyResolutionMode,
    pub resolution_reason: String,
}

#[derive(Clone, Debug, Eq, PartialEq)]
pub struct RecordingStartSuccess {
    pub capture_ready_latency_ms: u64,
    pub active_device_name: Option<String>,
}

#[derive(Clone, Copy, Debug, Eq, PartialEq, Structural)]
pub enum RecordingStartOwner {
    SelfOwned,
    OtherOwned,
}

impl RecordingStartOwner {
    pub fn as_str(self) -> (r: &'static str)
        ensures
            r@ == (match self {
                RecordingStartOwner::SelfOwned => "self"@,
                RecordingStartOwner::OtherOwned => "other"@,
            }),
    {
        match self {
            RecordingStartOwner::SelfOwned => "self",
            RecordingStartOwner::OtherOwned => "other",
        }
    }
}

#[derive(Clone, Debug, Eq, PartialEq)]
pub enum StateMismatchKind {
    PreparingForDifferentBinding { active_binding: String },
    SupersededByNewPrepareToken {
        active_prepare_token: PrepareToken,
        requested_prepare_token: PrepareToken,
    },
    IdleDuringPrepare,
    CancellingPrepare { active_binding: String, active_prepare_token: PrepareToken },
    UnexpectedState { state: String },
    IdleBeforeCommit,
    StateChangedBeforeCommit { state: String },
}

/// The diagnostic text of a state mismatch.
pub open spec fn mismatch_details(kind: StateMismatchKind) -> Seq<char> {
    match kind {
        StateMismatchKind::PreparingForDifferentBinding { active_binding } =>
            "preparing_for_different_binding:"@ + active_binding@,
        StateMismatchKind::SupersededByNewPrepareToken {
            active_prepare_token,
            requested_prepare_token,
        } => "prepare_token_superseded:active="@ + decimal(active_prepare_token as nat)
            + ",requested="@ + decimal(requested_prepare_token as nat),
        StateMismatchKind::IdleDuringPrepare => "state_idle_during_prepare"@,
        StateMismatchKind::CancellingPrepare { active_binding, active_prepare_token } =>
            "state_cancelling_prepare:binding="@ + active_binding@ + ",prepare_token="@ + decimal(
            active_prepare_token as nat),
        StateMismatchKind::UnexpectedState { state } => "unexpected_state:"@ + state@,
        StateMismatchKind::IdleBeforeCommit => "state_idle_before_recording_commit"@,
        StateMismatchKind::StateChangedBeforeCommit { state } =>
            "state_changed_before_recording_commit:"@ + state@,
    }
}

/// Whether the mismatch was caused by this start's own cancellation (not by another owner).
pub open spec fn mismatch_self_owned(kind: StateMismatchKind) -> bool {
    match kind {
        StateMismatchKind::IdleDuringPrepare
        | StateMismatchKind::CancellingPrepare { .. }
        | StateMismatchKind::IdleBeforeCommit => true,
        _ => false,
    }
}

fn decimal_string(n: u64) -> (r: String)
    ensures
        r@ == decimal(n as nat),
{
    string_from_chars(&u64_to_decimal(n))
}

impl StateMismatchKind {
    pub fn details(&self) -> (r: String)
        ensures
            r@ == mismatch_details(*self),
    {
        match self {
            StateMismatchKind::PreparingForDifferentBinding { active_binding } => concat_str(
                "preparing_for_different_binding:",
                active_binding.as_str(),
            ),
            StateMismatchKind::SupersededByNewPrepareToken {
                active_prepare_token,
                requested_prepare_token,
            } => {
                let a = decimal_string(*active_prepare_token);
                let r = decimal_string(*requested_prepare_token);
                let head = concat3("prepare_token_superseded:active=", a.as_str(), ",requested=");
                concat_str(head.as_str(), r.as_str())
            },
            StateMismatchKind::IdleDuringPrepare => "state_idle_during_prepare".to_owned(),
            StateMismatchKind::CancellingPrepare { active_binding, active_prepare_token } => {
                let t = decimal_string(*active_prepare_token);
                let head = concat3(
                    "state_cancelling_prepare:binding=",
                    active_binding.as_str(),
                    ",prepare_token=",
                );
                concat_str(head.as_str(), t.as_str())
            },
            StateMismatchKind::UnexpectedState { state } => concat_str(
                "unexpected_state:",
                state.as_str(),
            ),
            StateMismatchKind::IdleBeforeCommit => "state_idle_before_recording_commit".to_owned(),
            StateMismatchKind::StateChangedBeforeCommit { state } => concat_str(
                "state_changed_before_recording_commit:",
                state.as_str(),
            ),
        }
    }

    pub fn owner(&self) -> (r: RecordingStartOwner)
        ensures
            r == (if mismatch_self_owned(*self) {
                RecordingStartOwner::SelfOwned
            } else {
                RecordingStartOwner::OtherOwned
            }),
    {
        match self {
            StateMismatchKind::IdleDuringPrepare
            | StateMismatchKind::CancellingPrepare { .. }
            | StateMismatchKind::IdleBeforeCommit => RecordingStartOwner::SelfOwned,
            StateMismatchKind::PreparingForDifferentBinding { .. }
            | StateMismatchKind::SupersededByNewPrepareToken { .. }
            | StateMismatchKind::UnexpectedState { .. }
            | StateMismatchKind::StateChangedBeforeCommit { .. } => RecordingStartOwner::OtherOwned,
        }
    }

    pub fn should_cleanup_ui(&self) -> (r: bool)
        ensures
            r == mismatch_self_owned(*self),
    {
        match self {
            StateMismatchKind::IdleDuringPrepare
            | StateMismatchKind::CancellingPrepare { .. }
            | StateMismatchKind::IdleBeforeCommit => true,
            _ => false,
        }
    }
}

#[derive(Clone, Debug, Eq, PartialEq)]
pub enum RecordingStartFailure {
    StateMismatch(StateMismatchKind),
    StartAbandonedDueToSupersededState(String),
    MaintenanceMode,
    StreamOpenFailed(String),
    RecorderUnavailable,
    CaptureReadyTimeout(u64),
    StartCommandFailed(String),
}

/// The owner of a start failure.
pub open spec fn failure_owner(f: RecordingStartFailure) -> RecordingStartOwner {
    match f {
        RecordingStartFailure::StateMismatch(kind) => if mismatch_self_owned(kind) {
            RecordingStartOwner::SelfOwned
        } else {
            RecordingStartOwner::OtherOwned
        },
        RecordingStartFailure::StartAbandonedDueToSupersededState(_) =>
            RecordingStartOwner::OtherOwned,
        _ => RecordingStartOwner::SelfOwned,
    }
}

/// Whether a start failure leaves UI to clean up.
pub open spec fn failure_cleans_ui(f: RecordingStartFailure) -> bool {
    match f {
        RecordingStartFailure::StateMismatch(kind) => mismatch_self_owned(kind),
        RecordingStartFailure::StartAbandonedDueToSupersededState(_) => false,
        _ => true,
    }
}

/// The diagnostic text of a start failure.
pub open spec fn failure_details(f: RecordingStartFailure) -> Seq<char> {
    match f {
        RecordingStartFailure::StateMismatch(kind) => mismatch_details(kind),
        RecordingStartFailure::StartAbandonedDueToSupersededState(detail) => detail@,
        RecordingStartFailure::MaintenanceMode => "blocked_by_maintenance_mode"@,
        RecordingStartFailure::StreamOpenFailed(detail) => detail@,
        RecordingStartFailure::RecorderUnavailable => "recorder_not_initialized"@,
        RecordingStartFailure::CaptureReadyTimeout(timeout_ms) => "timeout_ms="@ + decimal(
            timeout_ms as nat,
        ),
        RecordingStartFailure::StartCommandFailed(detail) => detail@,
    }
}

impl RecordingStartFailure {
    pub fn label(&self) -> (r: &'static str)
        ensures
            r@ == (match *self {
                RecordingStartFailure::StateMismatch(_) => "state_mismatch"@,
                RecordingStartFailure::StartAbandonedDueToSupersededState(_) =>
                    "start_abandoned_superseded_state"@,
                RecordingStartFailure::MaintenanceMode => "maintenance_mode"@,
                RecordingStartFailure::StreamOpenFailed(_) => "stream_open_failed"@,
                RecordingStartFailure::RecorderUnavailable => "recorder_unavailable"@,
                RecordingStartFailure::CaptureReadyTimeout(_) => "capture_ready_timeout"@,
                RecordingStartFailure::StartCommandFailed(_) => "start_command_failed"@,
            }),
    {
        match self {
            RecordingStartFailure::StateMismatch(_) => "state_mismatch",
            RecordingStartFailure::StartAbandonedDueToSupersededState(_) =>
                "start_abandoned_superseded_state",
            RecordingStartFailure::MaintenanceMode => "maintenance_mode",
            RecordingStartFailure::StreamOpenFailed(_) => "stream_open_failed",
            RecordingStartFailure::RecorderUnavailable => "recorder_unavailable",
            RecordingStartFailure::CaptureReadyTimeout(_) => "capture_ready_timeout",
            RecordingStartFailure::StartCommandFailed(_) => "start_command_failed",
        }
    }

    pub fn details(&self) -> (r: String)
        ensures
            r@ == failure_details(*self),
    {
        match self {
            RecordingStartFailure::StateMismatch(kind) => kind.details(),
            RecordingStartFailure::StartAbandonedDueToSupersededState(detail) => detail.clone(),
            RecordingStartFailure::MaintenanceMode => "blocked_by_maintenance_mode".to_owned(),
            RecordingStartFailure::StreamOpenFailed(detail) => detail.clone(),
            RecordingStartFailure::RecorderUnavailable => "recorder_not_initialized".to_owned(),
            RecordingStartFailure::CaptureReadyTimeout(timeout_ms) => {
                let n = decimal_string(*timeout_ms);
                concat_str("timeout_ms=", n.as_str())
            },
            RecordingStartFailure::StartCommandFailed(detail) => detail.clone(),
        }
    }

    pub fn owner(&self) -> (r: RecordingStartOwner)
        ensures
            r == failure_owner(*self),
    {
        match self {
            RecordingStartFailure::StateMismatch(kind) => kind.owner(),
            RecordingStartFailure::StartAbandonedDueToSupersededState(_) =>
                RecordingStartOwner::OtherOwned,
            RecordingStartFailure::MaintenanceMode
            | RecordingStartFailure::StreamOpenFailed(_)
            | RecordingStartFailure::RecorderUnavailable
            | RecordingStartFailure::CaptureReadyTimeout(_)
            | RecordingStartFailure::StartCommandFailed(_) => RecordingStartOwner::SelfOwned,
        }
    }

    pub fn should_cleanup_ui(&self) -> (r: bool)
        ensures
            r == failure_cleans_ui(*self),
    {
        match self {
            RecordingStartFailure::StateMismatch(kind) => kind.should_cleanup_ui(),
            RecordingStartFailure::StartAbandonedDueToSupersededState(_) => false,
            RecordingStartFailure::MaintenanceMode
            | RecordingStartFailure::StreamOpenFailed(_)
            | RecordingStartFailure::RecorderUnavailable
            | RecordingStartFailure::CaptureReadyTimeout(_)
            | RecordingStartFailure::StartCommandFailed(_) => true,
        }
    }
}

/// A start failure cleans UI up exactly when the failure is the starter's own.
pub proof fn law_failure_cleanup_follows_ownership(f: RecordingStartFailure)
    ensures
        failure_cleans_ui(f) <==> failure_owner(f) == RecordingStartOwner::SelfOwned,
{
}

#[derive(Clone, Debug, Eq, PartialEq)]
pub enum RecordingStartOutcome {
    Started(RecordingStartSuccess),
    Failed(RecordingStartFailure),
}

#[derive(Clone, Copy, Debug, Eq, PartialEq, Structural)]
pub enum StartFailureCleanupAction {
    ClearPreparingAndCloseStream,
    CloseStream,
    Noop,
}

#[derive(Clone, Copy, Debug, Eq, PartialEq, Structural)]
pub enum StartCommitMismatchOwner {
    SelfCancelled,
    SupersededByOther,
}

impl StartCommitMismatchOwner {
    pub fn as_str(self) -> (r: &'static str)
        ensures
            r@ == (match self {
                StartCommitMismatchOwner::SelfCancelled => "self"@,
                StartCommitMismatchOwner::SupersededByOther => "other"@,
            }),
    {
        match self {
            StartCommitMismatchOwner::SelfCancelled => "self",
            StartCommitMismatchOwner::SupersededByOther => "other",
        }
    }
}

/// Why the audio recorder could not start capturing.
#[derive(Clone, Copy, Debug, Eq, PartialEq, Structural)]
pub enum RecorderStartError {
    CaptureReadyTimeout(u64),
    SupersededByNewStart,
    CommandChannelUnavailable,
    CommandSendFailed,
    WorkerDisconnected,
    UnexpectedAcknowledgement,
}

/// The message of a recorder start error.
pub open spec fn recorder_error_message(err: RecorderStartError) -> Seq<char> {
    match err {
        RecorderStartError::CaptureReadyTimeout(ms) => "Timed out waiting for capture to become ready after "@
            + decimal(ms as nat) + " ms"@,
        RecorderStartError::SupersededByNewStart => "Recorder start superseded by a new start"@,
        RecorderStartError::CommandChannelUnavailable => "Recorder command channel unavailable"@,
        RecorderStartError::CommandSendFailed => "Failed to send start command to recorder"@,
        RecorderStartError::WorkerDisconnected => "Recorder worker disconnected"@,
        RecorderStartError::UnexpectedAcknowledgement => "Unexpected acknowledgement from recorder"@,
    }
}

impl RecorderStartError {
    pub fn message(&self) -> (r: String)
        ensures
            r@ == recorder_error_message(*self),
    {
        match self {
            RecorderStartError::CaptureReadyTimeout(ms) => {
                let n = decimal_string(*ms);
                concat3("Timed out waiting for capture to become ready after ", n.as_str(), " ms")
            },
            RecorderStartError::SupersededByNewStart => "Recorder start superseded by a new start".to_owned(),
            RecorderStartError::CommandChannelUnavailable => "Recorder command channel unavailable".to_owned(),
            RecorderStartError::CommandSendFailed => "Failed to send start command to recorder".to_owned(),
            RecorderStartError::WorkerDisconnected => "Recorder worker disconnected".to_owned(),
            RecorderStartError::UnexpectedAcknowledgement => "Unexpected acknowledgement from recorder".to_owned(),
        }
    }
}

/// The `Debug` text of a string (quoted and escaped), as `format!("{:?}", s)` writes it (named).
pub uninterp spec fn debug_quoted(s: Seq<char>) -> Seq<char>;

/// Calls `format!("{:?}", s)` on a string slice; the result is the named `debug_quoted`.
#[verifier::external_body]
fn debug_quote(s: &str) -> (r: String)
    ensures
        r@ == debug_quoted(s@),
{
    format!("{:?}", s)
}

/// The `Debug` text of a recording state.
pub open spec fn state_debug_text(state: RecordingState) -> Seq<char> {
    match state {
        RecordingState::Idle => "Idle"@,
        RecordingState::Preparing { binding_id, prepare_token } => "Preparing { binding_id: "@
            + debug_quoted(binding_id@) + ", prepare_token: "@ + decimal(prepare_token as nat)
            + " }"@,
        RecordingState::CancellingPrepare { binding_id, prepare_token } =>
            "CancellingPrepare { binding_id: "@ + debug_quoted(binding_id@) + ", prepare_token: "@
            + decimal(prepare_token as nat) + " }"@,
        RecordingState::Recording { binding_id, session_id } => "Recording { binding_id: "@
            + debug_quoted(binding_id@) + ", session_id: "@ + debug_quoted(session_id@) + " }"@,
    }
}

impl RecordingState {
    /// The `Debug` text of the state.
    pub fn debug_text(&self) -> (r: String)
        ensures
            r@ == state_debug_text(*self),
    {
        match self {
            RecordingState::Idle => "Idle".to_owned(),
            RecordingState::Preparing { binding_id, prepare_token } => {
                let q = debug_quote(binding_id.as_str());
                let t = decimal_string(*prepare_token);
                let a = concat3("Preparing { binding_id: ", q.as_str(), ", prepare_token: ");
                concat3(a.as_str(), t.as_str(), " }")
            },
            RecordingState::CancellingPrepare { binding_id, prepare_token } => {
                let q = debug_quote(binding_id.as_str());
                let t = decimal_string(*prepare_token);
                let a = concat3("CancellingPrepare { binding_id: ", q.as_str(), ", prepare_token: ");
                concat3(a.as_str(), t.as_str(), " }")
            },
            RecordingState::Recording { binding_id, session_id } => {
                let q = debug_quote(binding_id.as_str());
                let q2 = debug_quote(session_id.as_str());
                let a = concat3("Recording { binding_id: ", q.as_str(), ", session_id: ");
                concat3(a.as_str(), q2.as_str(), " }")
            },
        }
    }
}

/// The cleanup that a failed start owes, given the state it finds.
pub open spec fn cleanup_for(state: RecordingState, binding_id: Seq<char>, token: PrepareToken) -> StartFailureCleanupAction {
    match state {
        RecordingState::Preparing { binding_id: b, prepare_token: t } => if b@ == binding_id && t
            == token {
            StartFailureCleanupAction::ClearPreparingAndCloseStream
        } else {
            StartFailureCleanupAction::Noop
        },
        RecordingState::Idle => StartFailureCleanupAction::CloseStream,
        _ => StartFailureCleanupAction::Noop,
    }
}

/// Whether the state is the prepare phase of exactly this start.
fn is_own_prepare(binding: &String, token: PrepareToken, binding_id: &str, prepare_token: PrepareToken) -> (r: bool)
    ensures
        r == (binding@ == binding_id@ && token == prepare_token),
{
    str_equals(binding.as_str(), binding_id) && token == prepare_token
}

pub fn classify_start_failure_cleanup(
    state: &RecordingState,
    binding_id: &str,
    prepare_token: PrepareToken,
) -> (r: StartFailureCleanupAction)
    ensures
        r == cleanup_for(*state, binding_id@, prepare_token),
{
    match state {
        RecordingState::Preparing { binding_id: active_binding, prepare_token: active_prepare_token } => {
            if is_own_prepare(active_binding, *active_prepare_token, binding_id, prepare_token) {
                StartFailureCleanupAction::ClearPreparingAndCloseStream
            } else {
                StartFailureCleanupAction::Noop
            }
        },
        RecordingState::Idle => StartFailureCleanupAction::CloseStream,
        RecordingState::CancellingPrepare { .. } | RecordingState::Recording { .. } =>
            StartFailureCleanupAction::Noop,
    }
}

/// Stream teardown after a failed start: only on-demand microphones, and only when the
/// cleanup closes the stream.
pub open spec fn stops_stream(mode: MicrophoneMode, action: StartFailureCleanupAction) -> bool {
    mode == MicrophoneMode::OnDemand && action != StartFailureCleanupAction::Noop
}

pub fn should_stop_stream_for_start_cleanup(
    mode: &MicrophoneMode,
    cleanup_action: StartFailureCleanupAction,
) -> (r: bool)
    ensures
        r == stops_stream(*mode, cleanup_action),
{
    let on_demand = match mode {
        MicrophoneMode::OnDemand => true,
        MicrophoneMode::AlwaysOn => false,
    };
    let closes = match cleanup_action {
        StartFailureCleanupAction::ClearPreparingAndCloseStream
        | StartFailureCleanupAction::CloseStream => true,
        StartFailureCleanupAction::Noop => false,
    };
    on_demand && closes
}

/// An always-on microphone stream is never torn down by start cleanup.
pub proof fn law_always_on_stream_survives_cleanup(action: StartFailureCleanupAction)
    ensures
        !stops_stream(MicrophoneMode::AlwaysOn, action),
{
}

/// Whether an idle on-demand stream that the owner opened (in the current epoch) should close.
pub open spec fn auto_closes(
    mode: MicrophoneMode,
    state: RecordingState,
    is_recording: bool,
    is_open: bool,
    opened_by_owner: bool,
    opened_stream_epoch: Option<u64>,
    active_stream_epoch: u64,
) -> bool {
    &&& mode == MicrophoneMode::OnDemand
    &&& state is Idle
    &&& !is_recording
    &&& is_open
    &&& opened_by_owner
    &&& opened_stream_epoch matches Some(epoch) && epoch != 0 && epoch == active_stream_epoch
}

pub fn should_auto_close_owned_warm_stream(
    mode: &MicrophoneMode,
    state: &RecordingState,
    is_recording: bool,
    is_open: bool,
    opened_by_owner: bool,
    opened_stream_epoch: Option<u64>,
    active_stream_epoch: u64,
) -> (r: bool)
    ensures
        r == auto_closes(
            *mode,
            *state,
            is_recording,
            is_open,
            opened_by_owner,
            opened_stream_epoch,
            active_stream_epoch,
        ),
{
    let on_demand = match mode {
        MicrophoneMode::OnDemand => true,
        MicrophoneMode::AlwaysOn => false,
    };
    let idle = match state {
        RecordingState::Idle => true,
        _ => false,
    };
    let epoch_matches = match opened_stream_epoch {
        Some(epoch) => epoch != 0 && epoch == active_stream_epoch,
        None => false,
    };
    on_demand && idle && !is_recording && is_open && opened_by_owner && epoch_matches
}

pub fn should_auto_close_prearm_stream(
    mode: &MicrophoneMode,
    state: &RecordingState,
    is_recording: bool,
    is_open: bool,
    opened_by_prearm: bool,
    opened_stream_epoch: Option<u64>,
    active_stream_epoch: u64,
) -> (r: bool)
    ensures
        r == auto_closes(
            *mode,
            *state,
            is_recording,
            is_open,
            opened_by_prearm,
            opened_stream_epoch,
            active_stream_epoch,
        ),
{
    should_auto_close_owned_warm_stream(
        mode,
        state,
        is_recording,
        is_open,
        opened_by_prearm,
        opened_stream_epoch,
        active_stream_epoch,
    )
}

/// A selection names a specific microphone unless it is absent or `default` (any ASCII case).
pub open spec fn explicit_selection(selection: Option<Seq<char>>) -> bool {
    match selection {
        Some(name) => !eq_ignore_ascii_case(name, "default"@),
        None => false,
    }
}

pub fn is_explicit_microphone_selection(selection: Option<&str>) -> (r: bool)
    ensures
        r == explicit_selection(match selection {
            Some(s) => Some(s@),
            None => None,
        }),
{
    match selection {
        Some(name) => !str_eq_ignore_ascii_case(name, "default"),
        None => false,
    }
}

pub fn active_selection_for_cache_policy<'a>(
    selected_microphone: Option<&'a str>,
    clamshell_microphone: Option<&'a str>,
    clamshell_selection_active: bool,
) -> (r: Option<&'a str>)
    ensures
        r == (if clamshell_selection_active {
            clamshell_microphone
        } else {
            selected_microphone
        }),
{
    if clamshell_selection_active {
        return clamshell_microphone;
    }
    selected_microphone
}

/// Whether the default input route must be enumerated afresh: never for an explicit
/// microphone; always without a route monitor; otherwise when the cached route
/// generation is missing or stale.
pub open spec fn forces_fresh_enumeration(
    selection: Option<Seq<char>>,
    route_monitor_active: bool,
    cached_route_generation: Option<u64>,
    current_route_generation: Option<u64>,
) -> bool {
    if explicit_selection(selection) {
        false
    } else if !route_monitor_active {
        true
    } else {
        match (cached_route_generation, current_route_generation) {
            (Some(cached), Some(current)) => cached != current,
            _ => true,
        }
    }
}

pub fn should_force_fresh_default_route_enumeration(
    active_selected_microphone: Option<&str>,
    route_monitor_active: bool,
    cached_route_generation: Option<u64>,
    current_route_generation: Option<u64>,
) -> (r: bool)
    ensures
        r == forces_fresh_enumeration(
            match active_selected_microphone {
                Some(s) => Some(s@),
                None => None,
            },
            route_monitor_active,
            cached_route_generation,
            current_route_generation,
        ),
{
    if is_explicit_microphone_selection(active_selected_microphone) {
        return false;
    }
    if !route_monitor_active {
        return true;
    }
    match (cached_route_generation, current_route_generation) {
        (Some(cached), Some(current)) => cached != current,
        _ => true,
    }
}

pub fn map_recorder_start_error(
    err: RecorderStartError,
    cleanup_action: StartFailureCleanupAction,
) -> (r: RecordingStartFailure)
    ensures
        match err {
            RecorderStartError::CaptureReadyTimeout(ms) => r
                == RecordingStartFailure::CaptureReadyTimeout(ms),
            RecorderStartError::SupersededByNewStart => r matches RecordingStartFailure::StartAbandonedDueToSupersededState(d)
                && d@ == "recorder_start_superseded_by_new_start"@,
            RecorderStartError::CommandChannelUnavailable => r
                == RecordingStartFailure::RecorderUnavailable,
            RecorderStartError::CommandSendFailed | RecorderStartError::WorkerDisconnected =>
                if cleanup_action == StartFailureCleanupAction::Noop {
                r matches RecordingStartFailure::StartAbandonedDueToSupersededState(d) && d@
                    == recorder_error_message(err)
            } else {
                r matches RecordingStartFailure::StartCommandFailed(d) && d@
                    == recorder_error_message(err)
            },
            RecorderStartError::UnexpectedAcknowledgement => r matches RecordingStartFailure::StartCommandFailed(d)
                && d@ == recorder_error_message(err),
        },
{
    match err {
        RecorderStartError::CaptureReadyTimeout(timeout) => RecordingStartFailure::CaptureReadyTimeout(
            timeout,
        ),
        RecorderStartError::SupersededByNewStart => RecordingStartFailure::StartAbandonedDueToSupersededState(
            "recorder_start_superseded_by_new_start".to_owned(),
        ),
        RecorderStartError::CommandChannelUnavailable => RecordingStartFailure::RecorderUnavailable,
        RecorderStartError::CommandSendFailed | RecorderStartError::WorkerDisconnected => {
            if cleanup_action == StartFailureCleanupAction::Noop {
                RecordingStartFailure::StartAbandonedDueToSupersededState(err.message())
            } else {
                RecordingStartFailure::StartCommandFailed(err.message())
            }
        },
        RecorderStartError::UnexpectedAcknowledgement => RecordingStartFailure::StartCommandFailed(
            err.message(),
        ),
    }
}

/// Whose doing it is that a start may not commit into the recording state it finds;
/// `None` when the state is still this start's own prepare phase.
pub open spec fn commit_mismatch_owner(state: RecordingState, binding_id: Seq<char>, token: PrepareToken) -> Option<
    StartCommitMismatchOwner,
> {
    match state {
        RecordingState::Preparing { binding_id: b, prepare_token: t } => if b@ == binding_id && t
            == token {
            None
        } else {
            Some(StartCommitMismatchOwner::SupersededByOther)
        },
        RecordingState::CancellingPrepare { .. } => Some(StartCommitMismatchOwner::SelfCancelled),
        RecordingState::Idle => Some(StartCommitMismatchOwner::SelfCancelled),
        RecordingState::Recording { .. } => Some(StartCommitMismatchOwner::SupersededByOther),
    }
}

/// `r` is what a commit finds wrong with the state: `None` for this start's own prepare
/// phase, else the mismatch and who caused it.
pub open spec fn is_commit_mismatch(
    state: RecordingState,
    binding_id: Seq<char>,
    token: PrepareToken,
    r: Option<(StateMismatchKind, StartCommitMismatchOwner)>,
) -> bool {
    &&& match state {
            RecordingState::Preparing { binding_id: b, prepare_token: t } => if b@ == binding_id {
                if t == token {
                    r is None
                } else {
                    r == Some(
                        (
                            StateMismatchKind::SupersededByNewPrepareToken {
                                active_prepare_token: t,
                                requested_prepare_token: token,
                            },
                            StartCommitMismatchOwner::SupersededByOther,
                        ),
                    )
                }
            } else {
                r matches Some((StateMismatchKind::StateChangedBeforeCommit { state: d }, o)) && d@
                    == state_debug_text(state) && o == StartCommitMismatchOwner::SupersededByOther
            },
            RecordingState::CancellingPrepare { binding_id: b, prepare_token: t } => r matches Some(
                (StateMismatchKind::CancellingPrepare { active_binding: a, active_prepare_token: at }, o),
            ) && a@ == b@ && at == t && o == StartCommitMismatchOwner::SelfCancelled,
            RecordingState::Idle => r == Some(
                (StateMismatchKind::IdleBeforeCommit, StartCommitMismatchOwner::SelfCancelled),
            ),
            RecordingState::Recording { .. } => r matches Some(
                (StateMismatchKind::StateChangedBeforeCommit { state: d }, o),
            ) && d@ == state_debug_text(state) && o == StartCommitMismatchOwner::SupersededByOther,
        }
    &&& match r {
            Some((_, o)) => commit_mismatch_owner(state, binding_id, token) == Some(o),
            None => commit_mismatch_owner(state, binding_id, token) is None,
        }
}

pub fn classify_start_commit_mismatch(
    state: &RecordingState,
    binding_id: &str,
    prepare_token: PrepareToken,
) -> (r: Option<(StateMismatchKind, StartCommitMismatchOwner)>)
    ensures
        is_commit_mismatch(*state, binding_id@, prepare_token, r),
{
    match state {
        RecordingState::Preparing { binding_id: active_binding, prepare_token: active_prepare_token } => {
            if str_equals(active_binding.as_str(), binding_id) {
                if *active_prepare_token == prepare_token {
                    None
                } else {
                    Some(
                        (
                            StateMismatchKind::SupersededByNewPrepareToken {
                                active_prepare_token: *active_prepare_token,
                                requested_prepare_token: prepare_token,
                            },
                            StartCommitMismatchOwner::SupersededByOther,
                        ),
                    )
                }
            } else {
                Some(
                    (
                        StateMismatchKind::StateChangedBeforeCommit { state: state.debug_text() },
                        StartCommitMismatchOwner::SupersededByOther,
                    ),
                )
            }
        },
        RecordingState::CancellingPrepare {
            binding_id: active_binding,
            prepare_token: active_prepare_token,
        } => Some(
            (
                StateMismatchKind::CancellingPrepare {
                    active_binding: active_binding.clone(),
                    active_prepare_token: *active_prepare_token,
                },
                StartCommitMismatchOwner::SelfCancelled,
            ),
        ),
        RecordingState::Idle => Some(
            (StateMismatchKind::IdleBeforeCommit, StartCommitMismatchOwner::SelfCancelled),
        ),
        RecordingState::Recording { .. } => Some(
            (
                StateMismatchKind::StateChangedBeforeCommit { state: state.debug_text() },
                StartCommitMismatchOwner::SupersededByOther,
            ),
        ),
    }
}

/// The state after a request to cancel the prepare phase, optionally only for one binding.
pub open spec fn after_begin_cancellation(state: RecordingState, filter: Option<Seq<char>>) -> RecordingState {
    match state {
        RecordingState::Preparing { binding_id, prepare_token } => if filter matches Some(f) && f
            != binding_id@ {
            state
        } else {
            RecordingState::CancellingPrepare { binding_id, prepare_token }
        },
        _ => state,
    }
}

/// The binding and token whose prepare phase such a request cancels, if any.
pub open spec fn begun_cancellation(state: RecordingState, filter: Option<Seq<char>>) -> Option<
    (Seq<char>, PrepareToken),
> {
    match state {
        RecordingState::Preparing { binding_id, prepare_token } => if filter matches Some(f) && f
            != binding_id@ {
            None
        } else {
            Some((binding_id@, prepare_token))
        },
        _ => None,
    }
}

pub fn begin_prepare_cancellation(state: &mut RecordingState, binding_filter: Option<&str>) -> (r:
    Option<(String, PrepareToken)>)
    ensures
        *final(state) == after_begin_cancellation(*old(state), opt_str_view(binding_filter)),
        match begun_cancellation(*old(state), opt_str_view(binding_filter)) {
            Some((b, t)) => r matches Some((rb, rt)) && rb@ == b && rt == t,
            None => r is None,
        },
{
    let (binding_id, prepare_token) = match &*state {
        RecordingState::Preparing { binding_id, prepare_token } => (binding_id.clone(), *prepare_token),
        _ => {
            return None;
        },
    };
    match binding_filter {
        Some(requested) => {
            if !str_equals(requested, binding_id.as_str()) {
                return None;
            }
        },
        None => {},
    }
    let cancelled_binding = binding_id.clone();
    *state = RecordingState::CancellingPrepare { binding_id, prepare_token };
    Some((cancelled_binding, prepare_token))
}

/// The state after finishing the cancellation of one prepare phase.
pub open spec fn after_finalize_cancellation(state: RecordingState, binding_id: Seq<char>, token: PrepareToken) -> RecordingState {
    match state {
        RecordingState::CancellingPrepare { binding_id: b, prepare_token: t } => if b@ == binding_id
            && t == token {
            RecordingState::Idle
        } else {
            state
        },
        _ => state,
    }
}

pub fn finalize_prepare_cancellation(
    state: &mut RecordingState,
    binding_id: &str,
    prepare_token: PrepareToken,
) -> (r: bool)
    ensures
        *final(state) == after_finalize_cancellation(*old(state), binding_id@, prepare_token),
        r == (*final(state) != *old(state)),
{
    let matches = match &*state {
        RecordingState::CancellingPrepare { binding_id: active_binding, prepare_token: active_token } =>
            is_own_prepare(active_binding, *active_token, binding_id, prepare_token),
        _ => false,
    };
    if matches {
        *state = RecordingState::Idle;
        true
    } else {
        false
    }
}

/// Cancellation is one-way until finalized: once a prepare phase is being cancelled, a
/// second cancellation request finds nothing to cancel and changes nothing.
pub proof fn law_cancellation_blocks_reentry(
    state: RecordingState,
    first: Option<Seq<char>>,
    second: Option<Seq<char>>,
)
    requires
        begun_cancellation(state, first) is Some,
    ensures
        begun_cancellation(after_begin_cancellation(state, first), second) is None,
        after_begin_cancellation(after_begin_cancellation(state, first), second)
            == after_begin_cancellation(state, first),
{
}

/// Cancelling a prepare phase and finalizing that same binding and token returns to idle.
pub proof fn law_cancel_then_finalize_is_idle(state: RecordingState, filter: Option<Seq<char>>)
    requires
        begun_cancellation(state, filter) is Some,
    ensures
        ({
            let (b, t) = begun_cancellation(state, filter)->0;
            after_finalize_cancellation(after_begin_cancellation(state, filter), b, t)
                == RecordingState::Idle
        }),
{
}

/// While a prepare phase is being cancelled, any start that tries to commit is rejected
/// as self-cancelled: the state never reverts to the owner of a newer prepare.
pub proof fn law_commit_during_cancellation_is_self_cancelled(
    state: RecordingState,
    filter: Option<Seq<char>>,
    binding_id: Seq<char>,
    token: PrepareToken,
)
    requires
        begun_cancellation(state, filter) is Some,
    ensures
        commit_mismatch_owner(after_begin_cancellation(state, filter), binding_id, token)
            == Some(StartCommitMismatchOwner::SelfCancelled),
{
}

/// Only the matching cancellation finalizes; every other state is left as it is.
pub proof fn law_finalize_only_matching_cancellation(state: RecordingState, binding_id: Seq<char>, token: PrepareToken)
    ensures
        after_finalize_cancellation(state, binding_id, token) != state ==> (state matches RecordingState::CancellingPrepare { binding_id: b, prepare_token: t } && b@ == binding_id && t == token),
{
}

/// Number of samples handed to transcription: clips shorter than one second (and not
/// empty) are padded to 1.25 seconds.
pub open spec fn padded_sample_count(speech_sample_count: nat) -> nat {
    if 0 < speech_sample_count < WHISPER_SAMPLE_RATE {
        (WHISPER_SAMPLE_RATE * 5 / 4) as nat
    } else {
        speech_sample_count
    }
}

/// Speech and recording durations of a stopped recording: speech time from the sample
/// count, recording time falling back to speech time, speech time capped by it.
pub open spec fn stopped_durations(speech_sample_count: nat, recording_duration_ms: int) -> (int, int) {
    let speech = (speech_sample_count * 1000) / (WHISPER_SAMPLE_RATE as nat);
    let recording = if recording_duration_ms <= 0 && speech > 0 {
        speech as int
    } else {
        recording_duration_ms
    };
    let capped = if recording > 0 && speech > recording {
        recording
    } else {
        speech as int
    };
    (capped, recording)
}

pub fn padded_transcription_sample_count(speech_sample_count: usize) -> (r: usize)
    ensures
        r == padded_sample_count(speech_sample_count as nat),
{
    if speech_sample_count < WHISPER_SAMPLE_RATE && speech_sample_count > 0 {
        WHISPER_SAMPLE_RATE * 5 / 4
    } else {
        speech_sample_count
    }
}

/// `(speech_duration_ms, recording_duration_ms)` of a stopped recording.
pub fn stopped_recording_durations(speech_sample_count: usize, recording_duration_ms: i64) -> (r: (
    i64,
    i64,
))
    requires
        speech_sample_count * 1000 <= i64::MAX,
    ensures
        (r.0 as int, r.1 as int) == stopped_durations(
            speech_sample_count as nat,
            recording_duration_ms as int,
        ),
{
    let count = speech_sample_count as i64;
    let mut speech_duration_ms: i64 = (count * 1000) / (WHISPER_SAMPLE_RATE as i64);
    let mut recording = recording_duration_ms;
    if recording <= 0 && speech_duration_ms > 0 {
        recording = speech_duration_ms;
    }
    if recording > 0 && speech_duration_ms > recording {
        speech_duration_ms = recording;
    }
    (speech_duration_ms, recording)
}

/// What a start finds wrong with the state before it opens the stream: `None` when the
/// state is this start's own prepare phase.
pub open spec fn is_start_precondition_mismatch(
    state: RecordingState,
    binding_id: Seq<char>,
    token: PrepareToken,
    r: Option<StateMismatchKind>,
) -> bool {
    match state {
        RecordingState::Preparing { binding_id: b, prepare_token: t } => if b@ == binding_id {
            if t == token {
                r is None
            } else {
                r == Some(
                    StateMismatchKind::SupersededByNewPrepareToken {
                        active_prepare_token: t,
                        requested_prepare_token: token,
                    },
                )
            }
        } else {
            r matches Some(StateMismatchKind::PreparingForDifferentBinding { active_binding: a })
                && a@ == b@
        },
        RecordingState::Idle => r == Some(StateMismatchKind::IdleDuringPrepare),
        RecordingState::CancellingPrepare { binding_id: b, prepare_token: t } => r matches Some(
            StateMismatchKind::CancellingPrepare { active_binding: a, active_prepare_token: at },
        ) && a@ == b@ && at == t,
        RecordingState::Recording { .. } => r matches Some(
            StateMismatchKind::UnexpectedState { state: d },
        ) && d@ == state_debug_text(state),
    }
}

/// Checks, before a start opens the stream, that the state is still its own prepare phase.
pub fn classify_start_precondition(
    state: &RecordingState,
    binding_id: &str,
    prepare_token: PrepareToken,
) -> (r: Option<StateMismatchKind>)
    ensures
        is_start_precondition_mismatch(*state, binding_id@, prepare_token, r),
{
    match state {
        RecordingState::Preparing { binding_id: active_binding, prepare_token: active_prepare_token } => {
            if str_equals(active_binding.as_str(), binding_id) {
                if *active_prepare_token == prepare_token {
                    None
                } else {
                    Some(
                        StateMismatchKind::SupersededByNewPrepareToken {
                            active_prepare_token: *active_prepare_token,
                            requested_prepare_token: prepare_token,
                        },
                    )
                }
            } else {
                Some(
                    StateMismatchKind::PreparingForDifferentBinding {
                        active_binding: active_binding.clone(),
                    },
                )
            }
        },
        RecordingState::Idle => Some(StateMismatchKind::IdleDuringPrepare),
        RecordingState::CancellingPrepare {
            binding_id: active_binding,
            prepare_token: active_prepare_token,
        } => Some(
            StateMismatchKind::CancellingPrepare {
                active_binding: active_binding.clone(),
                active_prepare_token: *active_prepare_token,
            },
        ),
        RecordingState::Recording { .. } => Some(
            StateMismatchKind::UnexpectedState { state: state.debug_text() },
        ),
    }
}

/// Cleans up the state after a failed start and returns the cleanup owed: this start's own
/// prepare phase is cleared to idle; any other state is left to its owner.
pub fn cleanup_failed_start(
    state: &mut RecordingState,
    binding_id: &str,
    prepare_token: PrepareToken,
) -> (r: StartFailureCleanupAction)
    ensures
        r == cleanup_for(*old(state), binding_id@, prepare_token),
        r == StartFailureCleanupAction::ClearPreparingAndCloseStream ==> *final(state)
            == RecordingState::Idle,
        r != StartFailureCleanupAction::ClearPreparingAndCloseStream ==> *final(state) == *old(
            state,
        ),
{
    let action = classify_start_failure_cleanup(state, binding_id, prepare_token);
    if matches!(action, StartFailureCleanupAction::ClearPreparingAndCloseStream) {
        *state = RecordingState::Idle;
    }
    action
}

/// Commits a start whose capture is ready: when the state is still this start's own
/// prepare phase it becomes recording for the binding and session; otherwise the state is
/// left alone and the mismatch is returned.
pub fn commit_recording_start(
    state: &mut RecordingState,
    binding_id: &str,
    session_id: &str,
    prepare_token: PrepareToken,
) -> (r: Option<(StateMismatchKind, StartCommitMismatchOwner)>)
    ensures
        is_commit_mismatch(*old(state), binding_id@, prepare_token, r),
        r is None ==> (*final(state) matches RecordingState::Recording { binding_id: b, session_id: s }
            && b@ == binding_id@ && s@ == session_id@),
        r is Some ==> *final(state) == *old(state),
{
    let mismatch = classify_start_commit_mismatch(state, binding_id, prepare_token);
    if mismatch.is_none() {
        *state = RecordingState::Recording {
            binding_id: binding_id.to_string(),
            session_id: session_id.to_string(),
        };
    }
    mismatch
}

/// How a commit mismatch is reported: a start cancelled by its own cleanup fails with the
/// mismatch; one superseded by other work is abandoned with the mismatch's details.
pub fn commit_mismatch_failure(kind: StateMismatchKind, owner: StartCommitMismatchOwner) -> (r:
    RecordingStartFailure)
    ensures
        owner == StartCommitMismatchOwner::SelfCancelled ==> r == RecordingStartFailure::StateMismatch(
            kind,
        ),
        owner == StartCommitMismatchOwner::SupersededByOther ==> (r matches RecordingStartFailure::StartAbandonedDueToSupersededState(
            d,
        ) && d@ == mismatch_details(kind)),
{
    match owner {
        StartCommitMismatchOwner::SelfCancelled => RecordingStartFailure::StateMismatch(kind),
        StartCommitMismatchOwner::SupersededByOther => {
            let detail = kind.details();
            RecordingStartFailure::StartAbandonedDueToSupersededState(detail)
        },
    }
}

/// A start commits only from its own prepare phase, and then records that binding; a start
/// whose prepare phase was taken over never changes the state.
pub proof fn law_commit_only_from_own_prepare(
    state: RecordingState,
    binding_id: Seq<char>,
    token: PrepareToken,
    r: Option<(StateMismatchKind, StartCommitMismatchOwner)>,
)
    requires
        is_commit_mismatch(state, binding_id, token, r),
    ensures
        r is None <==> (state matches RecordingState::Preparing { binding_id: b, prepare_token: t }
            && b@ == binding_id && t == token),
        r is None <==> is_start_precondition_mismatch(state, binding_id, token, None),
{
}

/// How long an enumerated device list stays usable, in milliseconds.
pub const DEVICE_CACHE_TTL_MS: u64 = 600_000;

/// A cached device list is used while it is at most the cache lifetime old.
pub fn device_cache_is_fresh(age_ms: u64) -> (r: bool)
    ensures
        r == (age_ms <= DEVICE_CACHE_TTL_MS),
{
    age_ms <= DEVICE_CACHE_TTL_MS
}

/// Where a stream start takes its device list from, and why.
#[derive(Clone, Copy, Debug, PartialEq, Eq)]
pub struct TopologyPlan {
    pub use_cached_devices: bool,
    pub mode: TopologyResolutionMode,
    pub reason: &'static str,
}

/// The device list a stream start uses: a fresh cache unless the default route may have
/// moved (no route monitor, or a changed route generation) while no microphone is selected
/// explicitly; a new enumeration otherwise.
pub open spec fn topology_plan(
    cached_route_generation: Option<Option<u64>>,
    active_selection: Option<Seq<char>>,
    route_monitor_active: bool,
    current_route_generation: Option<u64>,
) -> (bool, TopologyResolutionMode, Seq<char>) {
    match cached_route_generation {
        Some(cached) => if forces_fresh_enumeration(
            active_selection,
            route_monitor_active,
            cached,
            current_route_generation,
        ) {
            (
                false,
                TopologyResolutionMode::Fresh,
                if !route_monitor_active {
                    "default_route_monitor_unavailable"@
                } else {
                    "default_route_generation_changed"@
                },
            )
        } else {
            (
                true,
                TopologyResolutionMode::Cache,
                if explicit_selection(active_selection) {
                    "explicit_selection_cache_hit"@
                } else {
                    "default_route_confirmed"@
                },
            )
        },
        None => (false, TopologyResolutionMode::Fresh, "cache_miss_or_stale"@),
    }
}

/// Decides where a stream start takes its device list from; `cached_route_generation` is
/// the route generation of a fresh cache entry, `None` when there is no fresh entry.
pub fn resolve_topology(
    cached_route_generation: Option<Option<u64>>,
    active_selection: Option<&str>,
    route_monitor_active: bool,
    current_route_generation: Option<u64>,
) -> (r: TopologyPlan)
    ensures
        (r.use_cached_devices, r.mode, r.reason@) == topology_plan(
            cached_route_generation,
            opt_str_view(active_selection),
            route_monitor_active,
            current_route_generation,
        ),
{
    match cached_route_generation {
        Some(cached) => {
            if should_force_fresh_default_route_enumeration(
                active_selection,
                route_monitor_active,
                cached,
                current_route_generation,
            ) {
                TopologyPlan {
                    use_cached_devices: false,
                    mode: TopologyResolutionMode::Fresh,
                    reason: if !route_monitor_active {
                        "default_route_monitor_unavailable"
                    } else {
                        "default_route_generation_changed"
                    },
                }
            } else {
                TopologyPlan {
                    use_cached_devices: true,
                    mode: TopologyResolutionMode::Cache,
                    reason: if is_explicit_microphone_selection(active_selection) {
                        "explicit_selection_cache_hit"
                    } else {
                        "default_route_confirmed"
                    },
                }
            }
        },
        None => TopologyPlan {
            use_cached_devices: false,
            mode: TopologyResolutionMode::Fresh,
            reason: "cache_miss_or_stale",
        },
    }
}

/// An explicitly selected microphone never forces a fresh enumeration when the cache is
/// fresh.
pub proof fn law_explicit_selection_uses_cache(
    cached: Option<u64>,
    active_selection: Option<Seq<char>>,
    route_monitor_active: bool,
    current: Option<u64>,
)
    requires
        explicit_selection(active_selection),
    ensures
        topology_plan(Some(cached), active_selection, route_monitor_active, current).0,
{
}

/// What one attempt to open the stream came to.
#[derive(Clone, Debug, PartialEq, Eq)]
pub enum StreamOpenAttempt {
    Opened,
    AlreadyOpen,
    CancelledBeforeOpen,
    RetryWithFreshTopology(String),
    Failed(String),
}

/// Classifies an attempt to open the stream: another thread may have opened it, the prearm
/// owner may have been lost; otherwise the open result decides, a failure from a cached
/// topology being retried once with a fresh one.
pub fn classify_open_attempt(
    already_open: bool,
    open_allowed: bool,
    open_result: Result<(), String>,
    retry_with_fresh_topology: bool,
) -> (r: StreamOpenAttempt)
    ensures
        already_open ==> r == StreamOpenAttempt::AlreadyOpen,
        !already_open && !open_allowed ==> r == StreamOpenAttempt::CancelledBeforeOpen,
        !already_open && open_allowed ==> match open_result {
            Ok(()) => r == StreamOpenAttempt::Opened,
            Err(e) => if retry_with_fresh_topology {
                r == StreamOpenAttempt::RetryWithFreshTopology(e)
            } else {
                r == StreamOpenAttempt::Failed(e)
            },
        },
{
    if already_open {
        StreamOpenAttempt::AlreadyOpen
    } else if !open_allowed {
        StreamOpenAttempt::CancelledBeforeOpen
    } else {
        match open_result {
            Ok(()) => StreamOpenAttempt::Opened,
            Err(e) => if retry_with_fresh_topology {
                StreamOpenAttempt::RetryWithFreshTopology(e)
            } else {
                StreamOpenAttempt::Failed(e)
            },
        }
    }
}

/// Why a stream is being opened.
#[derive(Clone, Copy, Debug, PartialEq, Eq, Structural)]
pub enum StreamOpenContext {
    UserTriggered,
    StartupPrewarm,
    Prearm { owner_token: u64 },
}

/// The token of the prearm that currently owns the pending stream open (0: none).
#[derive(Clone, Copy, Debug, PartialEq, Eq, Structural)]
pub struct PrearmOwnership {
    pub owner_token: u64,
}

/// A claim by a prearm: it succeeds, and the prearm becomes the owner, only when nobody
/// owns the pending open.
pub open spec fn claimed(o: PrearmOwnership, token: u64) -> (bool, PrearmOwnership) {
    if o.owner_token == 0 {
        (true, PrearmOwnership { owner_token: token })
    } else {
        (false, o)
    }
}

/// A release by a prearm: it takes effect only when that prearm is the owner.
pub open spec fn released(o: PrearmOwnership, token: u64) -> (bool, PrearmOwnership) {
    if o.owner_token == token {
        (true, PrearmOwnership { owner_token: 0 })
    } else {
        (false, o)
    }
}

/// User and startup opens are always allowed; a prearm's only while it owns the open.
pub open spec fn open_allowed_in(o: PrearmOwnership, context: StreamOpenContext) -> bool {
    match context {
        StreamOpenContext::Prearm { owner_token } => owner_token != 0 && o.owner_token
            == owner_token,
        _ => true,
    }
}

impl PrearmOwnership {
    /// No prearm owns the stream open.
    pub fn new() -> (r: Self)
        ensures
            r.owner_token == 0,
    {
        PrearmOwnership { owner_token: 0 }
    }

    /// Claims the pending open for a prearm.
    pub fn try_claim(&mut self, prearm_token: u64) -> (r: bool)
        ensures
            (r, *final(self)) == claimed(*old(self), prearm_token),
    {
        if self.owner_token == 0 {
            self.owner_token = prearm_token;
            true
        } else {
            false
        }
    }

    /// Releases the pending open if this prearm still owns it.
    pub fn release(&mut self, prearm_token: u64) -> (r: bool)
        ensures
            (r, *final(self)) == released(*old(self), prearm_token),
    {
        if self.owner_token == prearm_token {
            self.owner_token = 0;
            true
        } else {
            false
        }
    }

    /// Whether a stream may be opened in this context.
    pub fn open_allowed(&self, context: StreamOpenContext) -> (r: bool)
        ensures
            r == open_allowed_in(*self, context),
    {
        match context {
            StreamOpenContext::Prearm { owner_token } => owner_token != 0 && self.owner_token
                == owner_token,
            StreamOpenContext::UserTriggered | StreamOpenContext::StartupPrewarm => true,
        }
    }
}

/// At most one prearm owns the pending open: once a prearm has claimed it, another claim
/// fails and only the owner may open; a release by anyone else changes nothing; after the
/// owner releases it, the owner may no longer open and a new claim succeeds.
pub proof fn law_prearm_single_owner(o: PrearmOwnership, first: u64, second: u64)
    requires
        first != 0,
        second != first,
        claimed(o, first).0,
    ensures
        ({
            let owned = claimed(o, first).1;
            &&& open_allowed_in(owned, StreamOpenContext::Prearm { owner_token: first })
            &&& !claimed(owned, second).0
            &&& !open_allowed_in(owned, StreamOpenContext::Prearm { owner_token: second })
            &&& released(owned, second).1 == owned
            &&& !open_allowed_in(
                released(owned, first).1,
                StreamOpenContext::Prearm { owner_token: first },
            )
            &&& claimed(released(owned, first).1, second).0
        }),
{
}

/// The prepare token given out first.
pub const FIRST_PREPARE_TOKEN: PrepareToken = 1;

/// The token given out after `t`: the next number, wrapping around after the largest
/// `u64` as an atomic addition does.
pub open spec fn following_prepare_token(t: PrepareToken) -> PrepareToken {
    if t == u64::MAX {
        0
    } else {
        (t + 1) as u64
    }
}

/// The token that the `i`-th successful prepare gives out (counting from 0), when the
/// first one gave out `first`.
pub open spec fn issued_prepare_token(first: PrepareToken, i: nat) -> PrepareToken
    decreases i,
{
    if i == 0 {
        first
    } else {
        following_prepare_token(issued_prepare_token(first, (i - 1) as nat))
    }
}

/// Prepare tokens only grow until the counter wraps around: from the first token on, the
/// `i`-th successful prepare gives out `first + i`, so a later prepare's token is larger
/// than every earlier one, and none is below the first (which is 1).
pub proof fn law_prepare_tokens_increase(first: PrepareToken, i: nat, j: nat)
    requires
        i < j,
        first + j <= u64::MAX,
    ensures
        issued_prepare_token(first, i) == first + i,
        issued_prepare_token(first, j) == first + j,
        issued_prepare_token(first, i) < issued_prepare_token(first, j),
        issued_prepare_token(first, i) >= first,
{
    lemma_issued_prepare_token(first, j);
    lemma_issued_prepare_token(first, i);
}

proof fn lemma_issued_prepare_token(first: PrepareToken, i: nat)
    requires
        first + i <= u64::MAX,
    ensures
        issued_prepare_token(first, i) == first + i,
    decreases i,
{
    if i > 0 {
        lemma_issued_prepare_token(first, (i - 1) as nat);
    }
}

/// Starts preparing a recording for `binding_id` when idle, taking the next prepare token
/// (tokens wrap around after the largest `u64`); any other state refuses.
pub fn prepare_recording(
    state: &mut RecordingState,
    next_prepare_token: &mut PrepareToken,
    binding_id: &str,
) -> (r: Option<PrepareToken>)
    ensures
        *old(state) == RecordingState::Idle ==> {
            &&& r == Some(*old(next_prepare_token))
            &&& *final(state) matches RecordingState::Preparing { binding_id: b, prepare_token: t }
            &&& b@ == binding_id@
            &&& t == *old(next_prepare_token)
            &&& *final(next_prepare_token) == following_prepare_token(*old(next_prepare_token))
        },
        *old(state) != RecordingState::Idle ==> r is None && *final(state) == *old(state)
            && *final(next_prepare_token) == *old(next_prepare_token),
{
    match state {
        RecordingState::Idle => {},
        _ => {
            return None;
        },
    }
    let token = *next_prepare_token;
    *next_prepare_token = token.wrapping_add(1);
    *state = RecordingState::Preparing { binding_id: binding_id.to_string(), prepare_token: token };
    Some(token)
}

/// A stop request for `binding_id` ends the recording of that binding.
pub open spec fn stops_recording(state: RecordingState, binding_id: Seq<char>) -> bool {
    state matches RecordingState::Recording { binding_id: b, .. } && b@ == binding_id
}

/// Ends the recording of `binding_id`, returning to idle; gives whether it did.
pub fn stop_recording_state(state: &mut RecordingState, binding_id: &str) -> (r: bool)
    ensures
        r == stops_recording(*old(state), binding_id@),
        r ==> *final(state) == RecordingState::Idle,
        !r ==> *final(state) == *old(state),
{
    let stops = match &*state {
        RecordingState::Recording { binding_id: active, .. } => str_equals(active.as_str(), binding_id),
        _ => false,
    };
    if stops {
        *state = RecordingState::Idle;
    }
    stops
}

/// Ends any recording, returning to idle; gives whether there was one.
pub fn cancel_recording_state(state: &mut RecordingState) -> (r: bool)
    ensures
        r == (*old(state) matches RecordingState::Recording { .. }),
        r ==> *final(state) == RecordingState::Idle,
        !r ==> *final(state) == *old(state),
{
    let recording = match &*state {
        RecordingState::Recording { .. } => true,
        _ => false,
    };
    if recording {
        *state = RecordingState::Idle;
    }
    recording
}

/// A whole recording goes back to idle: preparing from idle, committing that prepare phase,
/// then stopping the same binding.
pub proof fn law_recording_cycle_returns_to_idle(
    prepared: RecordingState,
    recording: RecordingState,
    binding_id: Seq<char>,
    token: PrepareToken,
    r: Option<(StateMismatchKind, StartCommitMismatchOwner)>,
)
    requires
        prepared matches RecordingState::Preparing { binding_id: b, prepare_token: t } && b@
            == binding_id && t == token,
        is_commit_mismatch(prepared, binding_id, token, r),
        r is None ==> (recording matches RecordingState::Recording { binding_id: b, .. } && b@
            == binding_id),
    ensures
        r is None,
        stops_recording(recording, binding_id),
{
}

/// What a change of microphone mode does to the stream.
#[derive(Clone, Copy, Debug, PartialEq, Eq, Structural)]
pub enum ModeChangeStreamAction {
    /// Open the stream, which stays on from now on.
    Start,
    /// Close the stream, which opens on demand from now on.
    Stop,
    /// Leave the stream as it is.
    Keep,
}

/// Switching to always-on opens the stream; switching to on-demand closes it unless a
/// recording is in some phase.
pub fn mode_change_stream_action(
    current: MicrophoneMode,
    new_mode: MicrophoneMode,
    state_is_idle: bool,
) -> (r: ModeChangeStreamAction)
    ensures
        r == if current == MicrophoneMode::AlwaysOn && new_mode == MicrophoneMode::OnDemand
            && state_is_idle {
            ModeChangeStreamAction::Stop
        } else if current == MicrophoneMode::OnDemand && new_mode == MicrophoneMode::AlwaysOn {
            ModeChangeStreamAction::Start
        } else {
            ModeChangeStreamAction::Keep
        },
{
    match (current, new_mode) {
        (MicrophoneMode::AlwaysOn, MicrophoneMode::OnDemand) => if state_is_idle {
            ModeChangeStreamAction::Stop
        } else {
            ModeChangeStreamAction::Keep
        },
        (MicrophoneMode::OnDemand, MicrophoneMode::AlwaysOn) => ModeChangeStreamAction::Start,
        _ => ModeChangeStreamAction::Keep,
    }
}

/// Whether the system output was muted for a recording, so that only a mute of ours is
/// undone.
#[derive(Clone, Copy, Debug, PartialEq, Eq, Structural)]
pub struct MuteTracker {
    pub did_mute: bool,
}

/// The tracker after a recording starts: a mute is made when muting while recording is on
/// and the stream is open.
pub open spec fn mute_applied(t: MuteTracker, mute_while_recording: bool, stream_open: bool) -> MuteTracker {
    MuteTracker { did_mute: t.did_mute || (mute_while_recording && stream_open) }
}

impl MuteTracker {
    /// Nothing muted.
    pub fn new() -> (r: Self)
        ensures
            !r.did_mute,
    {
        MuteTracker { did_mute: false }
    }

    /// Whether to mute now: when muting while recording is on and the stream is open;
    /// a mute is remembered.
    pub fn apply(&mut self, mute_while_recording: bool, stream_open: bool) -> (r: bool)
        ensures
            r == (mute_while_recording && stream_open),
            *final(self) == mute_applied(*old(self), mute_while_recording, stream_open),
    {
        if mute_while_recording && stream_open {
            self.did_mute = true;
            true
        } else {
            false
        }
    }

    /// Whether to unmute now: exactly when a mute of ours is in force, which is then
    /// forgotten.
    pub fn remove(&mut self) -> (r: bool)
        ensures
            r == old(self).did_mute,
            !final(self).did_mute,
    {
        let muted = self.did_mute;
        self.did_mute = false;
        muted
    }
}

/// Unmuting after a recording undoes exactly a mute made for it: from a tracker with no
/// mute in force, the unmute owed after `apply` is what `apply` muted.
pub proof fn law_unmute_matches_mute(t: MuteTracker, mute_while_recording: bool, stream_open: bool)
    requires
        !t.did_mute,
    ensures
        mute_applied(t, mute_while_recording, stream_open).did_mute == (mute_while_recording
            && stream_open),
{
}

/// The recording timer's progress: the next whole second to report and whether the
/// warning before the recording limit was given.
#[derive(Clone, Copy, Debug, PartialEq, Eq, Structural)]
pub struct RecordingTimer {
    pub next_tick: u32,
    pub warned_at_30s: bool,
}

/// What one wake-up of the recording timer does.
#[derive(Clone, Copy, Debug, PartialEq, Eq, Structural)]
pub struct TimerTick {
    /// Report the elapsed seconds to the overlay.
    pub emit_time: bool,
    /// Warn that this many seconds are left before the limit.
    pub warn_remaining: Option<u32>,
    /// The limit is reached: stop the recording and the timer.
    pub auto_stop: bool,
}

/// The recording timer after waking `elapsed` seconds into a recording limited to `max`
/// seconds, and what it does: once a new second is reached, it reports the time; it warns
/// once when 30 seconds or fewer (but some) are left; it stops the recording at the limit,
/// and otherwise waits for the next second.
pub open spec fn timer_step(t: RecordingTimer, elapsed: u32, max: u32) -> (RecordingTimer, TimerTick) {
    if elapsed < t.next_tick {
        (t, TimerTick { emit_time: false, warn_remaining: None, auto_stop: false })
    } else {
        let remaining: u32 = if max > elapsed {
            (max - elapsed) as u32
        } else {
            0
        };
        let warn = remaining <= 30 && remaining > 0 && !t.warned_at_30s;
        let warned = t.warned_at_30s || warn;
        if elapsed >= max {
            (
                RecordingTimer { next_tick: t.next_tick, warned_at_30s: warned },
                TimerTick {
                    emit_time: true,
                    warn_remaining: if warn {
                        Some(remaining)
                    } else {
                        None
                    },
                    auto_stop: true,
                },
            )
        } else {
            (
                RecordingTimer { next_tick: (elapsed + 1) as u32, warned_at_30s: warned },
                TimerTick {
                    emit_time: true,
                    warn_remaining: if warn {
                        Some(remaining)
                    } else {
                        None
                    },
                    auto_stop: false,
                },
            )
        }
    }
}

impl RecordingTimer {
    /// A timer that reports the first second next.
    pub fn new() -> (r: Self)
        ensures
            r == (RecordingTimer { next_tick: 1, warned_at_30s: false }),
    {
        RecordingTimer { next_tick: 1, warned_at_30s: false }
    }

    /// One wake-up of the timer, `elapsed_secs` into a recording limited to `max_secs`.
    pub fn tick(&mut self, elapsed_secs: u32, max_secs: u32) -> (r: TimerTick)
        ensures
            (*final(self), r) == timer_step(*old(self), elapsed_secs, max_secs),
    {
        if elapsed_secs < self.next_tick {
            return TimerTick { emit_time: false, warn_remaining: None, auto_stop: false };
        }
        let remaining = max_secs.saturating_sub(elapsed_secs);
        let warn = remaining <= 30 && remaining > 0 && !self.warned_at_30s;
        if warn {
            self.warned_at_30s = true;
        }
        let warn_remaining = if warn {
            Some(remaining)
        } else {
            None
        };
        if elapsed_secs >= max_secs {
            return TimerTick { emit_time: true, warn_remaining, auto_stop: true };
        }
        self.next_tick = elapsed_secs + 1;
        TimerTick { emit_time: true, warn_remaining, auto_stop: false }
    }
}

/// The limit warning is given at most once: after a wake-up that warned, no later wake-up
/// warns; and the timer stops the recording exactly when a wake-up reaches the limit.
pub proof fn law_limit_warning_once(t: RecordingTimer, elapsed: u32, later: u32, max: u32)
    ensures
        timer_step(t, elapsed, max).1.warn_remaining is Some ==> timer_step(
            timer_step(t, elapsed, max).0,
            later,
            max,
        ).1.warn_remaining is None,
        timer_step(t, elapsed, max).1.auto_stop <==> (elapsed >= t.next_tick && elapsed >= max),
{
}

/// Where a recording start is in its sequence: the precondition check, the maintenance
/// check, opening the stream (on demand only), waiting for the capture to be ready, and
/// the commit.
#[derive(Clone, Copy, Debug, PartialEq, Eq, Structural)]
pub enum StartPhase {
    CheckingPrecondition,
    CheckingMaintenance,
    OpeningStream,
    AwaitingCaptureReady,
    Committing,
    Finished,
}

/// What the app reports back to the start sequence.
#[derive(Clone, Debug, PartialEq, Eq)]
pub enum StartEvent {
    /// The outcome of `classify_start_precondition`.
    Precondition(Option<StateMismatchKind>),
    /// Whether backup/restore maintenance allows a start.
    Maintenance { allowed: bool },
    /// The microphone stream opened.
    StreamOpened,
    /// The microphone stream did not open, for this reason.
    StreamOpenFailed(String),
    /// There is no recorder to start.
    RecorderMissing,
    /// The capture is ready.
    CaptureReady,
    /// The recorder could not start capturing.
    CaptureFailed(RecorderStartError),
    /// The outcome of `commit_recording_start`.
    Commit(Option<(StateMismatchKind, StartCommitMismatchOwner)>),
}

/// What the app does next for a recording start.
#[derive(Clone, Debug, PartialEq, Eq)]
pub enum StartAction {
    /// Ask whether maintenance allows a start.
    CheckMaintenance,
    /// Open the microphone stream.
    OpenStream,
    /// Start the recorder and wait for the capture to be ready.
    WaitForCaptureReady,
    /// Commit the start with `commit_recording_start`.
    CommitStart,
    /// The recording started: start the timer and remember that a recording was made.
    Started,
    /// Fail, leaving the state to its owner.
    Fail(RecordingStartFailure),
    /// Clean the failed start up with `cleanup_failed_start` (closing the stream when
    /// `should_stop_stream_for_start_cleanup` says so), then fail.
    CleanUpAndFail(RecordingStartFailure),
    /// Clean the failed start up, then fail with `map_recorder_start_error` of this error
    /// and the cleanup made.
    CleanUpAndFailWith(RecorderStartError),
    /// The start cancelled itself: stop the recorder, close an on-demand stream, then fail.
    StopRecorderAndFail(RecordingStartFailure),
    /// Another owner took the state over: give up with the mismatch's details.
    Abandon(StateMismatchKind),
    /// The event does not belong to this phase; nothing changes.
    Ignore,
}

/// One step of a recording start, from its phase and the event reported, for a microphone
/// in on-demand mode or not.
pub open spec fn start_transition(phase: StartPhase, event: StartEvent, on_demand: bool) -> (
    StartPhase,
    StartAction,
) {
    match (phase, event) {
        (StartPhase::CheckingPrecondition, StartEvent::Precondition(None)) => (
            StartPhase::CheckingMaintenance,
            StartAction::CheckMaintenance,
        ),
        (StartPhase::CheckingPrecondition, StartEvent::Precondition(Some(kind))) => (
            StartPhase::Finished,
            StartAction::Fail(RecordingStartFailure::StateMismatch(kind)),
        ),
        (StartPhase::CheckingMaintenance, StartEvent::Maintenance { allowed }) => if !allowed {
            (StartPhase::Finished, StartAction::CleanUpAndFail(RecordingStartFailure::MaintenanceMode))
        } else if on_demand {
            (StartPhase::OpeningStream, StartAction::OpenStream)
        } else {
            (StartPhase::AwaitingCaptureReady, StartAction::WaitForCaptureReady)
        },
        (StartPhase::OpeningStream, StartEvent::StreamOpened) => (
            StartPhase::AwaitingCaptureReady,
            StartAction::WaitForCaptureReady,
        ),
        (StartPhase::OpeningStream, StartEvent::StreamOpenFailed(message)) => (
            StartPhase::Finished,
            StartAction::CleanUpAndFail(RecordingStartFailure::StreamOpenFailed(message)),
        ),
        (StartPhase::AwaitingCaptureReady, StartEvent::RecorderMissing) => (
            StartPhase::Finished,
            StartAction::CleanUpAndFail(RecordingStartFailure::RecorderUnavailable),
        ),
        (StartPhase::AwaitingCaptureReady, StartEvent::CaptureReady) => (
            StartPhase::Committing,
            StartAction::CommitStart,
        ),
        (StartPhase::AwaitingCaptureReady, StartEvent::CaptureFailed(err)) => (
            StartPhase::Finished,
            StartAction::CleanUpAndFailWith(err),
        ),
        (StartPhase::Committing, StartEvent::Commit(None)) => (StartPhase::Finished, StartAction::Started),
        (StartPhase::Committing, StartEvent::Commit(Some((kind, owner)))) => if owner
            == StartCommitMismatchOwner::SelfCancelled {
            (
                StartPhase::Finished,
                StartAction::StopRecorderAndFail(RecordingStartFailure::StateMismatch(kind)),
            )
        } else {
            (StartPhase::Finished, StartAction::Abandon(kind))
        },
        _ => (phase, StartAction::Ignore),
    }
}

/// One step of a recording start.
pub fn start_step(phase: StartPhase, event: StartEvent, on_demand: bool) -> (r: (
    StartPhase,
    StartAction,
))
    ensures
        r == start_transition(phase, event, on_demand),
{
    match (phase, event) {
        (StartPhase::CheckingPrecondition, StartEvent::Precondition(None)) => (
            StartPhase::CheckingMaintenance,
            StartAction::CheckMaintenance,
        ),
        (StartPhase::CheckingPrecondition, StartEvent::Precondition(Some(kind))) => (
            StartPhase::Finished,
            StartAction::Fail(RecordingStartFailure::StateMismatch(kind)),
        ),
        (StartPhase::CheckingMaintenance, StartEvent::Maintenance { allowed }) => if !allowed {
            (StartPhase::Finished, StartAction::CleanUpAndFail(RecordingStartFailure::MaintenanceMode))
        } else if on_demand {
            (StartPhase::OpeningStream, StartAction::OpenStream)
        } else {
            (StartPhase::AwaitingCaptureReady, StartAction::WaitForCaptureReady)
        },
        (StartPhase::OpeningStream, StartEvent::StreamOpened) => (
            StartPhase::AwaitingCaptureReady,
            StartAction::WaitForCaptureReady,
        ),
        (StartPhase::OpeningStream, StartEvent::StreamOpenFailed(message)) => (
            StartPhase::Finished,
            StartAction::CleanUpAndFail(RecordingStartFailure::StreamOpenFailed(message)),
        ),
        (StartPhase::AwaitingCaptureReady, StartEvent::RecorderMissing) => (
            StartPhase::Finished,
            StartAction::CleanUpAndFail(RecordingStartFailure::RecorderUnavailable),
        ),
        (StartPhase::AwaitingCaptureReady, StartEvent::CaptureReady) => (
            StartPhase::Committing,
            StartAction::CommitStart,
        ),
        (StartPhase::AwaitingCaptureReady, StartEvent::CaptureFailed(err)) => (
            StartPhase::Finished,
            StartAction::CleanUpAndFailWith(err),
        ),
        (StartPhase::Committing, StartEvent::Commit(None)) => (StartPhase::Finished, StartAction::Started),
        (StartPhase::Committing, StartEvent::Commit(Some((kind, owner)))) => {
            if owner == StartCommitMismatchOwner::SelfCancelled {
                (
                    StartPhase::Finished,
                    StartAction::StopRecorderAndFail(RecordingStartFailure::StateMismatch(kind)),
                )
            } else {
                (StartPhase::Finished, StartAction::Abandon(kind))
            }
        },
        (phase, _) => (phase, StartAction::Ignore),
    }
}

/// The order of a recording start is fixed: a finished start ignores every event; a start
/// succeeds only from the commit, when the commit found its own prepare phase; the stream
/// is opened only in on-demand mode, after the maintenance check; and a failed start is
/// cleaned up exactly when it failed after its precondition held and before the commit.
pub proof fn law_start_sequence(phase: StartPhase, event: StartEvent, on_demand: bool)
    ensures
        phase == StartPhase::Finished ==> start_transition(phase, event, on_demand) == (
            StartPhase::Finished,
            StartAction::Ignore,
        ),
        start_transition(phase, event, on_demand).1 == StartAction::Started <==> (phase
            == StartPhase::Committing && event == StartEvent::Commit(None)),
        start_transition(phase, event, on_demand).1 == StartAction::OpenStream ==> (phase
            == StartPhase::CheckingMaintenance && on_demand),
        (start_transition(phase, event, on_demand).1 matches StartAction::CleanUpAndFail(_))
            || (start_transition(phase, event, on_demand).1 matches StartAction::CleanUpAndFailWith(
            _,
        )) ==> (phase == StartPhase::CheckingMaintenance || phase == StartPhase::OpeningStream
            || phase == StartPhase::AwaitingCaptureReady),
        start_transition(phase, event, on_demand).1 != StartAction::Ignore
            && start_transition(phase, event, on_demand).0 != StartPhase::Finished ==> (
            start_transition(phase, event, on_demand).0 != phase),
{
}

} // verus!
