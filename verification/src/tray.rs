//! The tray: which icon shows for a theme and state, which text "copy last transcript"
//! copies, and which items the tray menu holds.

use vstd::prelude::*;
use crate::history::HistoryEntry;
use crate::text::{ends_with, starts_with};

verus! {

/// What the app is doing, as the tray shows it.
#[derive(Clone, Copy, Debug, PartialEq, Eq, Structural)]
pub enum TrayIconState {
    Idle,
    Recording,
    Transcribing,
}

/// The tray icon theme.
#[derive(Clone, Copy, Debug, PartialEq, Eq, Structural)]
pub enum AppTheme {
    Dark,
    Light,
    /// Pink/colored theme for Linux.
    Colored,
}

/// The theme the system reports for the main window.
#[derive(Clone, Copy, Debug, PartialEq, Eq, Structural)]
pub enum SystemTheme {
    Light,
    Dark,
    Other,
}

/// The tray theme: colored on Linux; elsewhere that of the main window, dark when it is
/// unknown or there is no window.
pub fn theme_for(on_linux: bool, window_theme: Option<SystemTheme>) -> (r: AppTheme)
    ensures
        r == (if on_linux {
            AppTheme::Colored
        } else if window_theme == Some(SystemTheme::Light) {
            AppTheme::Light
        } else {
            AppTheme::Dark
        }),
{
    if on_linux {
        AppTheme::Colored
    } else {
        match window_theme {
            Some(SystemTheme::Light) => AppTheme::Light,
            _ => AppTheme::Dark,
        }
    }
}

pub open spec fn icon_path(theme: AppTheme, state: TrayIconState) -> Seq<char> {
    match (theme, state) {
        (AppTheme::Dark, TrayIconState::Idle) => "resources/tray_idle.png"@,
        (AppTheme::Dark, TrayIconState::Recording) => "resources/tray_recording.png"@,
        (AppTheme::Dark, TrayIconState::Transcribing) => "resources/tray_transcribing.png"@,
        (AppTheme::Light, TrayIconState::Idle) => "resources/tray_idle_dark.png"@,
        (AppTheme::Light, TrayIconState::Recording) => "resources/tray_recording_dark.png"@,
        (AppTheme::Light, TrayIconState::Transcribing) => "resources/tray_transcribing_dark.png"@,
        (AppTheme::Colored, TrayIconState::Idle) => "resources/codictate.png"@,
        (AppTheme::Colored, TrayIconState::Recording) => "resources/recording.png"@,
        (AppTheme::Colored, TrayIconState::Transcribing) => "resources/transcribing.png"@,
    }
}

/// The icon for a theme and state: light icons on the dark theme, dark icons on the light
/// theme, pink icons on the colored theme.
pub fn get_icon_path(theme: AppTheme, state: TrayIconState) -> (r: &'static str)
    ensures
        r@ == icon_path(theme, state),
{
    match (theme, state) {
        (AppTheme::Dark, TrayIconState::Idle) => "resources/tray_idle.png",
        (AppTheme::Dark, TrayIconState::Recording) => "resources/tray_recording.png",
        (AppTheme::Dark, TrayIconState::Transcribing) => "resources/tray_transcribing.png",
        (AppTheme::Light, TrayIconState::Idle) => "resources/tray_idle_dark.png",
        (AppTheme::Light, TrayIconState::Recording) => "resources/tray_recording_dark.png",
        (AppTheme::Light, TrayIconState::Transcribing) => "resources/tray_transcribing_dark.png",
        (AppTheme::Colored, TrayIconState::Idle) => "resources/codictate.png",
        (AppTheme::Colored, TrayIconState::Recording) => "resources/recording.png",
        (AppTheme::Colored, TrayIconState::Transcribing) => "resources/transcribing.png",
    }
}

/// The text "copy last transcript" copies: the post-processed text when there is one, else
/// the raw transcription.
pub fn last_transcript_text(entry: &HistoryEntry) -> (r: &str)
    ensures
        r@ == (match entry.post_processed_text {
            Some(t) => t@,
            None => entry.transcription_text@,
        }),
{
    match &entry.post_processed_text {
        Some(t) => t.as_str(),
        None => entry.transcription_text.as_str(),
    }
}

/// An entry of the tray menu.
#[derive(Clone, Copy, Debug, PartialEq, Eq, Structural)]
pub enum TrayMenuItem {
    Version,
    Separator,
    Cancel,
    CopyLastTranscript,
    Settings,
    CheckUpdates,
    Quit,
}

/// The tray menu: while recording or transcribing it offers to cancel; when idle it offers
/// to copy the last transcript only if there is history.
pub open spec fn tray_menu(state: TrayIconState, has_history: bool) -> Seq<TrayMenuItem> {
    match state {
        TrayIconState::Idle => if has_history {
            seq![
                TrayMenuItem::Version,
                TrayMenuItem::Separator,
                TrayMenuItem::CopyLastTranscript,
                TrayMenuItem::Separator,
                TrayMenuItem::Settings,
                TrayMenuItem::CheckUpdates,
                TrayMenuItem::Separator,
                TrayMenuItem::Quit,
            ]
        } else {
            seq![
                TrayMenuItem::Version,
                TrayMenuItem::Separator,
                TrayMenuItem::Settings,
                TrayMenuItem::CheckUpdates,
                TrayMenuItem::Separator,
                TrayMenuItem::Quit,
            ]
        },
        _ => seq![
            TrayMenuItem::Version,
            TrayMenuItem::Separator,
            TrayMenuItem::Cancel,
            TrayMenuItem::Separator,
            TrayMenuItem::CopyLastTranscript,
            TrayMenuItem::Separator,
            TrayMenuItem::Settings,
            TrayMenuItem::CheckUpdates,
            TrayMenuItem::Separator,
            TrayMenuItem::Quit,
        ],
    }
}

/// The items of the tray menu, in order.
pub fn tray_menu_items(state: TrayIconState, has_history: bool) -> (r: Vec<TrayMenuItem>)
    ensures
        r@ == tray_menu(state, has_history),
{
    let mut v: Vec<TrayMenuItem> = Vec::new();
    v.push(TrayMenuItem::Version);
    v.push(TrayMenuItem::Separator);
    match state {
        TrayIconState::Idle => {
            if has_history {
                v.push(TrayMenuItem::CopyLastTranscript);
                v.push(TrayMenuItem::Separator);
            }
        },
        _ => {
            v.push(TrayMenuItem::Cancel);
            v.push(TrayMenuItem::Separator);
            v.push(TrayMenuItem::CopyLastTranscript);
            v.push(TrayMenuItem::Separator);
        },
    }
    v.push(TrayMenuItem::Settings);
    v.push(TrayMenuItem::CheckUpdates);
    v.push(TrayMenuItem::Separator);
    v.push(TrayMenuItem::Quit);
    assert(v@ =~= tray_menu(state, has_history));
    v
}


/// The facts of one icon path: under `resources/`, a PNG, and a dark icon exactly on the
/// light theme.
proof fn lemma_icon_path_shape(theme: AppTheme, state: TrayIconState)
    ensures
        starts_with(icon_path(theme, state), "resources/"@),
        ends_with(icon_path(theme, state), ".png"@),
        ends_with(icon_path(theme, state), "_dark.png"@) <==> theme == AppTheme::Light,
{
    reveal_strlit("resources/");
    reveal_strlit(".png");
    reveal_strlit("_dark.png");
    match (theme, state) {
        (AppTheme::Dark, TrayIconState::Idle) => {
            reveal_strlit("resources/tray_idle.png");
            assert(icon_path(AppTheme::Dark, TrayIconState::Idle).take(10) =~= "resources/"@);
            assert(icon_path(AppTheme::Dark, TrayIconState::Idle).skip(19) =~= ".png"@);
            assert(icon_path(AppTheme::Dark, TrayIconState::Idle).skip(14)[1] != "_dark.png"@[1]);
        },
        (AppTheme::Dark, TrayIconState::Recording) => {
            reveal_strlit("resources/tray_recording.png");
            assert(icon_path(AppTheme::Dark, TrayIconState::Recording).take(10) =~= "resources/"@);
            assert(icon_path(AppTheme::Dark, TrayIconState::Recording).skip(24) =~= ".png"@);
            assert(icon_path(AppTheme::Dark, TrayIconState::Recording).skip(19)[0] != "_dark.png"@[0]);
        },
        (AppTheme::Dark, TrayIconState::Transcribing) => {
            reveal_strlit("resources/tray_transcribing.png");
            assert(icon_path(AppTheme::Dark, TrayIconState::Transcribing).take(10) =~= "resources/"@);
            assert(icon_path(AppTheme::Dark, TrayIconState::Transcribing).skip(27) =~= ".png"@);
            assert(icon_path(AppTheme::Dark, TrayIconState::Transcribing).skip(22)[0] != "_dark.png"@[0]);
        },
        (AppTheme::Light, TrayIconState::Idle) => {
            reveal_strlit("resources/tray_idle_dark.png");
            assert(icon_path(AppTheme::Light, TrayIconState::Idle).take(10) =~= "resources/"@);
            assert(icon_path(AppTheme::Light, TrayIconState::Idle).skip(24) =~= ".png"@);
            assert(icon_path(AppTheme::Light, TrayIconState::Idle).skip(19) =~= "_dark.png"@);
        },
        (AppTheme::Light, TrayIconState::Recording) => {
            reveal_strlit("resources/tray_recording_dark.png");
            assert(icon_path(AppTheme::Light, TrayIconState::Recording).take(10) =~= "resources/"@);
            assert(icon_path(AppTheme::Light, TrayIconState::Recording).skip(29) =~= ".png"@);
            assert(icon_path(AppTheme::Light, TrayIconState::Recording).skip(24) =~= "_dark.png"@);
        },
        (AppTheme::Light, TrayIconState::Transcribing) => {
            reveal_strlit("resources/tray_transcribing_dark.png");
            assert(icon_path(AppTheme::Light, TrayIconState::Transcribing).take(10) =~= "resources/"@);
            assert(icon_path(AppTheme::Light, TrayIconState::Transcribing).skip(32) =~= ".png"@);
            assert(icon_path(AppTheme::Light, TrayIconState::Transcribing).skip(27) =~= "_dark.png"@);
        },
        (AppTheme::Colored, TrayIconState::Idle) => {
            reveal_strlit("resources/codictate.png");
            assert(icon_path(AppTheme::Colored, TrayIconState::Idle).take(10) =~= "resources/"@);
            assert(icon_path(AppTheme::Colored, TrayIconState::Idle).skip(19) =~= ".png"@);
            assert(icon_path(AppTheme::Colored, TrayIconState::Idle).skip(14)[0] != "_dark.png"@[0]);
        },
        (AppTheme::Colored, TrayIconState::Recording) => {
            reveal_strlit("resources/recording.png");
            assert(icon_path(AppTheme::Colored, TrayIconState::Recording).take(10) =~= "resources/"@);
            assert(icon_path(AppTheme::Colored, TrayIconState::Recording).skip(19) =~= ".png"@);
            assert(icon_path(AppTheme::Colored, TrayIconState::Recording).skip(14)[0] != "_dark.png"@[0]);
        },
        (AppTheme::Colored, TrayIconState::Transcribing) => {
            reveal_strlit("resources/transcribing.png");
            assert(icon_path(AppTheme::Colored, TrayIconState::Transcribing).take(10) =~= "resources/"@);
            assert(icon_path(AppTheme::Colored, TrayIconState::Transcribing).skip(22) =~= ".png"@);
            assert(icon_path(AppTheme::Colored, TrayIconState::Transcribing).skip(17)[0] != "_dark.png"@[0]);
        },
    }
}

/// Distinct themes and states have distinct icon paths.
proof fn lemma_icon_paths_differ(t1: AppTheme, s1: TrayIconState, t2: AppTheme, s2: TrayIconState)
    requires
        (t1, s1) != (t2, s2),
    ensures
        icon_path(t1, s1) != icon_path(t2, s2),
{
    reveal_strlit("resources/tray_idle.png");
    reveal_strlit("resources/tray_recording.png");
    reveal_strlit("resources/tray_transcribing.png");
    reveal_strlit("resources/tray_idle_dark.png");
    reveal_strlit("resources/tray_recording_dark.png");
    reveal_strlit("resources/tray_transcribing_dark.png");
    reveal_strlit("resources/codictate.png");
    reveal_strlit("resources/recording.png");
    reveal_strlit("resources/transcribing.png");
    match (t1, s1, t2, s2) {
        (AppTheme::Dark, TrayIconState::Idle, AppTheme::Dark, TrayIconState::Recording) => {
            assert(icon_path(AppTheme::Dark, TrayIconState::Idle).len() != icon_path(AppTheme::Dark, TrayIconState::Recording).len());
        },
        (AppTheme::Dark, TrayIconState::Idle, AppTheme::Dark, TrayIconState::Transcribing) => {
            assert(icon_path(AppTheme::Dark, TrayIconState::Idle).len() != icon_path(AppTheme::Dark, TrayIconState::Transcribing).len());
        },
        (AppTheme::Dark, TrayIconState::Idle, AppTheme::Light, TrayIconState::Idle) => {
            assert(icon_path(AppTheme::Dark, TrayIconState::Idle).len() != icon_path(AppTheme::Light, TrayIconState::Idle).len());
        },
        (AppTheme::Dark, TrayIconState::Idle, AppTheme::Light, TrayIconState::Recording) => {
            assert(icon_path(AppTheme::Dark, TrayIconState::Idle).len() != icon_path(AppTheme::Light, TrayIconState::Recording).len());
        },
        (AppTheme::Dark, TrayIconState::Idle, AppTheme::Light, TrayIconState::Transcribing) => {
            assert(icon_path(AppTheme::Dark, TrayIconState::Idle).len() != icon_path(AppTheme::Light, TrayIconState::Transcribing).len());
        },
        (AppTheme::Dark, TrayIconState::Idle, AppTheme::Colored, TrayIconState::Idle) => {
            assert(icon_path(AppTheme::Dark, TrayIconState::Idle)[10] != icon_path(AppTheme::Colored, TrayIconState::Idle)[10]);
        },
        (AppTheme::Dark, TrayIconState::Idle, AppTheme::Colored, TrayIconState::Recording) => {
            assert(icon_path(AppTheme::Dark, TrayIconState::Idle)[10] != icon_path(AppTheme::Colored, TrayIconState::Recording)[10]);
        },
        (AppTheme::Dark, TrayIconState::Idle, AppTheme::Colored, TrayIconState::Transcribing) => {
            assert(icon_path(AppTheme::Dark, TrayIconState::Idle).len() != icon_path(AppTheme::Colored, TrayIconState::Transcribing).len());
        },
        (AppTheme::Dark, TrayIconState::Recording, AppTheme::Dark, TrayIconState::Idle) => {
            assert(icon_path(AppTheme::Dark, TrayIconState::Recording).len() != icon_path(AppTheme::Dark, TrayIconState::Idle).len());
        },
        (AppTheme::Dark, TrayIconState::Recording, AppTheme::Dark, TrayIconState::Transcribing) => {
            assert(icon_path(AppTheme::Dark, TrayIconState::Recording).len() != icon_path(AppTheme::Dark, TrayIconState::Transcribing).len());
        },
        (AppTheme::Dark, TrayIconState::Recording, AppTheme::Light, TrayIconState::Idle) => {
            assert(icon_path(AppTheme::Dark, TrayIconState::Recording)[15] != icon_path(AppTheme::Light, TrayIconState::Idle)[15]);
        },
        (AppTheme::Dark, TrayIconState::Recording, AppTheme::Light, TrayIconState::Recording) => {
            assert(icon_path(AppTheme::Dark, TrayIconState::Recording).len() != icon_path(AppTheme::Light, TrayIconState::Recording).len());
        },
        (AppTheme::Dark, TrayIconState::Recording, AppTheme::Light, TrayIconState::Transcribing) => {
            assert(icon_path(AppTheme::Dark, TrayIconState::Recording).len() != icon_path(AppTheme::Light, TrayIconState::Transcribing).len());
        },
        (AppTheme::Dark, TrayIconState::Recording, AppTheme::Colored, TrayIconState::Idle) => {
            assert(icon_path(AppTheme::Dark, TrayIconState::Recording).len() != icon_path(AppTheme::Colored, TrayIconState::Idle).len());
        },
        (AppTheme::Dark, TrayIconState::Recording, AppTheme::Colored, TrayIconState::Recording) => {
            assert(icon_path(AppTheme::Dark, TrayIconState::Recording).len() != icon_path(AppTheme::Colored, TrayIconState::Recording).len());
        },
        (AppTheme::Dark, TrayIconState::Recording, AppTheme::Colored, TrayIconState::Transcribing) => {
            assert(icon_path(AppTheme::Dark, TrayIconState::Recording).len() != icon_path(AppTheme::Colored, TrayIconState::Transcribing).len());
        },
        (AppTheme::Dark, TrayIconState::Transcribing, AppTheme::Dark, TrayIconState::Idle) => {
            assert(icon_path(AppTheme::Dark, TrayIconState::Transcribing).len() != icon_path(AppTheme::Dark, TrayIconState::Idle).len());
        },
        (AppTheme::Dark, TrayIconState::Transcribing, AppTheme::Dark, TrayIconState::Recording) => {
            assert(icon_path(AppTheme::Dark, TrayIconState::Transcribing).len() != icon_path(AppTheme::Dark, TrayIconState::Recording).len());
        },
        (AppTheme::Dark, TrayIconState::Transcribing, AppTheme::Light, TrayIconState::Idle) => {
            assert(icon_path(AppTheme::Dark, TrayIconState::Transcribing).len() != icon_path(AppTheme::Light, TrayIconState::Idle).len());
        },
        (AppTheme::Dark, TrayIconState::Transcribing, AppTheme::Light, TrayIconState::Recording) => {
            assert(icon_path(AppTheme::Dark, TrayIconState::Transcribing).len() != icon_path(AppTheme::Light, TrayIconState::Recording).len());
        },
        (AppTheme::Dark, TrayIconState::Transcribing, AppTheme::Light, TrayIconState::Transcribing) => {
            assert(icon_path(AppTheme::Dark, TrayIconState::Transcribing).len() != icon_path(AppTheme::Light, TrayIconState::Transcribing).len());
        },
        (AppTheme::Dark, TrayIconState::Transcribing, AppTheme::Colored, TrayIconState::Idle) => {
            assert(icon_path(AppTheme::Dark, TrayIconState::Transcribing).len() != icon_path(AppTheme::Colored, TrayIconState::Idle).len());
        },
        (AppTheme::Dark, TrayIconState::Transcribing, AppTheme::Colored, TrayIconState::Recording) => {
            assert(icon_path(AppTheme::Dark, TrayIconState::Transcribing).len() != icon_path(AppTheme::Colored, TrayIconState::Recording).len());
        },
        (AppTheme::Dark, TrayIconState::Transcribing, AppTheme::Colored, TrayIconState::Transcribing) => {
            assert(icon_path(AppTheme::Dark, TrayIconState::Transcribing).len() != icon_path(AppTheme::Colored, TrayIconState::Transcribing).len());
        },
        (AppTheme::Light, TrayIconState::Idle, AppTheme::Dark, TrayIconState::Idle) => {
            assert(icon_path(AppTheme::Light, TrayIconState::Idle).len() != icon_path(AppTheme::Dark, TrayIconState::Idle).len());
        },
        (AppTheme::Light, TrayIconState::Idle, AppTheme::Dark, TrayIconState::Recording) => {
            assert(icon_path(AppTheme::Light, TrayIconState::Idle)[15] != icon_path(AppTheme::Dark, TrayIconState::Recording)[15]);
        },
        (AppTheme::Light, TrayIconState::Idle, AppTheme::Dark, TrayIconState::Transcribing) => {
            assert(icon_path(AppTheme::Light, TrayIconState::Idle).len() != icon_path(AppTheme::Dark, TrayIconState::Transcribing).len());
        },
        (AppTheme::Light, TrayIconState::Idle, AppTheme::Light, TrayIconState::Recording) => {
            assert(icon_path(AppTheme::Light, TrayIconState::Idle).len() != icon_path(AppTheme::Light, TrayIconState::Recording).len());
        },
        (AppTheme::Light, TrayIconState::Idle, AppTheme::Light, TrayIconState::Transcribing) => {
            assert(icon_path(AppTheme::Light, TrayIconState::Idle).len() != icon_path(AppTheme::Light, TrayIconState::Transcribing).len());
        },
        (AppTheme::Light, TrayIconState::Idle, AppTheme::Colored, TrayIconState::Idle) => {
            assert(icon_path(AppTheme::Light, TrayIconState::Idle).len() != icon_path(AppTheme::Colored, TrayIconState::Idle).len());
        },
        (AppTheme::Light, TrayIconState::Idle, AppTheme::Colored, TrayIconState::Recording) => {
            assert(icon_path(AppTheme::Light, TrayIconState::Idle).len() != icon_path(AppTheme::Colored, TrayIconState::Recording).len());
        },
        (AppTheme::Light, TrayIconState::Idle, AppTheme::Colored, TrayIconState::Transcribing) => {
            assert(icon_path(AppTheme::Light, TrayIconState::Idle).len() != icon_path(AppTheme::Colored, TrayIconState::Transcribing).len());
        },
        (AppTheme::Light, TrayIconState::Recording, AppTheme::Dark, TrayIconState::Idle) => {
            assert(icon_path(AppTheme::Light, TrayIconState::Recording).len() != icon_path(AppTheme::Dark, TrayIconState::Idle).len());
        },
        (AppTheme::Light, TrayIconState::Recording, AppTheme::Dark, TrayIconState::Recording) => {
            assert(icon_path(AppTheme::Light, TrayIconState::Recording).len() != icon_path(AppTheme::Dark, TrayIconState::Recording).len());
        },
        (AppTheme::Light, TrayIconState::Recording, AppTheme::Dark, TrayIconState::Transcribing) => {
            assert(icon_path(AppTheme::Light, TrayIconState::Recording).len() != icon_path(AppTheme::Dark, TrayIconState::Transcribing).len());
        },
        (AppTheme::Light, TrayIconState::Recording, AppTheme::Light, TrayIconState::Idle) => {
            assert(icon_path(AppTheme::Light, TrayIconState::Recording).len() != icon_path(AppTheme::Light, TrayIconState::Idle).len());
        },
        (AppTheme::Light, TrayIconState::Recording, AppTheme::Light, TrayIconState::Transcribing) => {
            assert(icon_path(AppTheme::Light, TrayIconState::Recording).len() != icon_path(AppTheme::Light, TrayIconState::Transcribing).len());
        },
        (AppTheme::Light, TrayIconState::Recording, AppTheme::Colored, TrayIconState::Idle) => {
            assert(icon_path(AppTheme::Light, TrayIconState::Recording).len() != icon_path(AppTheme::Colored, TrayIconState::Idle).len());
        },
        (AppTheme::Light, TrayIconState::Recording, AppTheme::Colored, TrayIconState::Recording) => {
            assert(icon_path(AppTheme::Light, TrayIconState::Recording).len() != icon_path(AppTheme::Colored, TrayIconState::Recording).len());
        },
        (AppTheme::Light, TrayIconState::Recording, AppTheme::Colored, TrayIconState::Transcribing) => {
            assert(icon_path(AppTheme::Light, TrayIconState::Recording).len() != icon_path(AppTheme::Colored, TrayIconState::Transcribing).len());
        },
        (AppTheme::Light, TrayIconState::Transcribing, AppTheme::Dark, TrayIconState::Idle) => {
            assert(icon_path(AppTheme::Light, TrayIconState::Transcribing).len() != icon_path(AppTheme::Dark, TrayIconState::Idle).len());
        },
        (AppTheme::Light, TrayIconState::Transcribing, AppTheme::Dark, TrayIconState::Recording) => {
            assert(icon_path(AppTheme::Light, TrayIconState::Transcribing).len() != icon_path(AppTheme::Dark, TrayIconState::Recording).len());
        },
        (AppTheme::Light, TrayIconState::Transcribing, AppTheme::Dark, TrayIconState::Transcribing) => {
            assert(icon_path(AppTheme::Light, TrayIconState::Transcribing).len() != icon_path(AppTheme::Dark, TrayIconState::Transcribing).len());
        },
        (AppTheme::Light, TrayIconState::Transcribing, AppTheme::Light, TrayIconState::Idle) => {
            assert(icon_path(AppTheme::Light, TrayIconState::Transcribing).len() != icon_path(AppTheme::Light, TrayIconState::Idle).len());
        },
        (AppTheme::Light, TrayIconState::Transcribing, AppTheme::Light, TrayIconState::Recording) => {
            assert(icon_path(AppTheme::Light, TrayIconState::Transcribing).len() != icon_path(AppTheme::Light, TrayIconState::Recording).len());
        },
        (AppTheme::Light, TrayIconState::Transcribing, AppTheme::Colored, TrayIconState::Idle) => {
            assert(icon_path(AppTheme::Light, TrayIconState::Transcribing).len() != icon_path(AppTheme::Colored, TrayIconState::Idle).len());
        },
        (AppTheme::Light, TrayIconState::Transcribing, AppTheme::Colored, TrayIconState::Recording) => {
            assert(icon_path(AppTheme::Light, TrayIconState::Transcribing).len() != icon_path(AppTheme::Colored, TrayIconState::Recording).len());
        },
        (AppTheme::Light, TrayIconState::Transcribing, AppTheme::Colored, TrayIconState::Transcribing) => {
            assert(icon_path(AppTheme::Light, TrayIconState::Transcribing).len() != icon_path(AppTheme::Colored, TrayIconState::Transcribing).len());
        },
        (AppTheme::Colored, TrayIconState::Idle, AppTheme::Dark, TrayIconState::Idle) => {
            assert(icon_path(AppTheme::Colored, TrayIconState::Idle)[10] != icon_path(AppTheme::Dark, TrayIconState::Idle)[10]);
        },
        (AppTheme::Colored, TrayIconState::Idle, AppTheme::Dark, TrayIconState::Recording) => {
            assert(icon_path(AppTheme::Colored, TrayIconState::Idle).len() != icon_path(AppTheme::Dark, TrayIconState::Recording).len());
        },
        (AppTheme::Colored, TrayIconState::Idle, AppTheme::Dark, TrayIconState::Transcribing) => {
            assert(icon_path(AppTheme::Colored, TrayIconState::Idle).len() != icon_path(AppTheme::Dark, TrayIconState::Transcribing).len());
        },
        (AppTheme::Colored, TrayIconState::Idle, AppTheme::Light, TrayIconState::Idle) => {
            assert(icon_path(AppTheme::Colored, TrayIconState::Idle).len() != icon_path(AppTheme::Light, TrayIconState::Idle).len());
        },
        (AppTheme::Colored, TrayIconState::Idle, AppTheme::Light, TrayIconState::Recording) => {
            assert(icon_path(AppTheme::Colored, TrayIconState::Idle).len() != icon_path(AppTheme::Light, TrayIconState::Recording).len());
        },
        (AppTheme::Colored, TrayIconState::Idle, AppTheme::Light, TrayIconState::Transcribing) => {
            assert(icon_path(AppTheme::Colored, TrayIconState::Idle).len() != icon_path(AppTheme::Light, TrayIconState::Transcribing).len());
        },
        (AppTheme::Colored, TrayIconState::Idle, AppTheme::Colored, TrayIconState::Recording) => {
            assert(icon_path(AppTheme::Colored, TrayIconState::Idle)[10] != icon_path(AppTheme::Colored, TrayIconState::Recording)[10]);
        },
        (AppTheme::Colored, TrayIconState::Idle, AppTheme::Colored, TrayIconState::Transcribing) => {
            assert(icon_path(AppTheme::Colored, TrayIconState::Idle).len() != icon_path(AppTheme::Colored, TrayIconState::Transcribing).len());
        },
        (AppTheme::Colored, TrayIconState::Recording, AppTheme::Dark, TrayIconState::Idle) => {
            assert(icon_path(AppTheme::Colored, TrayIconState::Recording)[10] != icon_path(AppTheme::Dark, TrayIconState::Idle)[10]);
        },
        (AppTheme::Colored, TrayIconState::Recording, AppTheme::Dark, TrayIconState::Recording) => {
            assert(icon_path(AppTheme::Colored, TrayIconState::Recording).len() != icon_path(AppTheme::Dark, TrayIconState::Recording).len());
        },
        (AppTheme::Colored, TrayIconState::Recording, AppTheme::Dark, TrayIconState::Transcribing) => {
            assert(icon_path(AppTheme::Colored, TrayIconState::Recording).len() != icon_path(AppTheme::Dark, TrayIconState::Transcribing).len());
        },
        (AppTheme::Colored, TrayIconState::Recording, AppTheme::Light, TrayIconState::Idle) => {
            assert(icon_path(AppTheme::Colored, TrayIconState::Recording).len() != icon_path(AppTheme::Light, TrayIconState::Idle).len());
        },
        (AppTheme::Colored, TrayIconState::Recording, AppTheme::Light, TrayIconState::Recording) => {
            assert(icon_path(AppTheme::Colored, TrayIconState::Recording).len() != icon_path(AppTheme::Light, TrayIconState::Recording).len());
        },
        (AppTheme::Colored, TrayIconState::Recording, AppTheme::Light, TrayIconState::Transcribing) => {
            assert(icon_path(AppTheme::Colored, TrayIconState::Recording).len() != icon_path(AppTheme::Light, TrayIconState::Transcribing).len());
        },
        (AppTheme::Colored, TrayIconState::Recording, AppTheme::Colored, TrayIconState::Idle) => {
            assert(icon_path(AppTheme::Colored, TrayIconState::Recording)[10] != icon_path(AppTheme::Colored, TrayIconState::Idle)[10]);
        },
        (AppTheme::Colored, TrayIconState::Recording, AppTheme::Colored, TrayIconState::Transcribing) => {
            assert(icon_path(AppTheme::Colored, TrayIconState::Recording).len() != icon_path(AppTheme::Colored, TrayIconState::Transcribing).len());
        },
        (AppTheme::Colored, TrayIconState::Transcribing, AppTheme::Dark, TrayIconState::Idle) => {
            assert(icon_path(AppTheme::Colored, TrayIconState::Transcribing).len() != icon_path(AppTheme::Dark, TrayIconState::Idle).len());
        },
        (AppTheme::Colored, TrayIconState::Transcribing, AppTheme::Dark, TrayIconState::Recording) => {
            assert(icon_path(AppTheme::Colored, TrayIconState::Transcribing).len() != icon_path(AppTheme::Dark, TrayIconState::Recording).len());
        },
        (AppTheme::Colored, TrayIconState::Transcribing, AppTheme::Dark, TrayIconState::Transcribing) => {
            assert(icon_path(AppTheme::Colored, TrayIconState::Transcribing).len() != icon_path(AppTheme::Dark, TrayIconState::Transcribing).len());
        },
        (AppTheme::Colored, TrayIconState::Transcribing, AppTheme::Light, TrayIconState::Idle) => {
            assert(icon_path(AppTheme::Colored, TrayIconState::Transcribing).len() != icon_path(AppTheme::Light, TrayIconState::Idle).len());
        },
        (AppTheme::Colored, TrayIconState::Transcribing, AppTheme::Light, TrayIconState::Recording) => {
            assert(icon_path(AppTheme::Colored, TrayIconState::Transcribing).len() != icon_path(AppTheme::Light, TrayIconState::Recording).len());
        },
        (AppTheme::Colored, TrayIconState::Transcribing, AppTheme::Light, TrayIconState::Transcribing) => {
            assert(icon_path(AppTheme::Colored, TrayIconState::Transcribing).len() != icon_path(AppTheme::Light, TrayIconState::Transcribing).len());
        },
        (AppTheme::Colored, TrayIconState::Transcribing, AppTheme::Colored, TrayIconState::Idle) => {
            assert(icon_path(AppTheme::Colored, TrayIconState::Transcribing).len() != icon_path(AppTheme::Colored, TrayIconState::Idle).len());
        },
        (AppTheme::Colored, TrayIconState::Transcribing, AppTheme::Colored, TrayIconState::Recording) => {
            assert(icon_path(AppTheme::Colored, TrayIconState::Transcribing).len() != icon_path(AppTheme::Colored, TrayIconState::Recording).len());
        },
        _ => {},
    }
}

/// Every theme and state has its own icon, a PNG under `resources/`; the dark icons
/// (ending in `_dark.png`) are exactly those of the light theme.
pub proof fn law_icon_paths_distinct(t1: AppTheme, s1: TrayIconState, t2: AppTheme, s2: TrayIconState)
    ensures
        (t1, s1) != (t2, s2) ==> icon_path(t1, s1) != icon_path(t2, s2),
        starts_with(icon_path(t1, s1), "resources/"@),
        ends_with(icon_path(t1, s1), ".png"@),
        ends_with(icon_path(t1, s1), "_dark.png"@) <==> t1 == AppTheme::Light,
{
    lemma_icon_path_shape(t1, s1);
    if (t1, s1) != (t2, s2) {
        lemma_icon_paths_differ(t1, s1, t2, s2);
    }
}

} // verus!
