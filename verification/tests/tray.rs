use codictate::history::HistoryEntry;
use codictate::tray::{
    get_icon_path, last_transcript_text, theme_for, tray_menu_items, AppTheme, SystemTheme,
    TrayIconState, TrayMenuItem,
};

fn build_entry(transcription: &str, post_processed: Option<&str>) -> HistoryEntry {
    HistoryEntry {
        id: 1,
        file_name: "handy-1.wav".to_string(),
        timestamp: 0,
        saved: false,
        title: "Recording".to_string(),
        transcription_text: transcription.to_string(),
        post_processed_text: post_processed.map(|text| text.to_string()),
        inserted_text: None,
        effective_text: transcription.to_string(),
        raw_text: transcription.to_string(),
        post_process_prompt: None,
        duration_ms: 0,
        file_path: String::new(),
        audio_file_exists: false,
    }
}

#[test]
fn uses_post_processed_text_when_available() {
    let entry = build_entry("raw", Some("processed"));
    assert_eq!(last_transcript_text(&entry), "processed");
}

#[test]
fn falls_back_to_raw_transcription() {
    let entry = build_entry("raw", None);
    assert_eq!(last_transcript_text(&entry), "raw");
}

#[test]
fn icons_follow_theme_and_state() {
    assert_eq!(get_icon_path(AppTheme::Dark, TrayIconState::Idle), "resources/tray_idle.png");
    assert_eq!(get_icon_path(AppTheme::Light, TrayIconState::Recording), "resources/tray_recording_dark.png");
    assert_eq!(get_icon_path(AppTheme::Colored, TrayIconState::Transcribing), "resources/transcribing.png");
    assert_eq!(theme_for(true, Some(SystemTheme::Light)), AppTheme::Colored);
    assert_eq!(theme_for(false, Some(SystemTheme::Light)), AppTheme::Light);
    assert_eq!(theme_for(false, Some(SystemTheme::Other)), AppTheme::Dark);
    assert_eq!(theme_for(false, None), AppTheme::Dark);
}

#[test]
fn tray_menu_offers_cancel_while_busy_and_copy_with_history() {
    assert_eq!(
        tray_menu_items(TrayIconState::Recording, false),
        vec![TrayMenuItem::Version, TrayMenuItem::Separator, TrayMenuItem::Cancel, TrayMenuItem::Separator, TrayMenuItem::CopyLastTranscript, TrayMenuItem::Separator, TrayMenuItem::Settings, TrayMenuItem::CheckUpdates, TrayMenuItem::Separator, TrayMenuItem::Quit]
    );
    assert_eq!(
        tray_menu_items(TrayIconState::Idle, true),
        vec![TrayMenuItem::Version, TrayMenuItem::Separator, TrayMenuItem::CopyLastTranscript, TrayMenuItem::Separator, TrayMenuItem::Settings, TrayMenuItem::CheckUpdates, TrayMenuItem::Separator, TrayMenuItem::Quit]
    );
    assert_eq!(
        tray_menu_items(TrayIconState::Idle, false),
        vec![TrayMenuItem::Version, TrayMenuItem::Separator, TrayMenuItem::Settings, TrayMenuItem::CheckUpdates, TrayMenuItem::Separator, TrayMenuItem::Quit]
    );
}

#[test]
fn every_theme_and_state_has_its_own_icon() {
    let themes = [AppTheme::Dark, AppTheme::Light, AppTheme::Colored];
    let states = [TrayIconState::Idle, TrayIconState::Recording, TrayIconState::Transcribing];
    let mut seen: Vec<&str> = Vec::new();
    for t in themes {
        for s in states {
            let p = get_icon_path(t, s);
            assert!(p.starts_with("resources/") && p.ends_with(".png"));
            assert_eq!(p.ends_with("_dark.png"), t == AppTheme::Light);
            assert!(!seen.contains(&p));
            seen.push(p);
        }
    }
    assert_eq!(get_icon_path(AppTheme::Light, TrayIconState::Recording), "resources/tray_recording_dark.png");
}
