use codictate::overlay::{overlay_position_label, OverlayPosition};
use codictate::shortcut::choices::{
    parse_auto_submit_key, parse_clipboard_handling, parse_overlay_position, parse_paste_method,
    parse_sound_theme, AutoSubmitKey, ClipboardHandling, PasteMethod, SoundTheme,
};

#[test]
fn paste_methods_are_read_by_name() {
    assert_eq!(parse_paste_method("direct"), PasteMethod::Direct);
    assert_eq!(parse_paste_method("none"), PasteMethod::Off);
    assert_eq!(parse_paste_method("shift_insert"), PasteMethod::ShiftInsert);
    assert_eq!(parse_paste_method("ctrl_shift_v"), PasteMethod::CtrlShiftV);
    assert_eq!(parse_paste_method("bogus"), PasteMethod::CtrlV);
}

#[test]
fn unknown_choices_fall_back_to_defaults() {
    assert_eq!(parse_clipboard_handling("copy_to_clipboard"), ClipboardHandling::CopyToClipboard);
    assert_eq!(parse_clipboard_handling("x"), ClipboardHandling::DontModify);
    assert_eq!(parse_auto_submit_key("cmd_enter"), AutoSubmitKey::CmdEnter);
    assert_eq!(parse_auto_submit_key("ctrl_enter"), AutoSubmitKey::CtrlEnter);
    assert_eq!(parse_auto_submit_key(""), AutoSubmitKey::Enter);
    assert_eq!(parse_sound_theme("pop"), SoundTheme::Pop);
    assert_eq!(parse_sound_theme("custom"), SoundTheme::Custom);
    assert_eq!(parse_sound_theme("jazz"), SoundTheme::Marimba);
    assert_eq!(parse_overlay_position("left"), OverlayPosition::Bottom);
}

#[test]
fn overlay_position_names_round_trip() {
    for p in [OverlayPosition::Top, OverlayPosition::Bottom, OverlayPosition::Off] {
        assert_eq!(parse_overlay_position(overlay_position_label(p)), p);
    }
}
