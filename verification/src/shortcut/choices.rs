//! The settings chosen from a fixed list, read from the names the frontend sends; an
//! unknown name gives the setting's default.

use vstd::prelude::*;
use crate::overlay::OverlayPosition;
use crate::text::str_equals;

verus! {

/// How a transcription is pasted.
#[derive(Clone, Copy, Debug, PartialEq, Eq, Structural)]
pub enum PasteMethod {
    CtrlV,
    Direct,
    /// The text is not pasted.
    Off,
    ShiftInsert,
    CtrlShiftV,
}

/// What happens to the clipboard around a paste.
#[derive(Clone, Copy, Debug, PartialEq, Eq, Structural)]
pub enum ClipboardHandling {
    DontModify,
    CopyToClipboard,
}

/// The key sent after pasting when auto-submit is on.
#[derive(Clone, Copy, Debug, PartialEq, Eq, Structural)]
pub enum AutoSubmitKey {
    Enter,
    CtrlEnter,
    CmdEnter,
}

/// The sounds played for recording feedback.
#[derive(Clone, Copy, Debug, PartialEq, Eq, Structural)]
pub enum SoundTheme {
    Marimba,
    Pop,
    Custom,
}

/// The paste method named `name`; `ctrl_v` for an unknown name.
pub open spec fn paste_method_named(name: Seq<char>) -> PasteMethod {
    if name == "ctrl_v"@ {
        PasteMethod::CtrlV
    } else if name == "direct"@ {
        PasteMethod::Direct
    } else if name == "none"@ {
        PasteMethod::Off
    } else if name == "shift_insert"@ {
        PasteMethod::ShiftInsert
    } else if name == "ctrl_shift_v"@ {
        PasteMethod::CtrlShiftV
    } else {
        PasteMethod::CtrlV
    }
}

/// Reads a paste method.
pub fn parse_paste_method(name: &str) -> (r: PasteMethod)
    ensures
        r == paste_method_named(name@),
{
    if str_equals(name, "ctrl_v") {
        PasteMethod::CtrlV
    } else if str_equals(name, "direct") {
        PasteMethod::Direct
    } else if str_equals(name, "none") {
        PasteMethod::Off
    } else if str_equals(name, "shift_insert") {
        PasteMethod::ShiftInsert
    } else if str_equals(name, "ctrl_shift_v") {
        PasteMethod::CtrlShiftV
    } else {
        PasteMethod::CtrlV
    }
}

/// The clipboard handling named `name`; `dont_modify` for an unknown name.
pub open spec fn clipboard_handling_named(name: Seq<char>) -> ClipboardHandling {
    if name == "copy_to_clipboard"@ {
        ClipboardHandling::CopyToClipboard
    } else {
        ClipboardHandling::DontModify
    }
}

/// Reads a clipboard handling.
pub fn parse_clipboard_handling(name: &str) -> (r: ClipboardHandling)
    ensures
        r == clipboard_handling_named(name@),
{
    if str_equals(name, "copy_to_clipboard") {
        ClipboardHandling::CopyToClipboard
    } else {
        ClipboardHandling::DontModify
    }
}

/// The auto-submit key named `name`; `enter` for an unknown name.
pub open spec fn auto_submit_key_named(name: Seq<char>) -> AutoSubmitKey {
    if name == "ctrl_enter"@ {
        AutoSubmitKey::CtrlEnter
    } else if name == "cmd_enter"@ {
        AutoSubmitKey::CmdEnter
    } else {
        AutoSubmitKey::Enter
    }
}

/// Reads an auto-submit key.
pub fn parse_auto_submit_key(name: &str) -> (r: AutoSubmitKey)
    ensures
        r == auto_submit_key_named(name@),
{
    if str_equals(name, "ctrl_enter") {
        AutoSubmitKey::CtrlEnter
    } else if str_equals(name, "cmd_enter") {
        AutoSubmitKey::CmdEnter
    } else {
        AutoSubmitKey::Enter
    }
}

/// The sound theme named `name`; `marimba` for an unknown name.
pub open spec fn sound_theme_named(name: Seq<char>) -> SoundTheme {
    if name == "pop"@ {
        SoundTheme::Pop
    } else if name == "custom"@ {
        SoundTheme::Custom
    } else {
        SoundTheme::Marimba
    }
}

/// Reads a sound theme.
pub fn parse_sound_theme(name: &str) -> (r: SoundTheme)
    ensures
        r == sound_theme_named(name@),
{
    if str_equals(name, "pop") {
        SoundTheme::Pop
    } else if str_equals(name, "custom") {
        SoundTheme::Custom
    } else {
        SoundTheme::Marimba
    }
}

/// The overlay position named `name`; `bottom` for an unknown name.
pub open spec fn overlay_position_named(name: Seq<char>) -> OverlayPosition {
    if name == "none"@ {
        OverlayPosition::Off
    } else if name == "top"@ {
        OverlayPosition::Top
    } else {
        OverlayPosition::Bottom
    }
}

/// Reads an overlay position.
pub fn parse_overlay_position(name: &str) -> (r: OverlayPosition)
    ensures
        r == overlay_position_named(name@),
{
    if str_equals(name, "none") {
        OverlayPosition::Off
    } else if str_equals(name, "top") {
        OverlayPosition::Top
    } else {
        OverlayPosition::Bottom
    }
}

/// Reading an overlay position's name gives the position back.
pub proof fn law_overlay_position_names_round_trip(position: OverlayPosition)
    ensures
        overlay_position_named(crate::overlay::position_label(position)) == position,
{
    reveal_strlit("none");
    reveal_strlit("top");
    reveal_strlit("bottom");
    match position {
        OverlayPosition::Top => {
            assert("top"@.len() != "none"@.len());
        },
        OverlayPosition::Bottom => {
            assert("bottom"@.len() != "none"@.len());
            assert("bottom"@.len() != "top"@.len());
        },
        OverlayPosition::Off => {},
    }
}

} // verus!
