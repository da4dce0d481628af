//! System shortcuts that may not be bound, per platform, and the check of a shortcut
//! against them.

use vstd::prelude::*;
use crate::text::{chars_equal, chars_of, concat_str, split_chars, split_on, starts_with, str_equals, str_lowercase_mapping, str_to_lowercase, string_from_chars, views};

verus! {

/// The operating system whose reserved shortcuts apply.
#[derive(Clone, Copy, Debug, PartialEq, Eq, Structural)]
pub enum Platform {
    MacOs,
    Windows,
    Linux,
}

/// Information about a reserved shortcut.
#[derive(Clone, Copy, Debug, PartialEq, Eq)]
pub struct ReservedShortcut {
    pub translation_key: &'static str,
}

/// Entry `i` of a platform's reserved shortcuts: the shortcut in lowercase `+`-joined form
/// and the translation key of the reason. The `fn` system shortcuts close every list.
pub open spec fn reserved_entry(platform: Platform, i: usize) -> Option<(Seq<char>, Seq<char>)> {
    match platform {
        Platform::MacOs => match i {
            0 => Some(("command+q"@, "shortcuts.reserved.app_control"@)),
            1 => Some(("cmd+q"@, "shortcuts.reserved.app_control"@)),
            2 => Some(("command+h"@, "shortcuts.reserved.app_control"@)),
            3 => Some(("cmd+h"@, "shortcuts.reserved.app_control"@)),
            4 => Some(("command+option+h"@, "shortcuts.reserved.app_control"@)),
            5 => Some(("cmd+option+h"@, "shortcuts.reserved.app_control"@)),
            6 => Some(("command+alt+h"@, "shortcuts.reserved.app_control"@)),
            7 => Some(("cmd+alt+h"@, "shortcuts.reserved.app_control"@)),
            8 => Some(("command+m"@, "shortcuts.reserved.app_control"@)),
            9 => Some(("cmd+m"@, "shortcuts.reserved.app_control"@)),
            10 => Some(("command+option+m"@, "shortcuts.reserved.app_control"@)),
            11 => Some(("cmd+option+m"@, "shortcuts.reserved.app_control"@)),
            12 => Some(("command+alt+m"@, "shortcuts.reserved.app_control"@)),
            13 => Some(("cmd+alt+m"@, "shortcuts.reserved.app_control"@)),
            14 => Some(("command+w"@, "shortcuts.reserved.app_control"@)),
            15 => Some(("cmd+w"@, "shortcuts.reserved.app_control"@)),
            16 => Some(("command+option+w"@, "shortcuts.reserved.app_control"@)),
            17 => Some(("cmd+option+w"@, "shortcuts.reserved.app_control"@)),
            18 => Some(("command+alt+w"@, "shortcuts.reserved.app_control"@)),
            19 => Some(("cmd+alt+w"@, "shortcuts.reserved.app_control"@)),
            20 => Some(("command+comma"@, "shortcuts.reserved.app_control"@)),
            21 => Some(("cmd+comma"@, "shortcuts.reserved.app_control"@)),
            22 => Some(("command+,"@, "shortcuts.reserved.app_control"@)),
            23 => Some(("cmd+,"@, "shortcuts.reserved.app_control"@)),
            24 => Some(("command+space"@, "shortcuts.reserved.spotlight"@)),
            25 => Some(("cmd+space"@, "shortcuts.reserved.spotlight"@)),
            26 => Some(("command+option+space"@, "shortcuts.reserved.spotlight_finder"@)),
            27 => Some(("cmd+option+space"@, "shortcuts.reserved.spotlight_finder"@)),
            28 => Some(("command+alt+space"@, "shortcuts.reserved.spotlight_finder"@)),
            29 => Some(("cmd+alt+space"@, "shortcuts.reserved.spotlight_finder"@)),
            30 => Some(("command+tab"@, "shortcuts.reserved.app_switching"@)),
            31 => Some(("cmd+tab"@, "shortcuts.reserved.app_switching"@)),
            32 => Some(("command+shift+tab"@, "shortcuts.reserved.app_switching"@)),
            33 => Some(("cmd+shift+tab"@, "shortcuts.reserved.app_switching"@)),
            34 => Some(("command+`"@, "shortcuts.reserved.app_switching"@)),
            35 => Some(("cmd+`"@, "shortcuts.reserved.app_switching"@)),
            36 => Some(("command+option+d"@, "shortcuts.reserved.system_ui"@)),
            37 => Some(("cmd+option+d"@, "shortcuts.reserved.system_ui"@)),
            38 => Some(("command+alt+d"@, "shortcuts.reserved.system_ui"@)),
            39 => Some(("cmd+alt+d"@, "shortcuts.reserved.system_ui"@)),
            40 => Some(("command+option+esc"@, "shortcuts.reserved.system_ui"@)),
            41 => Some(("cmd+option+esc"@, "shortcuts.reserved.system_ui"@)),
            42 => Some(("command+alt+esc"@, "shortcuts.reserved.system_ui"@)),
            43 => Some(("cmd+alt+esc"@, "shortcuts.reserved.system_ui"@)),
            44 => Some(("control+command+q"@, "shortcuts.reserved.system_ui"@)),
            45 => Some(("ctrl+cmd+q"@, "shortcuts.reserved.system_ui"@)),
            46 => Some(("shift+command+q"@, "shortcuts.reserved.system_ui"@)),
            47 => Some(("shift+cmd+q"@, "shortcuts.reserved.system_ui"@)),
            48 => Some(("option+shift+command+q"@, "shortcuts.reserved.system_ui"@)),
            49 => Some(("opt+shift+cmd+q"@, "shortcuts.reserved.system_ui"@)),
            50 => Some(("alt+shift+cmd+q"@, "shortcuts.reserved.system_ui"@)),
            51 => Some(("control+space"@, "shortcuts.reserved.input_source_prev"@)),
            52 => Some(("ctrl+space"@, "shortcuts.reserved.input_source_prev"@)),
            53 => Some(("control+option+space"@, "shortcuts.reserved.input_source_next"@)),
            54 => Some(("ctrl+option+space"@, "shortcuts.reserved.input_source_next"@)),
            55 => Some(("control+alt+space"@, "shortcuts.reserved.input_source_next"@)),
            56 => Some(("ctrl+alt+space"@, "shortcuts.reserved.input_source_next"@)),
            57 => Some(("control+up"@, "shortcuts.reserved.mission_control"@)),
            58 => Some(("ctrl+up"@, "shortcuts.reserved.mission_control"@)),
            59 => Some(("control+down"@, "shortcuts.reserved.mission_control"@)),
            60 => Some(("ctrl+down"@, "shortcuts.reserved.mission_control"@)),
            61 => Some(("control+left"@, "shortcuts.reserved.mission_control"@)),
            62 => Some(("ctrl+left"@, "shortcuts.reserved.mission_control"@)),
            63 => Some(("control+right"@, "shortcuts.reserved.mission_control"@)),
            64 => Some(("ctrl+right"@, "shortcuts.reserved.mission_control"@)),
            65 => Some(("control+1"@, "shortcuts.reserved.mission_control"@)),
            66 => Some(("ctrl+1"@, "shortcuts.reserved.mission_control"@)),
            67 => Some(("control+2"@, "shortcuts.reserved.mission_control"@)),
            68 => Some(("ctrl+2"@, "shortcuts.reserved.mission_control"@)),
            69 => Some(("control+f2"@, "shortcuts.reserved.system_focus"@)),
            70 => Some(("ctrl+f2"@, "shortcuts.reserved.system_focus"@)),
            71 => Some(("control+f3"@, "shortcuts.reserved.system_focus"@)),
            72 => Some(("ctrl+f3"@, "shortcuts.reserved.system_focus"@)),
            73 => Some(("control+f4"@, "shortcuts.reserved.system_focus"@)),
            74 => Some(("ctrl+f4"@, "shortcuts.reserved.system_focus"@)),
            75 => Some(("control+f5"@, "shortcuts.reserved.system_focus"@)),
            76 => Some(("ctrl+f5"@, "shortcuts.reserved.system_focus"@)),
            77 => Some(("control+f8"@, "shortcuts.reserved.system_focus"@)),
            78 => Some(("ctrl+f8"@, "shortcuts.reserved.system_focus"@)),
            79 => Some(("option+command+8"@, "shortcuts.reserved.accessibility"@)),
            80 => Some(("opt+cmd+8"@, "shortcuts.reserved.accessibility"@)),
            81 => Some(("alt+cmd+8"@, "shortcuts.reserved.accessibility"@)),
            82 => Some(("command+f5"@, "shortcuts.reserved.accessibility"@)),
            83 => Some(("cmd+f5"@, "shortcuts.reserved.accessibility"@)),
            84 => Some(("option+command+f5"@, "shortcuts.reserved.accessibility"@)),
            85 => Some(("opt+cmd+f5"@, "shortcuts.reserved.accessibility"@)),
            86 => Some(("alt+cmd+f5"@, "shortcuts.reserved.accessibility"@)),
            87 => Some(("control+option+command+8"@, "shortcuts.reserved.accessibility"@)),
            88 => Some(("ctrl+opt+cmd+8"@, "shortcuts.reserved.accessibility"@)),
            89 => Some(("ctrl+alt+cmd+8"@, "shortcuts.reserved.accessibility"@)),
            90 => Some(("shift+command+3"@, "shortcuts.reserved.screenshots"@)),
            91 => Some(("shift+cmd+3"@, "shortcuts.reserved.screenshots"@)),
            92 => Some(("shift+command+4"@, "shortcuts.reserved.screenshots"@)),
            93 => Some(("shift+cmd+4"@, "shortcuts.reserved.screenshots"@)),
            94 => Some(("shift+command+5"@, "shortcuts.reserved.screenshots"@)),
            95 => Some(("shift+cmd+5"@, "shortcuts.reserved.screenshots"@)),
            96 => Some(("shift+command+6"@, "shortcuts.reserved.screenshots"@)),
            97 => Some(("shift+cmd+6"@, "shortcuts.reserved.screenshots"@)),
            98 => Some(("command+c"@, "shortcuts.reserved.common_editing"@)),
            99 => Some(("cmd+c"@, "shortcuts.reserved.common_editing"@)),
            100 => Some(("command+v"@, "shortcuts.reserved.common_editing"@)),
            101 => Some(("cmd+v"@, "shortcuts.reserved.common_editing"@)),
            102 => Some(("command+x"@, "shortcuts.reserved.common_editing"@)),
            103 => Some(("cmd+x"@, "shortcuts.reserved.common_editing"@)),
            104 => Some(("command+z"@, "shortcuts.reserved.common_editing"@)),
            105 => Some(("cmd+z"@, "shortcuts.reserved.common_editing"@)),
            106 => Some(("shift+command+z"@, "shortcuts.reserved.common_editing"@)),
            107 => Some(("shift+cmd+z"@, "shortcuts.reserved.common_editing"@)),
            108 => Some(("command+a"@, "shortcuts.reserved.common_editing"@)),
            109 => Some(("cmd+a"@, "shortcuts.reserved.common_editing"@)),
            110 => Some(("command+s"@, "shortcuts.reserved.common_file"@)),
            111 => Some(("cmd+s"@, "shortcuts.reserved.common_file"@)),
            112 => Some(("command+n"@, "shortcuts.reserved.common_file"@)),
            113 => Some(("cmd+n"@, "shortcuts.reserved.common_file"@)),
            114 => Some(("command+o"@, "shortcuts.reserved.common_file"@)),
            115 => Some(("cmd+o"@, "shortcuts.reserved.common_file"@)),
            116 => Some(("command+p"@, "shortcuts.reserved.common_file"@)),
            117 => Some(("cmd+p"@, "shortcuts.reserved.common_file"@)),
            118 => Some(("control+power"@, "shortcuts.reserved.power"@)),
            119 => Some(("ctrl+power"@, "shortcuts.reserved.power"@)),
            120 => Some(("control+shift+power"@, "shortcuts.reserved.power"@)),
            121 => Some(("ctrl+shift+power"@, "shortcuts.reserved.power"@)),
            122 => Some(("control+command+power"@, "shortcuts.reserved.power"@)),
            123 => Some(("ctrl+cmd+power"@, "shortcuts.reserved.power"@)),
            124 => Some(("fn+a"@, "shortcuts.reserved.fn_system"@)),
            125 => Some(("fn+c"@, "shortcuts.reserved.fn_system"@)),
            126 => Some(("fn+d"@, "shortcuts.reserved.fn_system"@)),
            127 => Some(("fn+e"@, "shortcuts.reserved.fn_system"@)),
            128 => Some(("fn+f"@, "shortcuts.reserved.fn_system"@)),
            129 => Some(("fn+h"@, "shortcuts.reserved.fn_system"@)),
            130 => Some(("fn+m"@, "shortcuts.reserved.fn_system"@)),
            131 => Some(("fn+n"@, "shortcuts.reserved.fn_system"@)),
            132 => Some(("fn+q"@, "shortcuts.reserved.fn_system"@)),
            133 => Some(("fn+left"@, "shortcuts.reserved.fn_system"@)),
            134 => Some(("fn+right"@, "shortcuts.reserved.fn_system"@)),
            135 => Some(("fn+up"@, "shortcuts.reserved.fn_system"@)),
            136 => Some(("fn+down"@, "shortcuts.reserved.fn_system"@)),
            137 => Some(("fn+delete"@, "shortcuts.reserved.fn_system"@)),
            _ => None,
        },
        Platform::Windows => match i {
            0 => Some(("super+l"@, "shortcuts.reserved.windows_system"@)),
            1 => Some(("win+l"@, "shortcuts.reserved.windows_system"@)),
            2 => Some(("super+d"@, "shortcuts.reserved.windows_system"@)),
            3 => Some(("win+d"@, "shortcuts.reserved.windows_system"@)),
            4 => Some(("super+e"@, "shortcuts.reserved.windows_system"@)),
            5 => Some(("win+e"@, "shortcuts.reserved.windows_system"@)),
            6 => Some(("super+r"@, "shortcuts.reserved.windows_system"@)),
            7 => Some(("win+r"@, "shortcuts.reserved.windows_system"@)),
            8 => Some(("super+tab"@, "shortcuts.reserved.windows_system"@)),
            9 => Some(("win+tab"@, "shortcuts.reserved.windows_system"@)),
            10 => Some(("alt+tab"@, "shortcuts.reserved.windows_system"@)),
            11 => Some(("alt+f4"@, "shortcuts.reserved.windows_system"@)),
            12 => Some(("ctrl+alt+delete"@, "shortcuts.reserved.windows_system"@)),
            13 => Some(("ctrl+alt+del"@, "shortcuts.reserved.windows_system"@)),
            14 => Some(("ctrl+c"@, "shortcuts.reserved.common_editing"@)),
            15 => Some(("control+c"@, "shortcuts.reserved.common_editing"@)),
            16 => Some(("ctrl+v"@, "shortcuts.reserved.common_editing"@)),
            17 => Some(("control+v"@, "shortcuts.reserved.common_editing"@)),
            18 => Some(("ctrl+x"@, "shortcuts.reserved.common_editing"@)),
            19 => Some(("control+x"@, "shortcuts.reserved.common_editing"@)),
            20 => Some(("ctrl+z"@, "shortcuts.reserved.common_editing"@)),
            21 => Some(("control+z"@, "shortcuts.reserved.common_editing"@)),
            22 => Some(("ctrl+y"@, "shortcuts.reserved.common_editing"@)),
            23 => Some(("control+y"@, "shortcuts.reserved.common_editing"@)),
            24 => Some(("ctrl+a"@, "shortcuts.reserved.common_editing"@)),
            25 => Some(("control+a"@, "shortcuts.reserved.common_editing"@)),
            26 => Some(("ctrl+s"@, "shortcuts.reserved.common_file"@)),
            27 => Some(("control+s"@, "shortcuts.reserved.common_file"@)),
            28 => Some(("ctrl+n"@, "shortcuts.reserved.common_file"@)),
            29 => Some(("control+n"@, "shortcuts.reserved.common_file"@)),
            30 => Some(("ctrl+o"@, "shortcuts.reserved.common_file"@)),
            31 => Some(("control+o"@, "shortcuts.reserved.common_file"@)),
            32 => Some(("ctrl+p"@, "shortcuts.reserved.common_file"@)),
            33 => Some(("control+p"@, "shortcuts.reserved.common_file"@)),
            34 => Some(("ctrl+w"@, "shortcuts.reserved.common_file"@)),
            35 => Some(("control+w"@, "shortcuts.reserved.common_file"@)),
            36 => Some(("fn+a"@, "shortcuts.reserved.fn_system"@)),
            37 => Some(("fn+c"@, "shortcuts.reserved.fn_system"@)),
            38 => Some(("fn+d"@, "shortcuts.reserved.fn_system"@)),
            39 => Some(("fn+e"@, "shortcuts.reserved.fn_system"@)),
            40 => Some(("fn+f"@, "shortcuts.reserved.fn_system"@)),
            41 => Some(("fn+h"@, "shortcuts.reserved.fn_system"@)),
            42 => Some(("fn+m"@, "shortcuts.reserved.fn_system"@)),
            43 => Some(("fn+n"@, "shortcuts.reserved.fn_system"@)),
            44 => Some(("fn+q"@, "shortcuts.reserved.fn_system"@)),
            45 => Some(("fn+left"@, "shortcuts.reserved.fn_system"@)),
            46 => Some(("fn+right"@, "shortcuts.reserved.fn_system"@)),
            47 => Some(("fn+up"@, "shortcuts.reserved.fn_system"@)),
            48 => Some(("fn+down"@, "shortcuts.reserved.fn_system"@)),
            49 => Some(("fn+delete"@, "shortcuts.reserved.fn_system"@)),
            _ => None,
        },
        Platform::Linux => match i {
            0 => Some(("alt+tab"@, "shortcuts.reserved.linux_system"@)),
            1 => Some(("alt+f4"@, "shortcuts.reserved.linux_system"@)),
            2 => Some(("super+l"@, "shortcuts.reserved.linux_system"@)),
            3 => Some(("super+d"@, "shortcuts.reserved.linux_system"@)),
            4 => Some(("ctrl+c"@, "shortcuts.reserved.common_editing"@)),
            5 => Some(("control+c"@, "shortcuts.reserved.common_editing"@)),
            6 => Some(("ctrl+v"@, "shortcuts.reserved.common_editing"@)),
            7 => Some(("control+v"@, "shortcuts.reserved.common_editing"@)),
            8 => Some(("ctrl+x"@, "shortcuts.reserved.common_editing"@)),
            9 => Some(("control+x"@, "shortcuts.reserved.common_editing"@)),
            10 => Some(("ctrl+z"@, "shortcuts.reserved.common_editing"@)),
            11 => Some(("control+z"@, "shortcuts.reserved.common_editing"@)),
            12 => Some(("ctrl+y"@, "shortcuts.reserved.common_editing"@)),
            13 => Some(("control+y"@, "shortcuts.reserved.common_editing"@)),
            14 => Some(("ctrl+a"@, "shortcuts.reserved.common_editing"@)),
            15 => Some(("control+a"@, "shortcuts.reserved.common_editing"@)),
            16 => Some(("ctrl+s"@, "shortcuts.reserved.common_file"@)),
            17 => Some(("control+s"@, "shortcuts.reserved.common_file"@)),
            18 => Some(("ctrl+n"@, "shortcuts.reserved.common_file"@)),
            19 => Some(("control+n"@, "shortcuts.reserved.common_file"@)),
            20 => Some(("ctrl+o"@, "shortcuts.reserved.common_file"@)),
            21 => Some(("control+o"@, "shortcuts.reserved.common_file"@)),
            22 => Some(("ctrl+p"@, "shortcuts.reserved.common_file"@)),
            23 => Some(("control+p"@, "shortcuts.reserved.common_file"@)),
            24 => Some(("fn+a"@, "shortcuts.reserved.fn_system"@)),
            25 => Some(("fn+c"@, "shortcuts.reserved.fn_system"@)),
            26 => Some(("fn+d"@, "shortcuts.reserved.fn_system"@)),
            27 => Some(("fn+e"@, "shortcuts.reserved.fn_system"@)),
            28 => Some(("fn+f"@, "shortcuts.reserved.fn_system"@)),
            29 => Some(("fn+h"@, "shortcuts.reserved.fn_system"@)),
            30 => Some(("fn+m"@, "shortcuts.reserved.fn_system"@)),
            31 => Some(("fn+n"@, "shortcuts.reserved.fn_system"@)),
            32 => Some(("fn+q"@, "shortcuts.reserved.fn_system"@)),
            33 => Some(("fn+left"@, "shortcuts.reserved.fn_system"@)),
            34 => Some(("fn+right"@, "shortcuts.reserved.fn_system"@)),
            35 => Some(("fn+up"@, "shortcuts.reserved.fn_system"@)),
            36 => Some(("fn+down"@, "shortcuts.reserved.fn_system"@)),
            37 => Some(("fn+delete"@, "shortcuts.reserved.fn_system"@)),
            _ => None,
        },
    }
}

/// How many shortcuts a platform reserves.
pub open spec fn reserved_count(platform: Platform) -> nat {
    match platform {
        Platform::MacOs => 138,
        Platform::Windows => 50,
        Platform::Linux => 38,
    }
}

/// The reserved shortcuts of a platform, in order.
pub open spec fn reserved_table(platform: Platform) -> Seq<(Seq<char>, Seq<char>)> {
    Seq::new(reserved_count(platform), |i: int| reserved_entry(platform, i as usize)->0)
}

fn reserved_entry_at(platform: Platform, i: usize) -> (r: Option<(&'static str, &'static str)>)
    ensures
        match reserved_entry(platform, i) {
            Some(e) => r matches Some(x) && x.0@ == e.0 && x.1@ == e.1,
            None => r is None,
        },
{
    match platform {
        Platform::MacOs => match i {
            0 => Some(("command+q", "shortcuts.reserved.app_control")),
            1 => Some(("cmd+q", "shortcuts.reserved.app_control")),
            2 => Some(("command+h", "shortcuts.reserved.app_control")),
            3 => Some(("cmd+h", "shortcuts.reserved.app_control")),
            4 => Some(("command+option+h", "shortcuts.reserved.app_control")),
            5 => Some(("cmd+option+h", "shortcuts.reserved.app_control")),
            6 => Some(("command+alt+h", "shortcuts.reserved.app_control")),
            7 => Some(("cmd+alt+h", "shortcuts.reserved.app_control")),
            8 => Some(("command+m", "shortcuts.reserved.app_control")),
            9 => Some(("cmd+m", "shortcuts.reserved.app_control")),
            10 => Some(("command+option+m", "shortcuts.reserved.app_control")),
            11 => Some(("cmd+option+m", "shortcuts.reserved.app_control")),
            12 => Some(("command+alt+m", "shortcuts.reserved.app_control")),
            13 => Some(("cmd+alt+m", "shortcuts.reserved.app_control")),
            14 => Some(("command+w", "shortcuts.reserved.app_control")),
            15 => Some(("cmd+w", "shortcuts.reserved.app_control")),
            16 => Some(("command+option+w", "shortcuts.reserved.app_control")),
            17 => Some(("cmd+option+w", "shortcuts.reserved.app_control")),
            18 => Some(("command+alt+w", "shortcuts.reserved.app_control")),
            19 => Some(("cmd+alt+w", "shortcuts.reserved.app_control")),
            20 => Some(("command+comma", "shortcuts.reserved.app_control")),
            21 => Some(("cmd+comma", "shortcuts.reserved.app_control")),
            22 => Some(("command+,", "shortcuts.reserved.app_control")),
            23 => Some(("cmd+,", "shortcuts.reserved.app_control")),
            24 => Some(("command+space", "shortcuts.reserved.spotlight")),
            25 => Some(("cmd+space", "shortcuts.reserved.spotlight")),
            26 => Some(("command+option+space", "shortcuts.reserved.spotlight_finder")),
            27 => Some(("cmd+option+space", "shortcuts.reserved.spotlight_finder")),
            28 => Some(("command+alt+space", "shortcuts.reserved.spotlight_finder")),
            29 => Some(("cmd+alt+space", "shortcuts.reserved.spotlight_finder")),
            30 => Some(("command+tab", "shortcuts.reserved.app_switching")),
            31 => Some(("cmd+tab", "shortcuts.reserved.app_switching")),
            32 => Some(("command+shift+tab", "shortcuts.reserved.app_switching")),
            33 => Some(("cmd+shift+tab", "shortcuts.reserved.app_switching")),
            34 => Some(("command+`", "shortcuts.reserved.app_switching")),
            35 => Some(("cmd+`", "shortcuts.reserved.app_switching")),
            36 => Some(("command+option+d", "shortcuts.reserved.system_ui")),
            37 => Some(("cmd+option+d", "shortcuts.reserved.system_ui")),
            38 => Some(("command+alt+d", "shortcuts.reserved.system_ui")),
            39 => Some(("cmd+alt+d", "shortcuts.reserved.system_ui")),
            40 => Some(("command+option+esc", "shortcuts.reserved.system_ui")),
            41 => Some(("cmd+option+esc", "shortcuts.reserved.system_ui")),
            42 => Some(("command+alt+esc", "shortcuts.reserved.system_ui")),
            43 => Some(("cmd+alt+esc", "shortcuts.reserved.system_ui")),
            44 => Some(("control+command+q", "shortcuts.reserved.system_ui")),
            45 => Some(("ctrl+cmd+q", "shortcuts.reserved.system_ui")),
            46 => Some(("shift+command+q", "shortcuts.reserved.system_ui")),
            47 => Some(("shift+cmd+q", "shortcuts.reserved.system_ui")),
            48 => Some(("option+shift+command+q", "shortcuts.reserved.system_ui")),
            49 => Some(("opt+shift+cmd+q", "shortcuts.reserved.system_ui")),
            50 => Some(("alt+shift+cmd+q", "shortcuts.reserved.system_ui")),
            51 => Some(("control+space", "shortcuts.reserved.input_source_prev")),
            52 => Some(("ctrl+space", "shortcuts.reserved.input_source_prev")),
            53 => Some(("control+option+space", "shortcuts.reserved.input_source_next")),
            54 => Some(("ctrl+option+space", "shortcuts.reserved.input_source_next")),
            55 => Some(("control+alt+space", "shortcuts.reserved.input_source_next")),
            56 => Some(("ctrl+alt+space", "shortcuts.reserved.input_source_next")),
            57 => Some(("control+up", "shortcuts.reserved.mission_control")),
            58 => Some(("ctrl+up", "shortcuts.reserved.mission_control")),
            59 => Some(("control+down", "shortcuts.reserved.mission_control")),
            60 => Some(("ctrl+down", "shortcuts.reserved.mission_control")),
            61 => Some(("control+left", "shortcuts.reserved.mission_control")),
            62 => Some(("ctrl+left", "shortcuts.reserved.mission_control")),
            63 => Some(("control+right", "shortcuts.reserved.mission_control")),
            64 => Some(("ctrl+right", "shortcuts.reserved.mission_control")),
            65 => Some(("control+1", "shortcuts.reserved.mission_control")),
            66 => Some(("ctrl+1", "shortcuts.reserved.mission_control")),
            67 => Some(("control+2", "shortcuts.reserved.mission_control")),
            68 => Some(("ctrl+2", "shortcuts.reserved.mission_control")),
            69 => Some(("control+f2", "shortcuts.reserved.system_focus")),
            70 => Some(("ctrl+f2", "shortcuts.reserved.system_focus")),
            71 => Some(("control+f3", "shortcuts.reserved.system_focus")),
            72 => Some(("ctrl+f3", "shortcuts.reserved.system_focus")),
            73 => Some(("control+f4", "shortcuts.reserved.system_focus")),
            74 => Some(("ctrl+f4", "shortcuts.reserved.system_focus")),
            75 => Some(("control+f5", "shortcuts.reserved.system_focus")),
            76 => Some(("ctrl+f5", "shortcuts.reserved.system_focus")),
            77 => Some(("control+f8", "shortcuts.reserved.system_focus")),
            78 => Some(("ctrl+f8", "shortcuts.reserved.system_focus")),
            79 => Some(("option+command+8", "shortcuts.reserved.accessibility")),
            80 => Some(("opt+cmd+8", "shortcuts.reserved.accessibility")),
            81 => Some(("alt+cmd+8", "shortcuts.reserved.accessibility")),
            82 => Some(("command+f5", "shortcuts.reserved.accessibility")),
            83 => Some(("cmd+f5", "shortcuts.reserved.accessibility")),
            84 => Some(("option+command+f5", "shortcuts.reserved.accessibility")),
            85 => Some(("opt+cmd+f5", "shortcuts.reserved.accessibility")),
            86 => Some(("alt+cmd+f5", "shortcuts.reserved.accessibility")),
            87 => Some(("control+option+command+8", "shortcuts.reserved.accessibility")),
            88 => Some(("ctrl+opt+cmd+8", "shortcuts.reserved.accessibility")),
            89 => Some(("ctrl+alt+cmd+8", "shortcuts.reserved.accessibility")),
            90 => Some(("shift+command+3", "shortcuts.reserved.screenshots")),
            91 => Some(("shift+cmd+3", "shortcuts.reserved.screenshots")),
            92 => Some(("shift+command+4", "shortcuts.reserved.screenshots")),
            93 => Some(("shift+cmd+4", "shortcuts.reserved.screenshots")),
            94 => Some(("shift+command+5", "shortcuts.reserved.screenshots")),
            95 => Some(("shift+cmd+5", "shortcuts.reserved.screenshots")),
            96 => Some(("shift+command+6", "shortcuts.reserved.screenshots")),
            97 => Some(("shift+cmd+6", "shortcuts.reserved.screenshots")),
            98 => Some(("command+c", "shortcuts.reserved.common_editing")),
            99 => Some(("cmd+c", "shortcuts.reserved.common_editing")),
            100 => Some(("command+v", "shortcuts.reserved.common_editing")),
            101 => Some(("cmd+v", "shortcuts.reserved.common_editing")),
            102 => Some(("command+x", "shortcuts.reserved.common_editing")),
            103 => Some(("cmd+x", "shortcuts.reserved.common_editing")),
            104 => Some(("command+z", "shortcuts.reserved.common_editing")),
            105 => Some(("cmd+z", "shortcuts.reserved.common_editing")),
            106 => Some(("shift+command+z", "shortcuts.reserved.common_editing")),
            107 => Some(("shift+cmd+z", "shortcuts.reserved.common_editing")),
            108 => Some(("command+a", "shortcuts.reserved.common_editing")),
            109 => Some(("cmd+a", "shortcuts.reserved.common_editing")),
            110 => Some(("command+s", "shortcuts.reserved.common_file")),
            111 => Some(("cmd+s", "shortcuts.reserved.common_file")),
            112 => Some(("command+n", "shortcuts.reserved.common_file")),
            113 => Some(("cmd+n", "shortcuts.reserved.common_file")),
            114 => Some(("command+o", "shortcuts.reserved.common_file")),
            115 => Some(("cmd+o", "shortcuts.reserved.common_file")),
            116 => Some(("command+p", "shortcuts.reserved.common_file")),
            117 => Some(("cmd+p", "shortcuts.reserved.common_file")),
            118 => Some(("control+power", "shortcuts.reserved.power")),
            119 => Some(("ctrl+power", "shortcuts.reserved.power")),
            120 => Some(("control+shift+power", "shortcuts.reserved.power")),
            121 => Some(("ctrl+shift+power", "shortcuts.reserved.power")),
            122 => Some(("control+command+power", "shortcuts.reserved.power")),
            123 => Some(("ctrl+cmd+power", "shortcuts.reserved.power")),
            124 => Some(("fn+a", "shortcuts.reserved.fn_system")),
            125 => Some(("fn+c", "shortcuts.reserved.fn_system")),
            126 => Some(("fn+d", "shortcuts.reserved.fn_system")),
            127 => Some(("fn+e", "shortcuts.reserved.fn_system")),
            128 => Some(("fn+f", "shortcuts.reserved.fn_system")),
            129 => Some(("fn+h", "shortcuts.reserved.fn_system")),
            130 => Some(("fn+m", "shortcuts.reserved.fn_system")),
            131 => Some(("fn+n", "shortcuts.reserved.fn_system")),
            132 => Some(("fn+q", "shortcuts.reserved.fn_system")),
            133 => Some(("fn+left", "shortcuts.reserved.fn_system")),
            134 => Some(("fn+right", "shortcuts.reserved.fn_system")),
            135 => Some(("fn+up", "shortcuts.reserved.fn_system")),
            136 => Some(("fn+down", "shortcuts.reserved.fn_system")),
            137 => Some(("fn+delete", "shortcuts.reserved.fn_system")),
            _ => None,
        },
        Platform::Windows => match i {
            0 => Some(("super+l", "shortcuts.reserved.windows_system")),
            1 => Some(("win+l", "shortcuts.reserved.windows_system")),
            2 => Some(("super+d", "shortcuts.reserved.windows_system")),
            3 => Some(("win+d", "shortcuts.reserved.windows_system")),
            4 => Some(("super+e", "shortcuts.reserved.windows_system")),
            5 => Some(("win+e", "shortcuts.reserved.windows_system")),
            6 => Some(("super+r", "shortcuts.reserved.windows_system")),
            7 => Some(("win+r", "shortcuts.reserved.windows_system")),
            8 => Some(("super+tab", "shortcuts.reserved.windows_system")),
            9 => Some(("win+tab", "shortcuts.reserved.windows_system")),
            10 => Some(("alt+tab", "shortcuts.reserved.windows_system")),
            11 => Some(("alt+f4", "shortcuts.reserved.windows_system")),
            12 => Some(("ctrl+alt+delete", "shortcuts.reserved.windows_system")),
            13 => Some(("ctrl+alt+del", "shortcuts.reserved.windows_system")),
            14 => Some(("ctrl+c", "shortcuts.reserved.common_editing")),
            15 => Some(("control+c", "shortcuts.reserved.common_editing")),
            16 => Some(("ctrl+v", "shortcuts.reserved.common_editing")),
            17 => Some(("control+v", "shortcuts.reserved.common_editing")),
            18 => Some(("ctrl+x", "shortcuts.reserved.common_editing")),
            19 => Some(("control+x", "shortcuts.reserved.common_editing")),
            20 => Some(("ctrl+z", "shortcuts.reserved.common_editing")),
            21 => Some(("control+z", "shortcuts.reserved.common_editing")),
            22 => Some(("ctrl+y", "shortcuts.reserved.common_editing")),
            23 => Some(("control+y", "shortcuts.reserved.common_editing")),
            24 => Some(("ctrl+a", "shortcuts.reserved.common_editing")),
            25 => Some(("control+a", "shortcuts.reserved.common_editing")),
            26 => Some(("ctrl+s", "shortcuts.reserved.common_file")),
            27 => Some(("control+s", "shortcuts.reserved.common_file")),
            28 => Some(("ctrl+n", "shortcuts.reserved.common_file")),
            29 => Some(("control+n", "shortcuts.reserved.common_file")),
            30 => Some(("ctrl+o", "shortcuts.reserved.common_file")),
            31 => Some(("control+o", "shortcuts.reserved.common_file")),
            32 => Some(("ctrl+p", "shortcuts.reserved.common_file")),
            33 => Some(("control+p", "shortcuts.reserved.common_file")),
            34 => Some(("ctrl+w", "shortcuts.reserved.common_file")),
            35 => Some(("control+w", "shortcuts.reserved.common_file")),
            36 => Some(("fn+a", "shortcuts.reserved.fn_system")),
            37 => Some(("fn+c", "shortcuts.reserved.fn_system")),
            38 => Some(("fn+d", "shortcuts.reserved.fn_system")),
            39 => Some(("fn+e", "shortcuts.reserved.fn_system")),
            40 => Some(("fn+f", "shortcuts.reserved.fn_system")),
            41 => Some(("fn+h", "shortcuts.reserved.fn_system")),
            42 => Some(("fn+m", "shortcuts.reserved.fn_system")),
            43 => Some(("fn+n", "shortcuts.reserved.fn_system")),
            44 => Some(("fn+q", "shortcuts.reserved.fn_system")),
            45 => Some(("fn+left", "shortcuts.reserved.fn_system")),
            46 => Some(("fn+right", "shortcuts.reserved.fn_system")),
            47 => Some(("fn+up", "shortcuts.reserved.fn_system")),
            48 => Some(("fn+down", "shortcuts.reserved.fn_system")),
            49 => Some(("fn+delete", "shortcuts.reserved.fn_system")),
            _ => None,
        },
        Platform::Linux => match i {
            0 => Some(("alt+tab", "shortcuts.reserved.linux_system")),
            1 => Some(("alt+f4", "shortcuts.reserved.linux_system")),
            2 => Some(("super+l", "shortcuts.reserved.linux_system")),
            3 => Some(("super+d", "shortcuts.reserved.linux_system")),
            4 => Some(("ctrl+c", "shortcuts.reserved.common_editing")),
            5 => Some(("control+c", "shortcuts.reserved.common_editing")),
            6 => Some(("ctrl+v", "shortcuts.reserved.common_editing")),
            7 => Some(("control+v", "shortcuts.reserved.common_editing")),
            8 => Some(("ctrl+x", "shortcuts.reserved.common_editing")),
            9 => Some(("control+x", "shortcuts.reserved.common_editing")),
            10 => Some(("ctrl+z", "shortcuts.reserved.common_editing")),
            11 => Some(("control+z", "shortcuts.reserved.common_editing")),
            12 => Some(("ctrl+y", "shortcuts.reserved.common_editing")),
            13 => Some(("control+y", "shortcuts.reserved.common_editing")),
            14 => Some(("ctrl+a", "shortcuts.reserved.common_editing")),
            15 => Some(("control+a", "shortcuts.reserved.common_editing")),
            16 => Some(("ctrl+s", "shortcuts.reserved.common_file")),
            17 => Some(("control+s", "shortcuts.reserved.common_file")),
            18 => Some(("ctrl+n", "shortcuts.reserved.common_file")),
            19 => Some(("control+n", "shortcuts.reserved.common_file")),
            20 => Some(("ctrl+o", "shortcuts.reserved.common_file")),
            21 => Some(("control+o", "shortcuts.reserved.common_file")),
            22 => Some(("ctrl+p", "shortcuts.reserved.common_file")),
            23 => Some(("control+p", "shortcuts.reserved.common_file")),
            24 => Some(("fn+a", "shortcuts.reserved.fn_system")),
            25 => Some(("fn+c", "shortcuts.reserved.fn_system")),
            26 => Some(("fn+d", "shortcuts.reserved.fn_system")),
            27 => Some(("fn+e", "shortcuts.reserved.fn_system")),
            28 => Some(("fn+f", "shortcuts.reserved.fn_system")),
            29 => Some(("fn+h", "shortcuts.reserved.fn_system")),
            30 => Some(("fn+m", "shortcuts.reserved.fn_system")),
            31 => Some(("fn+n", "shortcuts.reserved.fn_system")),
            32 => Some(("fn+q", "shortcuts.reserved.fn_system")),
            33 => Some(("fn+left", "shortcuts.reserved.fn_system")),
            34 => Some(("fn+right", "shortcuts.reserved.fn_system")),
            35 => Some(("fn+up", "shortcuts.reserved.fn_system")),
            36 => Some(("fn+down", "shortcuts.reserved.fn_system")),
            37 => Some(("fn+delete", "shortcuts.reserved.fn_system")),
            _ => None,
        },
    }
}

/// The views of a list of reserved shortcuts.
pub open spec fn reserved_views(v: Seq<(&'static str, ReservedShortcut)>) -> Seq<(Seq<char>, Seq<char>)> {
    v.map_values(|e: (&'static str, ReservedShortcut)| (e.0@, e.1.translation_key@))
}

proof fn lemma_reserved_entry_range(platform: Platform, i: usize)
    ensures
        (reserved_entry(platform, i) is Some) <==> 0 <= i < reserved_count(platform),
{
}

/// The reserved shortcuts of a platform.
pub fn get_reserved_shortcuts(platform: Platform) -> (r: Vec<(&'static str, ReservedShortcut)>)
    ensures
        reserved_views(r@) == reserved_table(platform),
{
    let mut m: Vec<(&'static str, ReservedShortcut)> = Vec::new();
    let mut i: usize = 0;
    loop
        invariant_except_break
            i <= reserved_count(platform),
            i == m.len(),
            reserved_views(m@) =~= Seq::new(i as nat, |j: int| reserved_entry(platform, j as usize)->0),
        ensures
            reserved_views(m@) == reserved_table(platform),
        decreases reserved_count(platform) - i,
    {
        proof {
            lemma_reserved_entry_range(platform, i);
        }
        match reserved_entry_at(platform, i) {
            Some((key, translation_key)) => {
                let ghost before = m@;
                let e = (key, ReservedShortcut { translation_key });
                m.push(e);
                assert(m@ == before.push(e));
                assert(reserved_views(m@) =~= reserved_views(before).push(
                    (key@, translation_key@),
                ));
                assert(reserved_views(m@) =~= Seq::new(
                    (i + 1) as nat,
                    |j: int| reserved_entry(platform, j as usize)->0,
                ));
                i = i + 1;
            },
            None => {
                assert(reserved_views(m@) =~= reserved_table(platform));
                break;
            },
        }
    }
    m
}

/// A shortcut as it is compared: lowercased, without spaces.
pub open spec fn normalized_shortcut(s: Seq<char>) -> Seq<char> {
    str_lowercase_mapping(s).filter(|c: char| c != ' ')
}

/// The reason of the first entry whose shortcut is exactly `n`.
pub open spec fn first_exact(table: Seq<(Seq<char>, Seq<char>)>, n: Seq<char>) -> Option<Seq<char>>
    decreases table.len(),
{
    if table.len() == 0 {
        None
    } else if table[0].0 == n {
        Some(table[0].1)
    } else {
        first_exact(table.drop_first(), n)
    }
}

/// Every element of `a` occurs in `b`.
pub open spec fn all_in(a: Seq<Seq<char>>, b: Seq<Seq<char>>) -> bool {
    forall|i: int| 0 <= i < a.len() ==> b.contains(#[trigger] a[i])
}

/// A reserved shortcut with as many keys as `parts`, among which every part occurs (the
/// order of the keys does not matter).
pub open spec fn same_keys(reserved: Seq<char>, parts: Seq<Seq<char>>) -> bool {
    let rp = split_on(reserved, '+');
    parts.len() == rp.len() && all_in(parts, rp)
}

/// The reason of the first entry with the same keys as `parts`.
pub open spec fn first_same_keys(table: Seq<(Seq<char>, Seq<char>)>, parts: Seq<Seq<char>>) -> Option<
    Seq<char>,
>
    decreases table.len(),
{
    if table.len() == 0 {
        None
    } else if same_keys(table[0].0, parts) {
        Some(table[0].1)
    } else {
        first_same_keys(table.drop_first(), parts)
    }
}

/// Why a shortcut is reserved on a platform, if it is: an exact match of the normalized
/// shortcut, else, for a combination, a reserved shortcut with the same keys in any order.
pub open spec fn reserved_reason(platform: Platform, shortcut: Seq<char>) -> Option<Seq<char>> {
    let n = normalized_shortcut(shortcut);
    let table = reserved_table(platform);
    match first_exact(table, n) {
        Some(t) => Some(t),
        None => {
            let parts = split_on(n, '+');
            if parts.len() > 1 {
                first_same_keys(table, parts)
            } else {
                None
            }
        },
    }
}

fn remove_spaces(v: &Vec<char>) -> (r: Vec<char>)
    ensures
        r@ == v@.filter(|c: char| c != ' '),
{
    let mut out: Vec<char> = Vec::new();
    let mut i: usize = 0;
    while i < v.len()
        invariant
            i <= v.len(),
            out@ == v@.take(i as int).filter(|c: char| c != ' '),
        decreases v.len() - i,
    {
        assert(v@.take(i + 1).drop_last() =~= v@.take(i as int));
        reveal_with_fuel(Seq::filter, 1);
        if v[i] != ' ' {
            out.push(v[i]);
        }
        i = i + 1;
    }
    assert(v@.take(v.len() as int) =~= v@);
    out
}

fn contains_piece(pieces: &Vec<Vec<char>>, x: &Vec<char>) -> (r: bool)
    ensures
        r == views(pieces@).contains(x@),
{
    let mut j: usize = 0;
    while j < pieces.len()
        invariant
            j <= pieces.len(),
            forall|k: int| 0 <= k < j ==> #[trigger] views(pieces@)[k] != x@,
        decreases pieces.len() - j,
    {
        assert(views(pieces@)[j as int] == pieces@[j as int]@);
        if chars_equal(&pieces[j], x) {
            return true;
        }
        j = j + 1;
    }
    false
}

fn has_same_keys(reserved: &str, parts: &Vec<Vec<char>>) -> (r: bool)
    ensures
        r == same_keys(reserved@, views(parts@)),
{
    let rv = chars_of(reserved);
    let rp = split_chars(&rv, '+');
    if rp.len() != parts.len() {
        return false;
    }
    let mut i: usize = 0;
    while i < parts.len()
        invariant
            i <= parts.len(),
            views(rp@) == split_on(reserved@, '+'),
            forall|k: int| 0 <= k < i ==> views(rp@).contains(#[trigger] views(parts@)[k]),
        decreases parts.len() - i,
    {
        assert(views(parts@)[i as int] == parts@[i as int]@);
        if !contains_piece(&rp, &parts[i]) {
            return false;
        }
        i = i + 1;
    }
    true
}

/// Checks a shortcut against the platform's reserved system shortcuts: `Ok` when it is
/// free, else `Err("RESERVED:" + reason key)`.
pub fn check_reserved_shortcut(platform: Platform, shortcut: &str) -> (r: Result<(), String>)
    ensures
        match reserved_reason(platform, shortcut@) {
            Some(t) => r matches Err(e) && e@ == "RESERVED:"@ + t,
            None => r is Ok,
        },
{
    let lower = str_to_lowercase(shortcut);
    let lv = chars_of(lower.as_str());
    let nv = remove_spaces(&lv);
    let normalized = string_from_chars(&nv);
    let ghost n = normalized_shortcut(shortcut@);
    assert(normalized@ == n);
    let table = get_reserved_shortcuts(platform);
    let ghost tv = reserved_views(table@);
    let mut k: usize = 0;
    assert(tv.skip(0) =~= tv);
    while k < table.len()
        invariant
            k <= table.len(),
            tv == reserved_views(table@),
            tv == reserved_table(platform),
            normalized@ == n,
            n == normalized_shortcut(shortcut@),
            first_exact(tv, n) == first_exact(tv.skip(k as int), n),
        decreases table.len() - k,
    {
        let ghost rest = tv.skip(k as int);
        assert(rest[0] == (table@[k as int].0@, table@[k as int].1.translation_key@));
        assert(rest.drop_first() =~= tv.skip(k + 1));
        if str_equals(table[k].0, normalized.as_str()) {
            return Err(concat_str("RESERVED:", table[k].1.translation_key));
        }
        k = k + 1;
    }
    assert(tv.skip(table.len() as int) =~= Seq::<(Seq<char>, Seq<char>)>::empty());
    let parts = split_chars(&nv, '+');
    if parts.len() > 1 {
        let mut k: usize = 0;
        assert(tv.skip(0) =~= tv);
        while k < table.len()
            invariant
                k <= table.len(),
                tv == reserved_views(table@),
                tv == reserved_table(platform),
                n == normalized_shortcut(shortcut@),
                first_exact(tv, n) is None,
                parts@.len() > 1,
                views(parts@) == split_on(n, '+'),
                first_same_keys(tv, views(parts@)) == first_same_keys(tv.skip(k as int), views(parts@)),
            decreases table.len() - k,
        {
            let ghost rest = tv.skip(k as int);
            assert(rest[0] == (table@[k as int].0@, table@[k as int].1.translation_key@));
            assert(rest.drop_first() =~= tv.skip(k + 1));
            if has_same_keys(table[k].0, &parts) {
                return Err(concat_str("RESERVED:", table[k].1.translation_key));
            }
            k = k + 1;
        }
        assert(tv.skip(table.len() as int) =~= Seq::<(Seq<char>, Seq<char>)>::empty());
    }
    Ok(())
}


/// A character of a reserved shortcut: a lowercase ASCII letter, a digit, `+`, `,` or `` ` ``.
pub open spec fn is_reserved_key_char(c: char) -> bool {
    ('a' <= c && c <= 'z') || ('0' <= c && c <= '9') || c == '+' || c == ',' || c == '`'
}

/// A reserved shortcut as the table writes it: lowercase ASCII without spaces, with at least
/// one `+` joining keys.
pub open spec fn reserved_key_shape(k: Seq<char>) -> bool {
    &&& exists|i: int| 0 <= i < k.len() && k[i] == '+'
    &&& forall|i: int| 0 <= i < k.len() ==> is_reserved_key_char(#[trigger] k[i])
}

/// The translation keys of the reasons all lie under `shortcuts.reserved.`.
proof fn lemma_reason_keys_prefixed()
    ensures
        starts_with("shortcuts.reserved.accessibility"@, "shortcuts.reserved."@),
        starts_with("shortcuts.reserved.app_control"@, "shortcuts.reserved."@),
        starts_with("shortcuts.reserved.app_switching"@, "shortcuts.reserved."@),
        starts_with("shortcuts.reserved.common_editing"@, "shortcuts.reserved."@),
        starts_with("shortcuts.reserved.common_file"@, "shortcuts.reserved."@),
        starts_with("shortcuts.reserved.fn_system"@, "shortcuts.reserved."@),
        starts_with("shortcuts.reserved.input_source_next"@, "shortcuts.reserved."@),
        starts_with("shortcuts.reserved.input_source_prev"@, "shortcuts.reserved."@),
        starts_with("shortcuts.reserved.linux_system"@, "shortcuts.reserved."@),
        starts_with("shortcuts.reserved.mission_control"@, "shortcuts.reserved."@),
        starts_with("shortcuts.reserved.power"@, "shortcuts.reserved."@),
        starts_with("shortcuts.reserved.screenshots"@, "shortcuts.reserved."@),
        starts_with("shortcuts.reserved.spotlight"@, "shortcuts.reserved."@),
        starts_with("shortcuts.reserved.spotlight_finder"@, "shortcuts.reserved."@),
        starts_with("shortcuts.reserved.system_focus"@, "shortcuts.reserved."@),
        starts_with("shortcuts.reserved.system_ui"@, "shortcuts.reserved."@),
        starts_with("shortcuts.reserved.windows_system"@, "shortcuts.reserved."@),
{
    reveal_strlit("shortcuts.reserved.");
    reveal_strlit("shortcuts.reserved.accessibility");
    assert("shortcuts.reserved.accessibility"@.take(19) =~= "shortcuts.reserved."@);
    reveal_strlit("shortcuts.reserved.app_control");
    assert("shortcuts.reserved.app_control"@.take(19) =~= "shortcuts.reserved."@);
    reveal_strlit("shortcuts.reserved.app_switching");
    assert("shortcuts.reserved.app_switching"@.take(19) =~= "shortcuts.reserved."@);
    reveal_strlit("shortcuts.reserved.common_editing");
    assert("shortcuts.reserved.common_editing"@.take(19) =~= "shortcuts.reserved."@);
    reveal_strlit("shortcuts.reserved.common_file");
    assert("shortcuts.reserved.common_file"@.take(19) =~= "shortcuts.reserved."@);
    reveal_strlit("shortcuts.reserved.fn_system");
    assert("shortcuts.reserved.fn_system"@.take(19) =~= "shortcuts.reserved."@);
    reveal_strlit("shortcuts.reserved.input_source_next");
    assert("shortcuts.reserved.input_source_next"@.take(19) =~= "shortcuts.reserved."@);
    reveal_strlit("shortcuts.reserved.input_source_prev");
    assert("shortcuts.reserved.input_source_prev"@.take(19) =~= "shortcuts.reserved."@);
    reveal_strlit("shortcuts.reserved.linux_system");
    assert("shortcuts.reserved.linux_system"@.take(19) =~= "shortcuts.reserved."@);
    reveal_strlit("shortcuts.reserved.mission_control");
    assert("shortcuts.reserved.mission_control"@.take(19) =~= "shortcuts.reserved."@);
    reveal_strlit("shortcuts.reserved.power");
    assert("shortcuts.reserved.power"@.take(19) =~= "shortcuts.reserved."@);
    reveal_strlit("shortcuts.reserved.screenshots");
    assert("shortcuts.reserved.screenshots"@.take(19) =~= "shortcuts.reserved."@);
    reveal_strlit("shortcuts.reserved.spotlight");
    assert("shortcuts.reserved.spotlight"@.take(19) =~= "shortcuts.reserved."@);
    reveal_strlit("shortcuts.reserved.spotlight_finder");
    assert("shortcuts.reserved.spotlight_finder"@.take(19) =~= "shortcuts.reserved."@);
    reveal_strlit("shortcuts.reserved.system_focus");
    assert("shortcuts.reserved.system_focus"@.take(19) =~= "shortcuts.reserved."@);
    reveal_strlit("shortcuts.reserved.system_ui");
    assert("shortcuts.reserved.system_ui"@.take(19) =~= "shortcuts.reserved."@);
    reveal_strlit("shortcuts.reserved.windows_system");
    assert("shortcuts.reserved.windows_system"@.take(19) =~= "shortcuts.reserved."@);
}

proof fn lemma_macos_entry_shape(i: usize)
    requires
        i < reserved_count(Platform::MacOs),
    ensures
        reserved_key_shape((reserved_entry(Platform::MacOs, i)->0).0),
{
    match i {
        0 => {
            reveal_strlit("command+q");
            assert("command+q"@[7] == '+');
        },
        1 => {
            reveal_strlit("cmd+q");
            assert("cmd+q"@[3] == '+');
        },
        2 => {
            reveal_strlit("command+h");
            assert("command+h"@[7] == '+');
        },
        3 => {
            reveal_strlit("cmd+h");
            assert("cmd+h"@[3] == '+');
        },
        4 => {
            reveal_strlit("command+option+h");
            assert("command+option+h"@[7] == '+');
        },
        5 => {
            reveal_strlit("cmd+option+h");
            assert("cmd+option+h"@[3] == '+');
        },
        6 => {
            reveal_strlit("command+alt+h");
            assert("command+alt+h"@[7] == '+');
        },
        7 => {
            reveal_strlit("cmd+alt+h");
            assert("cmd+alt+h"@[3] == '+');
        },
        8 => {
            reveal_strlit("command+m");
            assert("command+m"@[7] == '+');
        },
        9 => {
            reveal_strlit("cmd+m");
            assert("cmd+m"@[3] == '+');
        },
        10 => {
            reveal_strlit("command+option+m");
            assert("command+option+m"@[7] == '+');
        },
        11 => {
            reveal_strlit("cmd+option+m");
            assert("cmd+option+m"@[3] == '+');
        },
        12 => {
            reveal_strlit("command+alt+m");
            assert("command+alt+m"@[7] == '+');
        },
        13 => {
            reveal_strlit("cmd+alt+m");
            assert("cmd+alt+m"@[3] == '+');
        },
        14 => {
            reveal_strlit("command+w");
            assert("command+w"@[7] == '+');
        },
        15 => {
            reveal_strlit("cmd+w");
            assert("cmd+w"@[3] == '+');
        },
        16 => {
            reveal_strlit("command+option+w");
            assert("command+option+w"@[7] == '+');
        },
        17 => {
            reveal_strlit("cmd+option+w");
            assert("cmd+option+w"@[3] == '+');
        },
        18 => {
            reveal_strlit("command+alt+w");
            assert("command+alt+w"@[7] == '+');
        },
        19 => {
            reveal_strlit("cmd+alt+w");
            assert("cmd+alt+w"@[3] == '+');
        },
        20 => {
            reveal_strlit("command+comma");
            assert("command+comma"@[7] == '+');
        },
        21 => {
            reveal_strlit("cmd+comma");
            assert("cmd+comma"@[3] == '+');
        },
        22 => {
            reveal_strlit("command+,");
            assert("command+,"@[7] == '+');
        },
        23 => {
            reveal_strlit("cmd+,");
            assert("cmd+,"@[3] == '+');
        },
        24 => {
            reveal_strlit("command+space");
            assert("command+space"@[7] == '+');
        },
        25 => {
            reveal_strlit("cmd+space");
            assert("cmd+space"@[3] == '+');
        },
        26 => {
            reveal_strlit("command+option+space");
            assert("command+option+space"@[7] == '+');
        },
        27 => {
            reveal_strlit("cmd+option+space");
            assert("cmd+option+space"@[3] == '+');
        },
        28 => {
            reveal_strlit("command+alt+space");
            assert("command+alt+space"@[7] == '+');
        },
        29 => {
            reveal_strlit("cmd+alt+space");
            assert("cmd+alt+space"@[3] == '+');
        },
        30 => {
            reveal_strlit("command+tab");
            assert("command+tab"@[7] == '+');
        },
        31 => {
            reveal_strlit("cmd+tab");
            assert("cmd+tab"@[3] == '+');
        },
        32 => {
            reveal_strlit("command+shift+tab");
            assert("command+shift+tab"@[7] == '+');
        },
        33 => {
            reveal_strlit("cmd+shift+tab");
            assert("cmd+shift+tab"@[3] == '+');
        },
        34 => {
            reveal_strlit("command+`");
            assert("command+`"@[7] == '+');
        },
        35 => {
            reveal_strlit("cmd+`");
            assert("cmd+`"@[3] == '+');
        },
        36 => {
            reveal_strlit("command+option+d");
            assert("command+option+d"@[7] == '+');
        },
        37 => {
            reveal_strlit("cmd+option+d");
            assert("cmd+option+d"@[3] == '+');
        },
        38 => {
            reveal_strlit("command+alt+d");
            assert("command+alt+d"@[7] == '+');
        },
        39 => {
            reveal_strlit("cmd+alt+d");
            assert("cmd+alt+d"@[3] == '+');
        },
        40 => {
            reveal_strlit("command+option+esc");
            assert("command+option+esc"@[7] == '+');
        },
        41 => {
            reveal_strlit("cmd+option+esc");
            assert("cmd+option+esc"@[3] == '+');
        },
        42 => {
            reveal_strlit("command+alt+esc");
            assert("command+alt+esc"@[7] == '+');
        },
        43 => {
            reveal_strlit("cmd+alt+esc");
            assert("cmd+alt+esc"@[3] == '+');
        },
        44 => {
            reveal_strlit("control+command+q");
            assert("control+command+q"@[7] == '+');
        },
        45 => {
            reveal_strlit("ctrl+cmd+q");
            assert("ctrl+cmd+q"@[4] == '+');
        },
        46 => {
            reveal_strlit("shift+command+q");
            assert("shift+command+q"@[5] == '+');
        },
        47 => {
            reveal_strlit("shift+cmd+q");
            assert("shift+cmd+q"@[5] == '+');
        },
        48 => {
            reveal_strlit("option+shift+command+q");
            assert("option+shift+command+q"@[6] == '+');
        },
        49 => {
            reveal_strlit("opt+shift+cmd+q");
            assert("opt+shift+cmd+q"@[3] == '+');
        },
        50 => {
            reveal_strlit("alt+shift+cmd+q");
            assert("alt+shift+cmd+q"@[3] == '+');
        },
        51 => {
            reveal_strlit("control+space");
            assert("control+space"@[7] == '+');
        },
        52 => {
            reveal_strlit("ctrl+space");
            assert("ctrl+space"@[4] == '+');
        },
        53 => {
            reveal_strlit("control+option+space");
            assert("control+option+space"@[7] == '+');
        },
        54 => {
            reveal_strlit("ctrl+option+space");
            assert("ctrl+option+space"@[4] == '+');
        },
        55 => {
            reveal_strlit("control+alt+space");
            assert("control+alt+space"@[7] == '+');
        },
        56 => {
            reveal_strlit("ctrl+alt+space");
            assert("ctrl+alt+space"@[4] == '+');
        },
        57 => {
            reveal_strlit("control+up");
            assert("control+up"@[7] == '+');
        },
        58 => {
            reveal_strlit("ctrl+up");
            assert("ctrl+up"@[4] == '+');
        },
        59 => {
            reveal_strlit("control+down");
            assert("control+down"@[7] == '+');
        },
        60 => {
            reveal_strlit("ctrl+down");
            assert("ctrl+down"@[4] == '+');
        },
        61 => {
            reveal_strlit("control+left");
            assert("control+left"@[7] == '+');
        },
        62 => {
            reveal_strlit("ctrl+left");
            assert("ctrl+left"@[4] == '+');
        },
        63 => {
            reveal_strlit("control+right");
            assert("control+right"@[7] == '+');
        },
        64 => {
            reveal_strlit("ctrl+right");
            assert("ctrl+right"@[4] == '+');
        },
        65 => {
            reveal_strlit("control+1");
            assert("control+1"@[7] == '+');
        },
        66 => {
            reveal_strlit("ctrl+1");
            assert("ctrl+1"@[4] == '+');
        },
        67 => {
            reveal_strlit("control+2");
            assert("control+2"@[7] == '+');
        },
        68 => {
            reveal_strlit("ctrl+2");
            assert("ctrl+2"@[4] == '+');
        },
        69 => {
            reveal_strlit("control+f2");
            assert("control+f2"@[7] == '+');
        },
        70 => {
            reveal_strlit("ctrl+f2");
            assert("ctrl+f2"@[4] == '+');
        },
        71 => {
            reveal_strlit("control+f3");
            assert("control+f3"@[7] == '+');
        },
        72 => {
            reveal_strlit("ctrl+f3");
            assert("ctrl+f3"@[4] == '+');
        },
        73 => {
            reveal_strlit("control+f4");
            assert("control+f4"@[7] == '+');
        },
        74 => {
            reveal_strlit("ctrl+f4");
            assert("ctrl+f4"@[4] == '+');
        },
        75 => {
            reveal_strlit("control+f5");
            assert("control+f5"@[7] == '+');
        },
        76 => {
            reveal_strlit("ctrl+f5");
            assert("ctrl+f5"@[4] == '+');
        },
        77 => {
            reveal_strlit("control+f8");
            assert("control+f8"@[7] == '+');
        },
        78 => {
            reveal_strlit("ctrl+f8");
            assert("ctrl+f8"@[4] == '+');
        },
        79 => {
            reveal_strlit("option+command+8");
            assert("option+command+8"@[6] == '+');
        },
        80 => {
            reveal_strlit("opt+cmd+8");
            assert("opt+cmd+8"@[3] == '+');
        },
        81 => {
            reveal_strlit("alt+cmd+8");
            assert("alt+cmd+8"@[3] == '+');
        },
        82 => {
            reveal_strlit("command+f5");
            assert("command+f5"@[7] == '+');
        },
        83 => {
            reveal_strlit("cmd+f5");
            assert("cmd+f5"@[3] == '+');
        },
        84 => {
            reveal_strlit("option+command+f5");
            assert("option+command+f5"@[6] == '+');
        },
        85 => {
            reveal_strlit("opt+cmd+f5");
            assert("opt+cmd+f5"@[3] == '+');
        },
        86 => {
            reveal_strlit("alt+cmd+f5");
            assert("alt+cmd+f5"@[3] == '+');
        },
        87 => {
            reveal_strlit("control+option+command+8");
            assert("control+option+command+8"@[7] == '+');
        },
        88 => {
            reveal_strlit("ctrl+opt+cmd+8");
            assert("ctrl+opt+cmd+8"@[4] == '+');
        },
        89 => {
            reveal_strlit("ctrl+alt+cmd+8");
            assert("ctrl+alt+cmd+8"@[4] == '+');
        },
        90 => {
            reveal_strlit("shift+command+3");
            assert("shift+command+3"@[5] == '+');
        },
        91 => {
            reveal_strlit("shift+cmd+3");
            assert("shift+cmd+3"@[5] == '+');
        },
        92 => {
            reveal_strlit("shift+command+4");
            assert("shift+command+4"@[5] == '+');
        },
        93 => {
            reveal_strlit("shift+cmd+4");
            assert("shift+cmd+4"@[5] == '+');
        },
        94 => {
            reveal_strlit("shift+command+5");
            assert("shift+command+5"@[5] == '+');
        },
        95 => {
            reveal_strlit("shift+cmd+5");
            assert("shift+cmd+5"@[5] == '+');
        },
        96 => {
            reveal_strlit("shift+command+6");
            assert("shift+command+6"@[5] == '+');
        },
        97 => {
            reveal_strlit("shift+cmd+6");
            assert("shift+cmd+6"@[5] == '+');
        },
        98 => {
            reveal_strlit("command+c");
            assert("command+c"@[7] == '+');
        },
        99 => {
            reveal_strlit("cmd+c");
            assert("cmd+c"@[3] == '+');
        },
        100 => {
            reveal_strlit("command+v");
            assert("command+v"@[7] == '+');
        },
        101 => {
            reveal_strlit("cmd+v");
            assert("cmd+v"@[3] == '+');
        },
        102 => {
            reveal_strlit("command+x");
            assert("command+x"@[7] == '+');
        },
        103 => {
            reveal_strlit("cmd+x");
            assert("cmd+x"@[3] == '+');
        },
        104 => {
            reveal_strlit("command+z");
            assert("command+z"@[7] == '+');
        },
        105 => {
            reveal_strlit("cmd+z");
            assert("cmd+z"@[3] == '+');
        },
        106 => {
            reveal_strlit("shift+command+z");
            assert("shift+command+z"@[5] == '+');
        },
        107 => {
            reveal_strlit("shift+cmd+z");
            assert("shift+cmd+z"@[5] == '+');
        },
        108 => {
            reveal_strlit("command+a");
            assert("command+a"@[7] == '+');
        },
        109 => {
            reveal_strlit("cmd+a");
            assert("cmd+a"@[3] == '+');
        },
        110 => {
            reveal_strlit("command+s");
            assert("command+s"@[7] == '+');
        },
        111 => {
            reveal_strlit("cmd+s");
            assert("cmd+s"@[3] == '+');
        },
        112 => {
            reveal_strlit("command+n");
            assert("command+n"@[7] == '+');
        },
        113 => {
            reveal_strlit("cmd+n");
            assert("cmd+n"@[3] == '+');
        },
        114 => {
            reveal_strlit("command+o");
            assert("command+o"@[7] == '+');
        },
        115 => {
            reveal_strlit("cmd+o");
            assert("cmd+o"@[3] == '+');
        },
        116 => {
            reveal_strlit("command+p");
            assert("command+p"@[7] == '+');
        },
        117 => {
            reveal_strlit("cmd+p");
            assert("cmd+p"@[3] == '+');
        },
        118 => {
            reveal_strlit("control+power");
            assert("control+power"@[7] == '+');
        },
        119 => {
            reveal_strlit("ctrl+power");
            assert("ctrl+power"@[4] == '+');
        },
        120 => {
            reveal_strlit("control+shift+power");
            assert("control+shift+power"@[7] == '+');
        },
        121 => {
            reveal_strlit("ctrl+shift+power");
            assert("ctrl+shift+power"@[4] == '+');
        },
        122 => {
            reveal_strlit("control+command+power");
            assert("control+command+power"@[7] == '+');
        },
        123 => {
            reveal_strlit("ctrl+cmd+power");
            assert("ctrl+cmd+power"@[4] == '+');
        },
        124 => {
            reveal_strlit("fn+a");
            assert("fn+a"@[2] == '+');
        },
        125 => {
            reveal_strlit("fn+c");
            assert("fn+c"@[2] == '+');
        },
        126 => {
            reveal_strlit("fn+d");
            assert("fn+d"@[2] == '+');
        },
        127 => {
            reveal_strlit("fn+e");
            assert("fn+e"@[2] == '+');
        },
        128 => {
            reveal_strlit("fn+f");
            assert("fn+f"@[2] == '+');
        },
        129 => {
            reveal_strlit("fn+h");
            assert("fn+h"@[2] == '+');
        },
        130 => {
            reveal_strlit("fn+m");
            assert("fn+m"@[2] == '+');
        },
        131 => {
            reveal_strlit("fn+n");
            assert("fn+n"@[2] == '+');
        },
        132 => {
            reveal_strlit("fn+q");
            assert("fn+q"@[2] == '+');
        },
        133 => {
            reveal_strlit("fn+left");
            assert("fn+left"@[2] == '+');
        },
        134 => {
            reveal_strlit("fn+right");
            assert("fn+right"@[2] == '+');
        },
        135 => {
            reveal_strlit("fn+up");
            assert("fn+up"@[2] == '+');
        },
        136 => {
            reveal_strlit("fn+down");
            assert("fn+down"@[2] == '+');
        },
        137 => {
            reveal_strlit("fn+delete");
            assert("fn+delete"@[2] == '+');
        },
        _ => {},
    }
}

proof fn lemma_windows_entry_shape(i: usize)
    requires
        i < reserved_count(Platform::Windows),
    ensures
        reserved_key_shape((reserved_entry(Platform::Windows, i)->0).0),
{
    match i {
        0 => {
            reveal_strlit("super+l");
            assert("super+l"@[5] == '+');
        },
        1 => {
            reveal_strlit("win+l");
            assert("win+l"@[3] == '+');
        },
        2 => {
            reveal_strlit("super+d");
            assert("super+d"@[5] == '+');
        },
        3 => {
            reveal_strlit("win+d");
            assert("win+d"@[3] == '+');
        },
        4 => {
            reveal_strlit("super+e");
            assert("super+e"@[5] == '+');
        },
        5 => {
            reveal_strlit("win+e");
            assert("win+e"@[3] == '+');
        },
        6 => {
            reveal_strlit("super+r");
            assert("super+r"@[5] == '+');
        },
        7 => {
            reveal_strlit("win+r");
            assert("win+r"@[3] == '+');
        },
        8 => {
            reveal_strlit("super+tab");
            assert("super+tab"@[5] == '+');
        },
        9 => {
            reveal_strlit("win+tab");
            assert("win+tab"@[3] == '+');
        },
        10 => {
            reveal_strlit("alt+tab");
            assert("alt+tab"@[3] == '+');
        },
        11 => {
            reveal_strlit("alt+f4");
            assert("alt+f4"@[3] == '+');
        },
        12 => {
            reveal_strlit("ctrl+alt+delete");
            assert("ctrl+alt+delete"@[4] == '+');
        },
        13 => {
            reveal_strlit("ctrl+alt+del");
            assert("ctrl+alt+del"@[4] == '+');
        },
        14 => {
            reveal_strlit("ctrl+c");
            assert("ctrl+c"@[4] == '+');
        },
        15 => {
            reveal_strlit("control+c");
            assert("control+c"@[7] == '+');
        },
        16 => {
            reveal_strlit("ctrl+v");
            assert("ctrl+v"@[4] == '+');
        },
        17 => {
            reveal_strlit("control+v");
            assert("control+v"@[7] == '+');
        },
        18 => {
            reveal_strlit("ctrl+x");
            assert("ctrl+x"@[4] == '+');
        },
        19 => {
            reveal_strlit("control+x");
            assert("control+x"@[7] == '+');
        },
        20 => {
            reveal_strlit("ctrl+z");
            assert("ctrl+z"@[4] == '+');
        },
        21 => {
            reveal_strlit("control+z");
            assert("control+z"@[7] == '+');
        },
        22 => {
            reveal_strlit("ctrl+y");
            assert("ctrl+y"@[4] == '+');
        },
        23 => {
            reveal_strlit("control+y");
            assert("control+y"@[7] == '+');
        },
        24 => {
            reveal_strlit("ctrl+a");
            assert("ctrl+a"@[4] == '+');
        },
        25 => {
            reveal_strlit("control+a");
            assert("control+a"@[7] == '+');
        },
        26 => {
            reveal_strlit("ctrl+s");
            assert("ctrl+s"@[4] == '+');
        },
        27 => {
            reveal_strlit("control+s");
            assert("control+s"@[7] == '+');
        },
        28 => {
            reveal_strlit("ctrl+n");
            assert("ctrl+n"@[4] == '+');
        },
        29 => {
            reveal_strlit("control+n");
            assert("control+n"@[7] == '+');
        },
        30 => {
            reveal_strlit("ctrl+o");
            assert("ctrl+o"@[4] == '+');
        },
        31 => {
            reveal_strlit("control+o");
            assert("control+o"@[7] == '+');
        },
        32 => {
            reveal_strlit("ctrl+p");
            assert("ctrl+p"@[4] == '+');
        },
        33 => {
            reveal_strlit("control+p");
            assert("control+p"@[7] == '+');
        },
        34 => {
            reveal_strlit("ctrl+w");
            assert("ctrl+w"@[4] == '+');
        },
        35 => {
            reveal_strlit("control+w");
            assert("control+w"@[7] == '+');
        },
        36 => {
            reveal_strlit("fn+a");
            assert("fn+a"@[2] == '+');
        },
        37 => {
            reveal_strlit("fn+c");
            assert("fn+c"@[2] == '+');
        },
        38 => {
            reveal_strlit("fn+d");
            assert("fn+d"@[2] == '+');
        },
        39 => {
            reveal_strlit("fn+e");
            assert("fn+e"@[2] == '+');
        },
        40 => {
            reveal_strlit("fn+f");
            assert("fn+f"@[2] == '+');
        },
        41 => {
            reveal_strlit("fn+h");
            assert("fn+h"@[2] == '+');
        },
        42 => {
            reveal_strlit("fn+m");
            assert("fn+m"@[2] == '+');
        },
        43 => {
            reveal_strlit("fn+n");
            assert("fn+n"@[2] == '+');
        },
        44 => {
            reveal_strlit("fn+q");
            assert("fn+q"@[2] == '+');
        },
        45 => {
            reveal_strlit("fn+left");
            assert("fn+left"@[2] == '+');
        },
        46 => {
            reveal_strlit("fn+right");
            assert("fn+right"@[2] == '+');
        },
        47 => {
            reveal_strlit("fn+up");
            assert("fn+up"@[2] == '+');
        },
        48 => {
            reveal_strlit("fn+down");
            assert("fn+down"@[2] == '+');
        },
        49 => {
            reveal_strlit("fn+delete");
            assert("fn+delete"@[2] == '+');
        },
        _ => {},
    }
}

proof fn lemma_linux_entry_shape(i: usize)
    requires
        i < reserved_count(Platform::Linux),
    ensures
        reserved_key_shape((reserved_entry(Platform::Linux, i)->0).0),
{
    match i {
        0 => {
            reveal_strlit("alt+tab");
            assert("alt+tab"@[3] == '+');
        },
        1 => {
            reveal_strlit("alt+f4");
            assert("alt+f4"@[3] == '+');
        },
        2 => {
            reveal_strlit("super+l");
            assert("super+l"@[5] == '+');
        },
        3 => {
            reveal_strlit("super+d");
            assert("super+d"@[5] == '+');
        },
        4 => {
            reveal_strlit("ctrl+c");
            assert("ctrl+c"@[4] == '+');
        },
        5 => {
            reveal_strlit("control+c");
            assert("control+c"@[7] == '+');
        },
        6 => {
            reveal_strlit("ctrl+v");
            assert("ctrl+v"@[4] == '+');
        },
        7 => {
            reveal_strlit("control+v");
            assert("control+v"@[7] == '+');
        },
        8 => {
            reveal_strlit("ctrl+x");
            assert("ctrl+x"@[4] == '+');
        },
        9 => {
            reveal_strlit("control+x");
            assert("control+x"@[7] == '+');
        },
        10 => {
            reveal_strlit("ctrl+z");
            assert("ctrl+z"@[4] == '+');
        },
        11 => {
            reveal_strlit("control+z");
            assert("control+z"@[7] == '+');
        },
        12 => {
            reveal_strlit("ctrl+y");
            assert("ctrl+y"@[4] == '+');
        },
        13 => {
            reveal_strlit("control+y");
            assert("control+y"@[7] == '+');
        },
        14 => {
            reveal_strlit("ctrl+a");
            assert("ctrl+a"@[4] == '+');
        },
        15 => {
            reveal_strlit("control+a");
            assert("control+a"@[7] == '+');
        },
        16 => {
            reveal_strlit("ctrl+s");
            assert("ctrl+s"@[4] == '+');
        },
        17 => {
            reveal_strlit("control+s");
            assert("control+s"@[7] == '+');
        },
        18 => {
            reveal_strlit("ctrl+n");
            assert("ctrl+n"@[4] == '+');
        },
        19 => {
            reveal_strlit("control+n");
            assert("control+n"@[7] == '+');
        },
        20 => {
            reveal_strlit("ctrl+o");
            assert("ctrl+o"@[4] == '+');
        },
        21 => {
            reveal_strlit("control+o");
            assert("control+o"@[7] == '+');
        },
        22 => {
            reveal_strlit("ctrl+p");
            assert("ctrl+p"@[4] == '+');
        },
        23 => {
            reveal_strlit("control+p");
            assert("control+p"@[7] == '+');
        },
        24 => {
            reveal_strlit("fn+a");
            assert("fn+a"@[2] == '+');
        },
        25 => {
            reveal_strlit("fn+c");
            assert("fn+c"@[2] == '+');
        },
        26 => {
            reveal_strlit("fn+d");
            assert("fn+d"@[2] == '+');
        },
        27 => {
            reveal_strlit("fn+e");
            assert("fn+e"@[2] == '+');
        },
        28 => {
            reveal_strlit("fn+f");
            assert("fn+f"@[2] == '+');
        },
        29 => {
            reveal_strlit("fn+h");
            assert("fn+h"@[2] == '+');
        },
        30 => {
            reveal_strlit("fn+m");
            assert("fn+m"@[2] == '+');
        },
        31 => {
            reveal_strlit("fn+n");
            assert("fn+n"@[2] == '+');
        },
        32 => {
            reveal_strlit("fn+q");
            assert("fn+q"@[2] == '+');
        },
        33 => {
            reveal_strlit("fn+left");
            assert("fn+left"@[2] == '+');
        },
        34 => {
            reveal_strlit("fn+right");
            assert("fn+right"@[2] == '+');
        },
        35 => {
            reveal_strlit("fn+up");
            assert("fn+up"@[2] == '+');
        },
        36 => {
            reveal_strlit("fn+down");
            assert("fn+down"@[2] == '+');
        },
        37 => {
            reveal_strlit("fn+delete");
            assert("fn+delete"@[2] == '+');
        },
        _ => {},
    }
}

/// Every reserved shortcut is written in lowercase ASCII without spaces and joins at least
/// two keys with `+`, and the reason for it is a translation key under
/// `shortcuts.reserved.`.
pub proof fn law_reserved_table_shape(platform: Platform, i: int)
    requires
        0 <= i < reserved_count(platform),
    ensures
        reserved_key_shape(reserved_table(platform)[i].0),
        starts_with(reserved_table(platform)[i].1, "shortcuts.reserved."@),
{
    lemma_reason_keys_prefixed();
    match platform {
        Platform::MacOs => lemma_macos_entry_shape(i as usize),
        Platform::Windows => lemma_windows_entry_shape(i as usize),
        Platform::Linux => lemma_linux_entry_shape(i as usize),
    }
}

/// The `fn` combinations that every platform reserves for the system.
pub open spec fn fn_system_shortcuts() -> Seq<Seq<char>> {
    seq![
        "fn+a"@,
        "fn+c"@,
        "fn+d"@,
        "fn+e"@,
        "fn+f"@,
        "fn+h"@,
        "fn+m"@,
        "fn+n"@,
        "fn+q"@,
        "fn+left"@,
        "fn+right"@,
        "fn+up"@,
        "fn+down"@,
        "fn+delete"@,
    ]
}

/// Every platform reserves each of the `fn` system combinations, with the `fn` system
/// reason.
pub proof fn law_fn_system_shortcuts_reserved(platform: Platform, k: int)
    requires
        0 <= k < fn_system_shortcuts().len(),
    ensures
        reserved_table(platform).contains((fn_system_shortcuts()[k], "shortcuts.reserved.fn_system"@)),
{
    let first: int = match platform {
        Platform::MacOs => 124,
        Platform::Windows => 36,
        Platform::Linux => 24,
    };
    assert(reserved_table(platform)[first + k] == (fn_system_shortcuts()[k], "shortcuts.reserved.fn_system"@));
}

/// The entry that `first_exact` reports is an entry of the table with exactly that shortcut.
proof fn lemma_first_exact_found(table: Seq<(Seq<char>, Seq<char>)>, n: Seq<char>)
    ensures
        first_exact(table, n) matches Some(t) ==> exists|k: int|
            0 <= k < table.len() && (#[trigger] table[k]).0 == n && table[k].1 == t,
    decreases table.len(),
{
    if table.len() > 0 && table[0].0 != n {
        let rest = table.drop_first();
        lemma_first_exact_found(rest, n);
        if first_exact(rest, n) is Some {
            let k = choose|k: int|
                0 <= k < rest.len() && (#[trigger] rest[k]).0 == n && rest[k].1 == first_exact(
                    rest,
                    n,
                )->0;
            assert(table[k + 1] == rest[k]);
        }
    } else if table.len() > 0 {
        assert(table[0].0 == n);
    }
}

/// The entry that `first_same_keys` reports has as many `+`-separated keys as `parts`, and
/// every one of `parts` is among them.
proof fn lemma_first_same_keys_found(table: Seq<(Seq<char>, Seq<char>)>, parts: Seq<Seq<char>>)
    ensures
        first_same_keys(table, parts) matches Some(t) ==> exists|k: int|
            0 <= k < table.len() && (#[trigger] table[k]).1 == t && split_on(table[k].0, '+').len()
                == parts.len() && (forall|i: int|
                0 <= i < parts.len() ==> split_on(table[k].0, '+').contains(#[trigger] parts[i])),
    decreases table.len(),
{
    if table.len() > 0 && !same_keys(table[0].0, parts) {
        let rest = table.drop_first();
        lemma_first_same_keys_found(rest, parts);
        if first_same_keys(rest, parts) is Some {
            let k = choose|k: int|
                0 <= k < rest.len() && (#[trigger] rest[k]).1 == first_same_keys(rest, parts)->0
                    && split_on(rest[k].0, '+').len() == parts.len() && (forall|i: int|
                    0 <= i < parts.len() ==> split_on(rest[k].0, '+').contains(#[trigger] parts[i]));
            assert(table[k + 1] == rest[k]);
        }
    } else if table.len() > 0 {
        assert(same_keys(table[0].0, parts));
    }
}

/// A shortcut is reported reserved only because of an entry of the platform's table that is
/// the same shortcut (lowercased, spaces removed), or, for a combination, an entry with
/// exactly as many keys, every key of the shortcut among them, in any order; the reason
/// reported is that entry's. So a combination whose keys are only part of a reserved one
/// (fewer keys) is not reserved by it.
pub proof fn law_reserved_only_for_same_keys(platform: Platform, shortcut: Seq<char>)
    ensures
        reserved_reason(platform, shortcut) matches Some(t) ==> ({
            let n = normalized_shortcut(shortcut);
            let parts = split_on(n, '+');
            let table = reserved_table(platform);
            exists|k: int|
                0 <= k < table.len() && (#[trigger] table[k]).1 == t && (table[k].0 == n || (
                parts.len() > 1 && split_on(table[k].0, '+').len() == parts.len() && forall|i: int|
                    0 <= i < parts.len() ==> split_on(table[k].0, '+').contains(#[trigger] parts[i])))
        }),
{
    let n = normalized_shortcut(shortcut);
    let table = reserved_table(platform);
    lemma_first_exact_found(table, n);
    lemma_first_same_keys_found(table, split_on(n, '+'));
}

} // verus!

