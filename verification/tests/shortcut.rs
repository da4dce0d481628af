use codictate::shortcut::bindings::{
    global_shortcut_binding, plan_reset_binding, plan_reset_bindings, startup_bindings,
};
use codictate::shortcut::reserved::{check_reserved_shortcut, get_reserved_shortcuts, Platform};
use codictate::shortcut::{
    check_fn_shortcut_unused, is_fn_binding, plan_binding_change, shortcut_event_action,
    validate_provider_exists, validate_shortcut_string, BindingChange, BindingResponse,
    ShortcutActionStep, ShortcutBinding, ShortcutEventState, ToggleStates,
};

#[test]
fn reserved_undo_default_binding_is_not_reserved() {
    assert!(check_reserved_shortcut(Platform::MacOs, "control+command+z").is_ok());
    assert!(check_reserved_shortcut(Platform::Windows, "ctrl+alt+z").is_ok());
    assert!(check_reserved_shortcut(Platform::Linux, "ctrl+alt+z").is_ok());
}

#[test]
fn reserved_shortcuts_match_exactly_after_normalization() {
    assert_eq!(
        check_reserved_shortcut(Platform::MacOs, "Command + Space"),
        Err("RESERVED:shortcuts.reserved.spotlight".to_string())
    );
    assert_eq!(
        check_reserved_shortcut(Platform::Windows, "Ctrl+C"),
        Err("RESERVED:shortcuts.reserved.common_editing".to_string())
    );
    assert!(check_reserved_shortcut(Platform::MacOs, "ctrl+c").is_ok());
}

#[test]
fn reserved_shortcuts_match_in_any_key_order() {
    assert_eq!(
        check_reserved_shortcut(Platform::MacOs, "space+ctrl"),
        Err("RESERVED:shortcuts.reserved.input_source_prev".to_string())
    );
    assert_eq!(
        check_reserved_shortcut(Platform::Linux, "tab+alt"),
        Err("RESERVED:shortcuts.reserved.linux_system".to_string())
    );
    assert!(check_reserved_shortcut(Platform::Linux, "space").is_ok());
}

#[test]
fn fn_system_shortcuts_are_reserved_everywhere() {
    for platform in [Platform::MacOs, Platform::Windows, Platform::Linux] {
        assert_eq!(
            check_reserved_shortcut(platform, "fn+left"),
            Err("RESERVED:shortcuts.reserved.fn_system".to_string())
        );
    }
}

#[test]
fn reserved_tables_have_expected_sizes() {
    assert_eq!(get_reserved_shortcuts(Platform::MacOs).len(), 138);
    assert_eq!(get_reserved_shortcuts(Platform::Windows).len(), 50);
    assert_eq!(get_reserved_shortcuts(Platform::Linux).len(), 38);
    let mac = get_reserved_shortcuts(Platform::MacOs);
    assert_eq!(mac[0].0, "command+q");
    assert_eq!(mac[0].1.translation_key, "shortcuts.reserved.app_control");
}

#[test]
fn shortcut_strings_need_a_main_key() {
    assert_eq!(validate_shortcut_string("   "), Err("Shortcut cannot be empty".to_string()));
    assert_eq!(
        validate_shortcut_string("ctrl+Shift"),
        Err("Shortcut must include a main key (letter, number, F-key, etc.) in addition to modifiers".to_string())
    );
    assert_eq!(validate_shortcut_string("ctrl+ A"), Ok(()));
    assert_eq!(validate_shortcut_string("F5"), Ok(()));
}

#[test]
fn providers_must_exist() {
    let ids = vec!["openai".to_string(), "local_mlx".to_string()];
    assert_eq!(validate_provider_exists(&ids, "local_mlx"), Ok(()));
    assert_eq!(
        validate_provider_exists(&ids, "anthropic"),
        Err("Provider 'anthropic' not found".to_string())
    );
}

#[test]
fn fn_bindings_are_recognized() {
    assert!(is_fn_binding("fn"));
    assert!(is_fn_binding("Fn+Z"));
    assert!(is_fn_binding("shift+fn"));
    assert!(!is_fn_binding("ctrl+f"));
    assert!(!is_fn_binding("function"));
}

fn binding(id: &str, current: &str) -> ShortcutBinding {
    ShortcutBinding {
        id: id.to_string(),
        name: id.to_string(),
        description: String::new(),
        default_binding: current.to_string(),
        current_binding: current.to_string(),
    }
}

#[test]
fn fn_shortcut_conflicts_with_other_bindings_only() {
    let bindings = vec![binding("transcribe", "fn"), binding("correct", "Fn+Z")];
    assert_eq!(check_fn_shortcut_unused(&bindings, "transcribe", "FN"), Ok(()));
    assert_eq!(
        check_fn_shortcut_unused(&bindings, "transcribe", "fn+z"),
        Err("Shortcut 'fn+z' is already in use".to_string())
    );
}

#[test]
fn push_to_talk_starts_on_press_and_stops_on_release() {
    let mut toggles = ToggleStates::new();
    assert_eq!(
        shortcut_event_action("transcribe", ShortcutEventState::Pressed, &mut toggles),
        ShortcutActionStep::Start
    );
    assert_eq!(
        shortcut_event_action("transcribe", ShortcutEventState::Released, &mut toggles),
        ShortcutActionStep::Stop
    );
    assert!(!toggles.is_active("transcribe"));
}

#[test]
fn cancel_and_paste_act_on_press_only() {
    let mut toggles = ToggleStates::new();
    for id in ["cancel", "paste_last_transcript"] {
        assert_eq!(
            shortcut_event_action(id, ShortcutEventState::Pressed, &mut toggles),
            ShortcutActionStep::Start
        );
        assert_eq!(
            shortcut_event_action(id, ShortcutEventState::Released, &mut toggles),
            ShortcutActionStep::Ignore
        );
    }
}

#[test]
fn toggle_shortcut_alternates_start_and_stop() {
    let mut toggles = ToggleStates::new();
    assert_eq!(
        shortcut_event_action("correct", ShortcutEventState::Pressed, &mut toggles),
        ShortcutActionStep::Start
    );
    assert!(toggles.is_active("correct"));
    assert_eq!(
        shortcut_event_action("correct", ShortcutEventState::Released, &mut toggles),
        ShortcutActionStep::Ignore
    );
    assert!(toggles.is_active("correct"));
    assert_eq!(
        shortcut_event_action("correct", ShortcutEventState::Pressed, &mut toggles),
        ShortcutActionStep::Stop
    );
    assert!(!toggles.is_active("correct"));
    assert!(!toggles.is_active("other"));
}

fn failure(error: &str) -> BindingChange {
    BindingChange::Answer(BindingResponse {
        success: false,
        binding: None,
        error: Some(error.to_string()),
    })
}

#[test]
fn binding_change_refuses_blank_and_unknown_bindings() {
    let stored = vec![binding("transcribe", "ctrl+space")];
    let defaults = vec![binding("transcribe", "ctrl+space"), binding("cancel", "escape")];
    assert_eq!(
        plan_binding_change(&stored, &defaults, Platform::Windows, "transcribe", "  "),
        BindingChange::Reject("Binding cannot be empty".to_string())
    );
    assert_eq!(
        plan_binding_change(&stored, &defaults, Platform::Windows, "nope", "ctrl+k"),
        failure("Binding with id 'nope' not found in defaults")
    );
}

#[test]
fn binding_change_registers_a_valid_shortcut() {
    let stored = vec![binding("transcribe", "ctrl+space")];
    let defaults = vec![binding("transcribe", "ctrl+space")];
    let mut updated = binding("transcribe", "ctrl+space");
    updated.current_binding = "ctrl+k".to_string();
    assert_eq!(
        plan_binding_change(&stored, &defaults, Platform::Windows, "transcribe", "ctrl+k"),
        BindingChange::Register { previous: binding("transcribe", "ctrl+space"), updated }
    );
}

#[test]
fn binding_change_falls_back_to_defaults() {
    let stored: Vec<ShortcutBinding> = vec![];
    let defaults = vec![binding("correct", "ctrl+e")];
    assert_eq!(
        plan_binding_change(&stored, &defaults, Platform::Linux, "correct", "ctrl+shift"),
        BindingChange::UnregisterThenReject {
            previous: binding("correct", "ctrl+e"),
            error: "Shortcut must include a main key (letter, number, F-key, etc.) in addition to modifiers"
                .to_string(),
        }
    );
}

#[test]
fn binding_change_special_cases() {
    let stored = vec![
        binding("cancel", "escape"),
        binding("transcribe", "fn"),
        binding("correct", "ctrl+e"),
    ];
    let defaults = stored.clone();
    let mut cancel = binding("cancel", "escape");
    cancel.current_binding = "f1".to_string();
    assert_eq!(
        plan_binding_change(&stored, &defaults, Platform::MacOs, "cancel", "f1"),
        BindingChange::StoreCancel(cancel)
    );
    assert_eq!(
        plan_binding_change(&stored, &defaults, Platform::MacOs, "correct", "command+space"),
        failure("RESERVED:shortcuts.reserved.spotlight")
    );
    assert_eq!(
        plan_binding_change(&stored, &defaults, Platform::MacOs, "correct", "FN"),
        failure("Shortcut 'FN' is already in use")
    );
    let mut fn_correct = binding("correct", "ctrl+e");
    fn_correct.current_binding = "fn+k".to_string();
    assert_eq!(
        plan_binding_change(&stored, &defaults, Platform::MacOs, "correct", "fn+k"),
        BindingChange::StoreFn { previous: binding("correct", "ctrl+e"), updated: fn_correct }
    );
}

#[test]
fn startup_registers_effective_non_fn_bindings_except_cancel() {
    let defaults = vec![
        binding("transcribe", "ctrl+space"),
        binding("cancel", "escape"),
        binding("correct", "ctrl+e"),
        binding("paste_last_transcript", "ctrl+shift+v"),
    ];
    let stored = vec![binding("correct", "fn+k"), binding("transcribe", "alt+space")];
    let r = startup_bindings(&stored, &defaults);
    assert_eq!(r, vec![binding("transcribe", "alt+space"), binding("paste_last_transcript", "ctrl+shift+v")]);
}

#[test]
fn suspend_and_resume_skip_fn_bindings() {
    let stored = vec![binding("transcribe", "fn"), binding("correct", "ctrl+e")];
    assert_eq!(global_shortcut_binding(&stored, "transcribe"), None);
    assert_eq!(global_shortcut_binding(&stored, "correct"), Some(binding("correct", "ctrl+e")));
    assert_eq!(global_shortcut_binding(&stored, "missing"), None);
}

#[test]
fn reset_binding_syncs_the_stored_default() {
    let mut stored_correct = binding("correct", "ctrl+k");
    stored_correct.default_binding = "ctrl+old".to_string();
    let stored = vec![stored_correct];
    let defaults = vec![binding("correct", "ctrl+e")];
    let plan = plan_reset_binding(&stored, &defaults, "correct").unwrap();
    let mut synced = binding("correct", "ctrl+k");
    synced.default_binding = "ctrl+e".to_string();
    assert_eq!(plan.synced, Some(synced));
    assert_eq!(plan.binding, "ctrl+e");
    assert_eq!(
        plan_reset_binding(&stored, &defaults, "nope").err(),
        Some("No default binding found for id 'nope'".to_string())
    );
}

#[test]
fn reset_bindings_resets_together_and_reports_missing_ones() {
    let stored = vec![binding("transcribe", "ctrl+e"), binding("correct", "ctrl+space")];
    let defaults = vec![
        binding("transcribe", "ctrl+space"),
        binding("correct", "ctrl+e"),
        binding("handsfree", "fn"),
    ];
    let ids = vec!["transcribe".to_string(), "correct".to_string(), "handsfree".to_string()];
    let plan = plan_reset_bindings(&stored, &defaults, &ids);
    assert_eq!(plan.unregister, stored);
    let outcome = plan.outcome.unwrap();
    assert_eq!(outcome.stored, defaults[..2].to_vec());
    assert_eq!(outcome.responses.len(), 3);
    assert_eq!(outcome.responses[0].binding, Some(binding("transcribe", "ctrl+space")));
    assert!(outcome.responses[1].success);
    assert_eq!(
        outcome.responses[2],
        BindingResponse {
            success: false,
            binding: None,
            error: Some("Binding 'handsfree' not found".to_string())
        }
    );
    assert_eq!(outcome.register, defaults[..2].to_vec());
}

#[test]
fn reset_bindings_stops_at_an_id_without_default() {
    let stored = vec![binding("transcribe", "ctrl+e"), binding("correct", "ctrl+space")];
    let defaults = vec![binding("transcribe", "ctrl+space")];
    let ids = vec!["transcribe".to_string(), "correct".to_string()];
    let plan = plan_reset_bindings(&stored, &defaults, &ids);
    assert_eq!(plan.unregister, vec![binding("transcribe", "ctrl+e")]);
    assert_eq!(plan.outcome.err(), Some("No default binding found for id 'correct'".to_string()));
}

#[test]
fn reserved_tables_are_lowercase_and_reserve_fn_keys() {
    for platform in [Platform::MacOs, Platform::Windows, Platform::Linux] {
        let table = get_reserved_shortcuts(platform);
        for (key, reason) in &table {
            assert_eq!(key.to_lowercase(), *key);
            assert!(key.contains('+') && !key.contains(' '));
            assert!(reason.translation_key.starts_with("shortcuts.reserved."));
        }
        for k in ["fn+q", "fn+a", "fn+delete"] {
            assert!(table
                .iter()
                .any(|(key, r)| *key == k && r.translation_key == "shortcuts.reserved.fn_system"));
        }
    }
}
