use codictate::microphone::{
    find_fallback_device_from_list, get_effective_device_from_list, resolve_device_open_target,
    DeviceOpenTarget, InputDeviceInfo,
};

fn device(name: &str, is_default: bool, is_bluetooth: bool, is_builtin: bool) -> InputDeviceInfo {
    InputDeviceInfo {
        name: name.to_string(),
        is_default,
        is_bluetooth,
        is_builtin,
        is_virtual: false,
        is_continuity_camera: false,
    }
}

fn devices() -> Vec<InputDeviceInfo> {
    vec![
        device("AirPods", true, true, false),
        device("USB Mic", false, false, false),
        device("MacBook Pro Microphone", false, false, true),
    ]
}

#[test]
fn explicit_selection_is_used_strictly() {
    assert_eq!(get_effective_device_from_list(&devices(), false, None, Some("USB Mic")), Some(1));
    assert_eq!(get_effective_device_from_list(&devices(), false, None, Some("Gone")), None);
}

#[test]
fn clamshell_microphone_wins_in_clamshell_mode() {
    assert_eq!(
        get_effective_device_from_list(&devices(), true, Some("USB Mic"), Some("AirPods")),
        Some(1)
    );
    assert_eq!(
        get_effective_device_from_list(&devices(), false, Some("USB Mic"), Some("AirPods")),
        Some(0)
    );
}

#[test]
fn bluetooth_default_gives_way_to_builtin() {
    assert_eq!(get_effective_device_from_list(&devices(), false, None, None), Some(2));
    assert_eq!(get_effective_device_from_list(&devices(), false, None, Some("Default")), Some(2));
    let no_builtin = vec![device("AirPods", true, true, false), device("USB Mic", false, false, false)];
    assert_eq!(get_effective_device_from_list(&no_builtin, false, None, None), Some(1));
    let only_bt = vec![device("AirPods", true, true, false)];
    assert_eq!(get_effective_device_from_list(&only_bt, false, None, None), Some(0));
    let wired_default = vec![device("USB Mic", true, false, false), device("Built-in", false, false, true)];
    assert_eq!(get_effective_device_from_list(&wired_default, false, None, None), Some(0));
}

#[test]
fn fallback_prefers_builtin_then_wired_then_bluetooth() {
    assert_eq!(find_fallback_device_from_list(&devices(), "Gone"), Some(2));
    assert_eq!(find_fallback_device_from_list(&devices(), "MacBook Pro Microphone"), Some(1));
    let mut only_bt = vec![device("AirPods", true, true, false)];
    assert_eq!(find_fallback_device_from_list(&only_bt, "Gone"), Some(0));
    only_bt[0].is_virtual = true;
    assert_eq!(find_fallback_device_from_list(&only_bt, "Gone"), None);
}

#[test]
fn open_target_falls_back_for_missing_selection() {
    assert_eq!(
        resolve_device_open_target(&devices(), false, None, Some("Gone"), "Gone", true),
        DeviceOpenTarget {
            device_index: Some(2),
            device_name: "MacBook Pro Microphone".to_string(),
            persist_fallback: true
        }
    );
    assert!(!resolve_device_open_target(&devices(), false, None, Some("Gone"), "Gone", false).persist_fallback);
    assert_eq!(
        resolve_device_open_target(&Vec::new(), false, None, Some("Gone"), "Gone", true),
        DeviceOpenTarget { device_index: None, device_name: "Default".to_string(), persist_fallback: false }
    );
}

#[test]
fn open_target_uses_best_available_without_default() {
    let no_default = vec![device("AirPods", false, true, false), device("USB Mic", false, false, false)];
    assert_eq!(
        resolve_device_open_target(&no_default, false, None, None, "Default", true),
        DeviceOpenTarget { device_index: Some(1), device_name: "USB Mic".to_string(), persist_fallback: false }
    );
    assert_eq!(
        resolve_device_open_target(&devices(), false, None, Some("USB Mic"), "USB Mic", true),
        DeviceOpenTarget { device_index: Some(1), device_name: "USB Mic".to_string(), persist_fallback: false }
    );
}
