use vibe_coding_voice_native::hotkeys::{
    apply_shortcut, build_hotkey, capture_shortcut, code_from_name, code_name, format_hotkey,
    format_key, map_egui_key, no_manager_error, parse_shortcut, poll_triggered, record_hotkeys_unavailable,
    record_initial_registration, recording_elapsed_label, toggle_shortcut_recording,
    CaptureOutcome, HotKeySpec, HotkeyEvent, HotkeySlot, Key, KeyCode, Modifiers,
    RegisterOutcome,
};
use vibe_coding_voice_native::state::NativeAppState;

fn mods(ctrl: bool, alt: bool, shift: bool) -> Modifiers {
    Modifiers { alt, ctrl, shift, mac_cmd: false, command: false }
}

fn ctrl_z() -> HotKeySpec {
    HotKeySpec { control: true, alt: false, shift: false, super_key: false, key: KeyCode::KeyZ }
}

#[test]
fn key_mapping_and_labels() {
    assert_eq!(map_egui_key(Key::A).unwrap(), KeyCode::KeyA);
    assert_eq!(map_egui_key(Key::Num7).unwrap(), KeyCode::Digit7);
    assert_eq!(map_egui_key(Key::ArrowUp).unwrap(), KeyCode::ArrowUp);
    assert_eq!(map_egui_key(Key::Other).unwrap_err(), "当前只支持字母、数字、功能键、方向键和常见控制键。");
    assert_eq!(format_key(&KeyCode::Escape), "Esc");
    assert_eq!(format_key(&KeyCode::ArrowLeft), "Left");
    assert_eq!(format_key(&KeyCode::Digit0), "0");
    assert_eq!(format_key(&KeyCode::Other("NumLock".into())), "Unknown");
}

#[test]
fn hotkey_texts() {
    assert_eq!(format_hotkey(&ctrl_z()), "Ctrl+Z");
    let all = HotKeySpec { control: true, alt: true, shift: true, super_key: true, key: KeyCode::F5 };
    assert_eq!(format_hotkey(&all), "Ctrl+Alt+Shift+Win+F5");
    let h = build_hotkey(Modifiers { alt: false, ctrl: false, shift: true, mac_cmd: true, command: true }, Key::Space).unwrap();
    assert_eq!(h, HotKeySpec { control: true, alt: false, shift: true, super_key: true, key: KeyCode::Space });
}

#[test]
fn names_round_trip() {
    for c in [KeyCode::KeyQ, KeyCode::Digit3, KeyCode::F12, KeyCode::PageDown, KeyCode::ArrowRight] {
        assert_eq!(code_from_name(&code_name(&c)), c);
    }
    assert_eq!(code_from_name("NumLock"), KeyCode::Other("NumLock".into()));
}

#[test]
fn parsing_stored_shortcuts() {
    let h = parse_shortcut("ctrl+z").unwrap();
    assert_eq!(h, ctrl_z());
    assert_eq!(format_hotkey(&h), "Ctrl+Z");
    assert_eq!(h.key, KeyCode::KeyZ);
    let h = parse_shortcut("Shift+Alt+F9").unwrap();
    assert_eq!(h.key, KeyCode::F9);
    assert_eq!(format_hotkey(&h), "Alt+Shift+F9");
    let h = parse_shortcut("ctrl+numlock").unwrap();
    assert_eq!(h.key, KeyCode::Other("NumLock".into()));
    let e = parse_shortcut("ctrl++").unwrap_err();
    assert!(e.starts_with("快捷键格式无效: ") && e.len() > "快捷键格式无效: ".len());
    assert!(parse_shortcut("ctrl+q+alt").is_err());
}

#[test]
fn capturing_keys() {
    let mut s = NativeAppState::new(String::new());
    s.shortcut_recording = true;
    assert!(matches!(capture_shortcut(&mut s, Key::Escape, mods(false, false, false)), CaptureOutcome::Cancelled));
    assert!(!s.shortcut_recording);
    assert_eq!(s.shortcut_status, "已取消快捷键录入。");

    s.shortcut_recording = true;
    assert!(matches!(capture_shortcut(&mut s, Key::Other, mods(true, false, false)), CaptureOutcome::Unsupported));
    assert_eq!(s.shortcut_status, "这个按键暂时不支持: 当前只支持字母、数字、功能键、方向键和常见控制键。");
    assert!(s.shortcut_recording);

    assert!(matches!(capture_shortcut(&mut s, Key::K, mods(false, false, false)), CaptureOutcome::NeedsModifier));
    assert_eq!(s.shortcut_status, "建议至少带一个 Ctrl / Alt / Shift，或直接使用 F1-F12。");

    match capture_shortcut(&mut s, Key::F8, mods(false, false, false)) {
        CaptureOutcome::Register(h) => assert_eq!(h.key, KeyCode::F8),
        _ => panic!("F8 alone can be bound"),
    }
    match capture_shortcut(&mut s, Key::Escape, mods(true, false, false)) {
        CaptureOutcome::Register(h) => assert_eq!(format_hotkey(&h), "Ctrl+Esc"),
        _ => panic!("Ctrl+Esc can be bound"),
    }
    assert!(s.shortcut_recording);
}

#[test]
fn shortcut_state_updates() {
    let mut s = NativeAppState::new(String::new());
    record_initial_registration(&mut s, Ok("Ctrl+Z".to_string()));
    assert!(s.shortcut_registered);
    assert_eq!(s.shortcut, "Ctrl+Z");
    assert_eq!(s.shortcut_status, "已注册全局快捷键 `Ctrl+Z`。");
    toggle_shortcut_recording(&mut s);
    assert!(s.shortcut_recording);
    assert_eq!(s.shortcut_status, "快捷键录入中。请直接按下新的组合键，按 Esc 可取消。");
    toggle_shortcut_recording(&mut s);
    assert_eq!(s.shortcut_status, "已保留当前快捷键 `Ctrl+Z`。");
    s.shortcut_recording = true;
    apply_shortcut(&mut s, Err(no_manager_error()));
    assert!(s.shortcut_recording);
    assert_eq!(s.shortcut_status, "全局快捷键管理器还没有初始化成功。");
    apply_shortcut(&mut s, Ok("Alt+F1".to_string()));
    assert!(!s.shortcut_recording);
    assert_eq!(s.shortcut, "Alt+F1");
    assert_eq!(s.shortcut_status, "已注册新的全局快捷键 `Alt+F1`。");

    let mut s = NativeAppState::new(String::new());
    record_initial_registration(&mut s, Err("busy".to_string()));
    assert!(!s.shortcut_registered);
    assert_eq!(s.shortcut_status, "快捷键初始化失败，请重新设置: busy");
    toggle_shortcut_recording(&mut s);
    toggle_shortcut_recording(&mut s);
    assert_eq!(s.shortcut_status, "已取消快捷键录入。");
    record_hotkeys_unavailable(&mut s, "no display");
    assert_eq!(s.shortcut_status, "系统级快捷键不可用: no display");
}

#[test]
fn registration_replaces_and_rolls_back() {
    let mut slot = HotkeySlot::new();
    let reg = slot.begin_register(ctrl_z());
    assert!(reg.previous.is_none());
    let reg = reg.after_unregister(Ok(())).ok().unwrap();
    match reg.after_register(&mut slot, Ok(())) {
        RegisterOutcome::Registered(d) => assert_eq!(d, "Ctrl+Z"),
        _ => panic!("expected success"),
    }
    assert_eq!(slot.registered, Some(ctrl_z()));

    let f1 = HotKeySpec { control: false, alt: true, shift: false, super_key: false, key: KeyCode::F1 };
    let reg = slot.begin_register(f1.clone());
    assert!(slot.registered.is_none());
    let reg = reg.after_unregister(Ok(())).ok().unwrap();
    match reg.after_register(&mut slot, Err("AlreadyRegistered".to_string())) {
        RegisterOutcome::Failed { message, restore } => {
            assert_eq!(message, "注册快捷键 `Alt+F1` 失败: AlreadyRegistered");
            assert_eq!(restore, Some(ctrl_z()));
        }
        _ => panic!("expected failure"),
    }
    assert_eq!(slot.registered, Some(ctrl_z()));

    let reg = slot.begin_register(f1);
    let e = reg.after_unregister(Err("os".to_string())).err().unwrap();
    assert_eq!(e, "取消旧快捷键 `Ctrl+Z` 失败。: os");
    assert!(slot.registered.is_none());
}

#[test]
fn triggering_and_elapsed() {
    let events = vec![HotkeyEvent { id: 3, pressed: false }, HotkeyEvent { id: 4, pressed: true }];
    assert!(!poll_triggered(&events, 3));
    assert!(poll_triggered(&events, 4));
    assert!(!poll_triggered(&vec![], 4));
    assert_eq!(recording_elapsed_label(0), "0:00");
    assert_eq!(recording_elapsed_label(65), "1:05");
    assert_eq!(recording_elapsed_label(600), "10:00");
}
