use global_hotkey::hotkey::{Code, HotKey, Modifiers};
use snapvault::hotkeys::HotkeyManager;
use snapvault::settings::{vk_to_code, HotkeyRecorder, SettingsEffects};

#[test]
fn vk_mapping() {
    assert_eq!(vk_to_code(0x71), Some(Code::F2));
    assert_eq!(vk_to_code(0x7B), Some(Code::F12));
    assert_eq!(vk_to_code(0x41), Some(Code::KeyA));
    assert_eq!(vk_to_code(0x5A), Some(Code::KeyZ));
    assert_eq!(vk_to_code(0x39), Some(Code::Digit9));
    assert_eq!(vk_to_code(0x2C), Some(Code::PrintScreen));
    assert_eq!(vk_to_code(0x21), Some(Code::PageUp));
    assert_eq!(vk_to_code(0x1B), None);
    assert_eq!(vk_to_code(0x10), None);
}

#[test]
fn click_in_box_starts_recording() {
    let mut hk = HotkeyManager::new().unwrap();
    let mut rec = HotkeyRecorder::new();
    let e = rec.on_click(&mut hk, 10, 10);
    assert_eq!(e, SettingsEffects { repaint: false, quit: false });
    assert!(!rec.recording());
    let e = rec.on_click(&mut hk, 24, 92);
    assert_eq!(e, SettingsEffects { repaint: true, quit: false });
    assert!(rec.recording());
    let e = rec.on_click(&mut hk, 100, 70);
    assert_eq!(e, SettingsEffects { repaint: false, quit: false });
    assert_eq!(rec.key_text(&hk), "Press keys...");
    assert_eq!(rec.hint_text(), "ESC to cancel");
}

#[test]
fn recording_a_new_hotkey() {
    let mut hk = HotkeyManager::new().unwrap();
    let mut rec = HotkeyRecorder::new();
    rec.on_click(&mut hk, 100, 70);
    let e = rec.on_key_down(&mut hk, 0x11, true, false, false);
    assert_eq!(e, SettingsEffects { repaint: false, quit: false });
    assert!(rec.recording());
    let e = rec.on_key_down(&mut hk, 0x1B0, false, false, false);
    assert_eq!(e, SettingsEffects { repaint: false, quit: false });
    assert!(rec.recording());
    let e = rec.on_key_down(&mut hk, 0x41, true, false, false);
    assert_eq!(e, SettingsEffects { repaint: true, quit: false });
    assert!(!rec.recording());
    assert_eq!(*hk.hotkey(), HotKey::new(Some(Modifiers::CONTROL), Code::KeyA));
    assert_eq!(rec.key_text(&hk), "Ctrl + A");
    assert_eq!(rec.hint_text(), "Click to change  |  ESC to close");
}

#[test]
fn ignored_keys_use_low_16_bits() {
    let mut hk = HotkeyManager::new().unwrap();
    let mut rec = HotkeyRecorder::new();
    rec.on_click(&mut hk, 100, 70);
    let e = rec.on_key_down(&mut hk, 0x1_0010, false, false, false);
    assert_eq!(e, SettingsEffects { repaint: false, quit: false });
    assert!(rec.recording());
}

#[test]
fn escape_while_recording_disables() {
    let mut hk = HotkeyManager::new().unwrap();
    let mut rec = HotkeyRecorder::new();
    rec.on_click(&mut hk, 100, 70);
    let e = rec.on_key_down(&mut hk, 0x1B, false, false, false);
    assert_eq!(e, SettingsEffects { repaint: true, quit: false });
    assert!(!rec.recording());
    assert!(!hk.is_active());
    assert_eq!(rec.key_text(&hk), "None");
    assert!(!rec.listens_for_hotkey(&hk));
}

#[test]
fn escape_otherwise_closes() {
    let mut hk = HotkeyManager::new().unwrap();
    let mut rec = HotkeyRecorder::new();
    let e = rec.on_key_down(&mut hk, 0x1B, false, false, false);
    assert_eq!(e, SettingsEffects { repaint: false, quit: true });
    let e = rec.on_key_down(&mut hk, 0x41, false, false, false);
    assert_eq!(e, SettingsEffects { repaint: false, quit: false });
    assert_eq!(rec.key_text(&hk), "Shift + F2");
    assert!(rec.listens_for_hotkey(&hk));
}

#[test]
fn close_cancels_recording() {
    let mut hk = HotkeyManager::new().unwrap();
    let mut rec = HotkeyRecorder::new();
    rec.on_click(&mut hk, 100, 70);
    let e = rec.on_close(&mut hk);
    assert_eq!(e, SettingsEffects { repaint: false, quit: true });
    assert!(!rec.recording());
    assert!(hk.is_active());
    rec.on_tray_quit(&mut hk);
    assert_eq!(*hk.hotkey(), HotKey::new(Some(Modifiers::SHIFT), Code::F2));
}
