use global_hotkey::hotkey::{Code, HotKey, Modifiers};
use global_hotkey::{GlobalHotKeyEvent, HotKeyState};
use snapvault::hotkeys::{
    code_name, hotkey_display, hotkey_label, modifiers_from_flags, HotkeyManager, ALT_BIT,
    CONTROL_BIT, META_BIT, SHIFT_BIT,
};

#[test]
fn code_names() {
    assert_eq!(code_name(Code::F2), "F2");
    assert_eq!(code_name(Code::KeyA), "A");
    assert_eq!(code_name(Code::Digit0), "0");
    assert_eq!(code_name(Code::PrintScreen), "PrtSc");
    assert_eq!(code_name(Code::PageDown), "PgDn");
    assert_eq!(code_name(Code::Escape), "?");
}

#[test]
fn default_hotkey_text() {
    let hk = HotKey::new(Some(Modifiers::SHIFT), Code::F2);
    assert_eq!(hotkey_display(&hk), "Shift + F2");
}

#[test]
fn modifier_order_in_text() {
    let all = Modifiers::CONTROL | Modifiers::ALT | Modifiers::SHIFT | Modifiers::META;
    let hk = HotKey::new(Some(all), Code::KeyZ);
    assert_eq!(hotkey_display(&hk), "Ctrl + Alt + Shift + Win + Z");
    let hk = HotKey::new(None, Code::Space);
    assert_eq!(hotkey_display(&hk), "Space");
    let hk = HotKey::new(Some(Modifiers::CONTROL | Modifiers::ALT), Code::Delete);
    assert_eq!(hotkey_display(&hk), "Ctrl + Alt + Delete");
}

#[test]
fn label_from_bits() {
    assert_eq!(hotkey_label(0, Code::Digit5), "5");
    assert_eq!(hotkey_label(SHIFT_BIT | META_BIT, Code::Home), "Shift + Win + Home");
    assert_eq!(hotkey_label(CONTROL_BIT | ALT_BIT, Code::F12), "Ctrl + Alt + F12");
}

#[test]
fn modifiers_from_held_keys() {
    assert!(modifiers_from_flags(false, false, false).is_none());
    let m = modifiers_from_flags(true, false, true).unwrap();
    assert_eq!(m, Modifiers::CONTROL | Modifiers::ALT);
    assert_eq!(m.bits(), 0x9);
    let m = modifiers_from_flags(false, true, false).unwrap();
    assert_eq!(m, Modifiers::SHIFT);
}

#[test]
fn manager_starts_with_shift_f2() {
    let hk = HotkeyManager::new().unwrap();
    assert_eq!(*hk.hotkey(), HotKey::new(Some(Modifiers::SHIFT), Code::F2));
    assert!(hk.is_active());
}

#[test]
fn manager_rebind_disable_pause() {
    let mut hk = HotkeyManager::new().unwrap();
    hk.rebind(Some(Modifiers::CONTROL), Code::KeyA).unwrap();
    assert_eq!(*hk.hotkey(), HotKey::new(Some(Modifiers::CONTROL), Code::KeyA));
    assert!(hk.is_active());
    hk.disable();
    assert!(!hk.is_active());
    assert_eq!(*hk.hotkey(), HotKey::new(Some(Modifiers::CONTROL), Code::KeyA));
    hk.pause();
    hk.resume();
    assert!(!hk.is_active());
    hk.rebind(None, Code::F9).unwrap();
    assert!(hk.is_active());
    assert_eq!(hotkey_display(hk.hotkey()), "F9");
}

#[test]
fn capture_event_matching() {
    let hk = HotkeyManager::new().unwrap();
    let id = hk.hotkey().id();
    assert!(hk.is_capture_event(&GlobalHotKeyEvent { id, state: HotKeyState::Pressed }));
    assert!(!hk.is_capture_event(&GlobalHotKeyEvent { id, state: HotKeyState::Released }));
    assert!(!hk.is_capture_event(&GlobalHotKeyEvent { id: id + 1, state: HotKeyState::Pressed }));
}
