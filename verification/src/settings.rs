use crate::hotkeys::{
    HotkeyManager, HotkeyRequest, code_label, held_modifier_bits, hotkey_display, hotkey_id,
    hotkey_text, modifier_bits, modifiers_from_flags,
};
use global_hotkey::hotkey::{Code, HotKey};
use vstd::prelude::*;

verus! {

/// Hotkey box of the settings window, in client coordinates (edges included).
pub const BOX_LEFT: i32 = 24;

pub const BOX_TOP: i32 = 52;

pub const BOX_RIGHT: i32 = 296;

pub const BOX_BOTTOM: i32 = 92;

/// Virtual-key code of Escape.
pub const VK_ESCAPE: u32 = 0x1B;

/// Key code for a virtual-key code the settings window can record.
pub open spec fn vk_code(vk: u32) -> Option<Code> {
    match vk {
        0x70 => Some(Code::F1),
        0x71 => Some(Code::F2),
        0x72 => Some(Code::F3),
        0x73 => Some(Code::F4),
        0x74 => Some(Code::F5),
        0x75 => Some(Code::F6),
        0x76 => Some(Code::F7),
        0x77 => Some(Code::F8),
        0x78 => Some(Code::F9),
        0x79 => Some(Code::F10),
        0x7A => Some(Code::F11),
        0x7B => Some(Code::F12),
        0x41 => Some(Code::KeyA),
        0x42 => Some(Code::KeyB),
        0x43 => Some(Code::KeyC),
        0x44 => Some(Code::KeyD),
        0x45 => Some(Code::KeyE),
        0x46 => Some(Code::KeyF),
        0x47 => Some(Code::KeyG),
        0x48 => Some(Code::KeyH),
        0x49 => Some(Code::KeyI),
        0x4A => Some(Code::KeyJ),
        0x4B => Some(Code::KeyK),
        0x4C => Some(Code::KeyL),
        0x4D => Some(Code::KeyM),
        0x4E => Some(Code::KeyN),
        0x4F => Some(Code::KeyO),
        0x50 => Some(Code::KeyP),
        0x51 => Some(Code::KeyQ),
        0x52 => Some(Code::KeyR),
        0x53 => Some(Code::KeyS),
        0x54 => Some(Code::KeyT),
        0x55 => Some(Code::KeyU),
        0x56 => Some(Code::KeyV),
        0x57 => Some(Code::KeyW),
        0x58 => Some(Code::KeyX),
        0x59 => Some(Code::KeyY),
        0x5A => Some(Code::KeyZ),
        0x30 => Some(Code::Digit0),
        0x31 => Some(Code::Digit1),
        0x32 => Some(Code::Digit2),
        0x33 => Some(Code::Digit3),
        0x34 => Some(Code::Digit4),
        0x35 => Some(Code::Digit5),
        0x36 => Some(Code::Digit6),
        0x37 => Some(Code::Digit7),
        0x38 => Some(Code::Digit8),
        0x39 => Some(Code::Digit9),
        0x20 => Some(Code::Space),
        0x2C => Some(Code::PrintScreen),
        0x2D => Some(Code::Insert),
        0x2E => Some(Code::Delete),
        0x24 => Some(Code::Home),
        0x23 => Some(Code::End),
        0x21 => Some(Code::PageUp),
        0x22 => Some(Code::PageDown),
        _ => None,
    }
}

/// Key code for a virtual-key code: function keys, letters, digits, space
/// and the navigation keys; `None` for any other key.
pub fn vk_to_code(vk: u32) -> (r: Option<Code>)
    ensures
        r == vk_code(vk),
{
    match vk {
        0x70 => Some(Code::F1),
        0x71 => Some(Code::F2),
        0x72 => Some(Code::F3),
        0x73 => Some(Code::F4),
        0x74 => Some(Code::F5),
        0x75 => Some(Code::F6),
        0x76 => Some(Code::F7),
        0x77 => Some(Code::F8),
        0x78 => Some(Code::F9),
        0x79 => Some(Code::F10),
        0x7A => Some(Code::F11),
        0x7B => Some(Code::F12),
        0x41 => Some(Code::KeyA),
        0x42 => Some(Code::KeyB),
        0x43 => Some(Code::KeyC),
        0x44 => Some(Code::KeyD),
        0x45 => Some(Code::KeyE),
        0x46 => Some(Code::KeyF),
        0x47 => Some(Code::KeyG),
        0x48 => Some(Code::KeyH),
        0x49 => Some(Code::KeyI),
        0x4A => Some(Code::KeyJ),
        0x4B => Some(Code::KeyK),
        0x4C => Some(Code::KeyL),
        0x4D => Some(Code::KeyM),
        0x4E => Some(Code::KeyN),
        0x4F => Some(Code::KeyO),
        0x50 => Some(Code::KeyP),
        0x51 => Some(Code::KeyQ),
        0x52 => Some(Code::KeyR),
        0x53 => Some(Code::KeyS),
        0x54 => Some(Code::KeyT),
        0x55 => Some(Code::KeyU),
        0x56 => Some(Code::KeyV),
        0x57 => Some(Code::KeyW),
        0x58 => Some(Code::KeyX),
        0x59 => Some(Code::KeyY),
        0x5A => Some(Code::KeyZ),
        0x30 => Some(Code::Digit0),
        0x31 => Some(Code::Digit1),
        0x32 => Some(Code::Digit2),
        0x33 => Some(Code::Digit3),
        0x34 => Some(Code::Digit4),
        0x35 => Some(Code::Digit5),
        0x36 => Some(Code::Digit6),
        0x37 => Some(Code::Digit7),
        0x38 => Some(Code::Digit8),
        0x39 => Some(Code::Digit9),
        0x20 => Some(Code::Space),
        0x2C => Some(Code::PrintScreen),
        0x2D => Some(Code::Insert),
        0x2E => Some(Code::Delete),
        0x24 => Some(Code::Home),
        0x23 => Some(Code::End),
        0x21 => Some(Code::PageUp),
        0x22 => Some(Code::PageDown),
        _ => None,
    }
}

/// Every key the settings window can record has a label of its own.
pub proof fn lemma_recorded_keys_have_labels(vk: u32)
    ensures
        vk_code(vk) matches Some(c) ==> code_label(c) != "?",
{
    reveal_strlit("?");
}

/// A letter or digit key is recorded as that key: the label of its key code
/// is the single character the virtual-key code stands for in ASCII.
pub proof fn lemma_letter_and_digit_keys(vk: u32)
    requires
        0x41 <= vk <= 0x5A || 0x30 <= vk <= 0x39,
    ensures
        vk_code(vk) is Some,
        code_label(vk_code(vk)->0)@.len() == 1,
        code_label(vk_code(vk)->0)@[0] as int == vk,
{
        reveal_strlit("A");
        reveal_strlit("B");
        reveal_strlit("C");
        reveal_strlit("D");
        reveal_strlit("E");
        reveal_strlit("F");
        reveal_strlit("G");
        reveal_strlit("H");
        reveal_strlit("I");
        reveal_strlit("J");
        reveal_strlit("K");
        reveal_strlit("L");
        reveal_strlit("M");
        reveal_strlit("N");
        reveal_strlit("O");
        reveal_strlit("P");
        reveal_strlit("Q");
        reveal_strlit("R");
        reveal_strlit("S");
        reveal_strlit("T");
        reveal_strlit("U");
        reveal_strlit("V");
        reveal_strlit("W");
        reveal_strlit("X");
        reveal_strlit("Y");
        reveal_strlit("Z");
        reveal_strlit("0");
        reveal_strlit("1");
        reveal_strlit("2");
        reveal_strlit("3");
        reveal_strlit("4");
        reveal_strlit("5");
        reveal_strlit("6");
        reveal_strlit("7");
        reveal_strlit("8");
        reveal_strlit("9");
}

/// Function key `F<n>` (virtual-key code `0x6F + n`, n from 1 to 12) is
/// recorded as `F<n>`: its label is `F` followed by the decimal digits of `n`.
pub proof fn lemma_function_keys(vk: u32)
    requires
        0x70 <= vk <= 0x7B,
    ensures
        vk_code(vk) is Some,
        code_label(vk_code(vk)->0)@[0] == 'F',
        vk <= 0x78 ==> {
            &&& code_label(vk_code(vk)->0)@.len() == 2
            &&& code_label(vk_code(vk)->0)@[1] as int == '0' as int + (vk - 0x6F)
        },
        vk >= 0x79 ==> {
            &&& code_label(vk_code(vk)->0)@.len() == 3
            &&& code_label(vk_code(vk)->0)@[1] == '1'
            &&& code_label(vk_code(vk)->0)@[2] as int == '0' as int + (vk - 0x6F - 10)
        },
{
    reveal_strlit("F1");
    reveal_strlit("F2");
    reveal_strlit("F3");
    reveal_strlit("F4");
    reveal_strlit("F5");
    reveal_strlit("F6");
    reveal_strlit("F7");
    reveal_strlit("F8");
    reveal_strlit("F9");
    reveal_strlit("F10");
    reveal_strlit("F11");
    reveal_strlit("F12");
}

/// Two different keys are never recorded as the same key code.
pub proof fn lemma_recorded_keys_distinct(a: u32, b: u32)
    requires
        vk_code(a) is Some,
        vk_code(a) == vk_code(b),
    ensures
        a == b,
{
}

/// Keys that do nothing while a hotkey is being recorded: the modifiers on
/// their own, Enter, Tab, Backspace and the lock keys. The key code is read
/// in its low 16 bits.
pub open spec fn is_ignored_key(vk16: u16) -> bool {
    vk16 == 0x10u16 || vk16 == 0x11u16 || vk16 == 0x12u16 || vk16 == 0xA0u16 || vk16 == 0xA1u16
        || vk16 == 0xA2u16 || vk16 == 0xA3u16 || vk16 == 0xA4u16 || vk16 == 0xA5u16 || vk16 == 0x0Du16
        || vk16 == 0x09u16 || vk16 == 0x08u16 || vk16 == 0x14u16 || vk16 == 0x90u16 || vk16 == 0x91u16
}

/// Whether `(x, y)` lies in the hotkey box.
pub open spec fn in_hotkey_box(x: int, y: int) -> bool {
    BOX_LEFT <= x <= BOX_RIGHT && BOX_TOP <= y <= BOX_BOTTOM
}

/// Side effects a settings window handler asks for.
#[derive(Clone, Copy, Debug, PartialEq, Eq, Structural)]
pub struct SettingsEffects {
    /// Repaint the window.
    pub repaint: bool,
    /// Close the settings window (`PostQuitMessage`).
    pub quit: bool,
}

/// `h` is the hotkey `code` with exactly the modifier bits `held`, numbered
/// as `HotKey::new` numbers it.
pub open spec fn is_recorded_hotkey(h: HotKey, code: Code, held: u32) -> bool {
    &&& h.key == code
    &&& modifier_bits(h.mods) == held
    &&& h.id == hotkey_id(held, code)
}

/// What a rebind of `before` to `code` with the modifier bits `held` leaves
/// in `after`: either the new hotkey, enabled, after the old one was
/// unregistered and the new one registered; or, when the system refused the
/// new hotkey, the old hotkey as it was, registered again.
pub open spec fn rebound(before: HotkeyManager, after: HotkeyManager, code: Code, held: u32) -> bool {
    let unregistered = before.requests().push(HotkeyRequest::Unregister(before.current()));
    ||| {
        &&& after.enabled()
        &&& is_recorded_hotkey(after.current(), code, held)
        &&& after.requests() == unregistered.push(HotkeyRequest::Register(after.current()))
    }
    ||| {
        &&& after.current() == before.current()
        &&& after.enabled() == before.enabled()
        &&& exists|h: HotKey|
            #[trigger] is_recorded_hotkey(h, code, held) && after.requests() == unregistered.push(
                HotkeyRequest::Register(h),
            ).push(HotkeyRequest::Register(before.current()))
    }
}

/// Whether the settings window is waiting for a new hotkey.
pub struct HotkeyRecorder {
    recording: bool,
}

impl HotkeyRecorder {
    /// Whether a key press is being waited for.
    pub closed spec fn is_recording(self) -> bool {
        self.recording
    }

    /// Not recording.
    pub fn new() -> (r: Self)
        ensures
            !r.is_recording(),
    {
        HotkeyRecorder { recording: false }
    }

    /// Whether a key press is being waited for.
    pub fn recording(&self) -> (b: bool)
        ensures
            b == self.is_recording(),
    {
        self.recording
    }

    /// Left click at `(x, y)`: a click in the hotkey box starts recording and
    /// pauses the current hotkey, so that pressing it is recorded instead.
    pub fn on_click(&mut self, hk: &mut HotkeyManager, x: i32, y: i32) -> (e: SettingsEffects)
        ensures
            final(hk).current() == old(hk).current(),
            final(hk).enabled() == old(hk).enabled(),
            if in_hotkey_box(x as int, y as int) && !old(self).is_recording() {
                &&& final(self).is_recording()
                &&& e == (SettingsEffects { repaint: true, quit: false })
                &&& final(hk).requests() == old(hk).requests().push(
                    HotkeyRequest::Unregister(old(hk).current()),
                )
            } else {
                &&& final(self).is_recording() == old(self).is_recording()
                &&& e == (SettingsEffects { repaint: false, quit: false })
                &&& final(hk).requests() == old(hk).requests()
            },
    {
        let in_box = x >= BOX_LEFT && x <= BOX_RIGHT && y >= BOX_TOP && y <= BOX_BOTTOM;
        if in_box && !self.recording {
            self.recording = true;
            hk.pause();
            return SettingsEffects { repaint: true, quit: false };
        }
        SettingsEffects { repaint: false, quit: false }
    }

    /// Key pressed (`wparam` of the key message) with Ctrl, Shift and Alt as
    /// given. While recording: Escape disables the hotkey, a key that can be
    /// recorded becomes the new hotkey together with the held modifiers
    /// (the old one stays when the system refuses it), ignored keys and
    /// other keys change nothing. Otherwise Escape closes the window.
    pub fn on_key_down(
        &mut self,
        hk: &mut HotkeyManager,
        wparam: usize,
        ctrl: bool,
        shift: bool,
        alt: bool,
    ) -> (e: SettingsEffects)
        ensures
            ({
                let vk = wparam as u32;
                if old(self).is_recording() {
                    if is_ignored_key(vk as u16) {
                        &&& final(self).is_recording()
                        &&& final(hk).current() == old(hk).current()
                        &&& final(hk).enabled() == old(hk).enabled()
                        &&& final(hk).requests() == old(hk).requests()
                        &&& e == SettingsEffects { repaint: false, quit: false }
                    } else if vk == VK_ESCAPE {
                        &&& !final(self).is_recording()
                        &&& final(hk).current() == old(hk).current()
                        &&& !final(hk).enabled()
                        &&& final(hk).requests() == old(hk).requests().push(
                            HotkeyRequest::Unregister(old(hk).current()),
                        )
                        &&& e == SettingsEffects { repaint: true, quit: false }
                    } else {
                        match vk_code(vk) {
                            Some(code) => {
                                &&& !final(self).is_recording()
                                &&& e == SettingsEffects { repaint: true, quit: false }
                                &&& rebound(
                                    *old(hk),
                                    *final(hk),
                                    code,
                                    held_modifier_bits(ctrl, shift, alt),
                                )
                            },
                            None => {
                                &&& final(self).is_recording()
                                &&& final(hk).current() == old(hk).current()
                                &&& final(hk).enabled() == old(hk).enabled()
                                &&& final(hk).requests() == old(hk).requests()
                                &&& e == SettingsEffects { repaint: false, quit: false }
                            },
                        }
                    }
                } else {
                    &&& !final(self).is_recording()
                    &&& final(hk).current() == old(hk).current()
                    &&& final(hk).enabled() == old(hk).enabled()
                    &&& final(hk).requests() == old(hk).requests()
                    &&& e == SettingsEffects {
                        repaint: false,
                        quit: wparam as u16 == VK_ESCAPE as u16,
                    }
                }
            }),
    {
        if self.recording {
            let vk = wparam as u32;
            let vk16 = vk as u16;
            if vk16 == 0x10 || vk16 == 0x11 || vk16 == 0x12 || vk16 == 0xA0 || vk16 == 0xA1 || vk16
                == 0xA2 || vk16 == 0xA3 || vk16 == 0xA4 || vk16 == 0xA5 || vk16 == 0x0D || vk16 == 0x09
                || vk16 == 0x08 || vk16 == 0x14 || vk16 == 0x90 || vk16 == 0x91 {
                return SettingsEffects { repaint: false, quit: false };
            }
            if vk == VK_ESCAPE {
                self.recording = false;
                hk.disable();
                return SettingsEffects { repaint: true, quit: false };
            }
            if let Some(code) = vk_to_code(vk) {
                let mods = modifiers_from_flags(ctrl, shift, alt);
                let ghost held = held_modifier_bits(ctrl, shift, alt);
                assert(held & 0x2000 == 0u32) by (bit_vector)
                    requires
                        held == 0 || held == 8 || held == 0x200 || held == 1 || held == 0x208
                            || held == 9 || held == 0x201 || held == 0x209,
                ;
                assert(crate::hotkeys::normalized_modifier_bits(held) == held);
                let ghost before = *hk;
                let r = hk.rebind(mods, code);
                proof {
                    if r is Err {
                        let h = choose|h: HotKey|
                            #![trigger crate::hotkeys::is_new_hotkey(h, mods, code)]
                            crate::hotkeys::is_new_hotkey(h, mods, code) && hk.requests()
                                == before.requests().push(
                                HotkeyRequest::Unregister(before.current()),
                            ).push(HotkeyRequest::Register(h)).push(
                                HotkeyRequest::Register(before.current()),
                            );
                        assert(is_recorded_hotkey(h, code, held));
                    }
                }
                self.recording = false;
                return SettingsEffects { repaint: true, quit: false };
            }
            return SettingsEffects { repaint: false, quit: false };
        }
        SettingsEffects { repaint: false, quit: wparam as u16 == VK_ESCAPE as u16 }
    }

    /// Window closed: a recording in progress is cancelled and the hotkey
    /// registered again; the window then closes.
    pub fn on_close(&mut self, hk: &mut HotkeyManager) -> (e: SettingsEffects)
        ensures
            !final(self).is_recording(),
            final(hk).current() == old(hk).current(),
            final(hk).enabled() == old(hk).enabled(),
            final(hk).requests() == (if old(self).is_recording() {
                old(hk).requests().push(HotkeyRequest::Register(old(hk).current()))
            } else {
                old(hk).requests()
            }),
            e == (SettingsEffects { repaint: false, quit: true }),
    {
        if self.recording {
            hk.resume();
            self.recording = false;
        }
        SettingsEffects { repaint: false, quit: true }
    }

    /// Quit chosen in the tray menu: the hotkey is registered again if a
    /// recording had paused it.
    pub fn on_tray_quit(&self, hk: &mut HotkeyManager)
        ensures
            final(hk).current() == old(hk).current(),
            final(hk).enabled() == old(hk).enabled(),
            final(hk).requests() == (if self.is_recording() {
                old(hk).requests().push(HotkeyRequest::Register(old(hk).current()))
            } else {
                old(hk).requests()
            }),
    {
        if self.recording {
            hk.resume();
        }
    }

    /// Whether the settings loop should look for capture hotkey presses.
    pub fn listens_for_hotkey(&self, hk: &HotkeyManager) -> (b: bool)
        ensures
            b == (!self.is_recording() && hk.enabled()),
    {
        !self.recording && hk.is_active()
    }

    /// Text in the hotkey box.
    pub fn key_text(&self, hk: &HotkeyManager) -> (s: String)
        ensures
            s@ == (if self.is_recording() {
                "Press keys..."@
            } else if !hk.enabled() {
                "None"@
            } else {
                hotkey_text(modifier_bits(hk.current().mods), hk.current().key)
            }),
    {
        if self.recording {
            "Press keys...".to_owned()
        } else if !hk.is_active() {
            "None".to_owned()
        } else {
            hotkey_display(hk.hotkey())
        }
    }

    /// Hint under the hotkey box.
    pub fn hint_text(&self) -> (s: &'static str)
        ensures
            s == (if self.is_recording() {
                "ESC to cancel"
            } else {
                "Click to change  |  ESC to close"
            }),
    {
        if self.recording {
            "ESC to cancel"
        } else {
            "Click to change  |  ESC to close"
        }
    }
}

} // verus!
