use global_hotkey::hotkey::{Code, HotKey, Modifiers};
use global_hotkey::{GlobalHotKeyEvent, GlobalHotKeyManager, HotKeyState};
use vstd::prelude::*;

verus! {

#[verifier::external_type_specification]
pub struct ExCode(Code);

#[verifier::external_type_specification]
#[verifier::external_body]
pub struct ExModifiers(Modifiers);

#[verifier::external_type_specification]
pub struct ExHotKey(HotKey);

#[verifier::external_type_specification]
pub struct ExHotKeyState(HotKeyState);

#[verifier::external_type_specification]
pub struct ExGlobalHotKeyEvent(GlobalHotKeyEvent);

#[verifier::external_type_specification]
#[verifier::external_body]
pub struct ExGlobalHotKeyManager(GlobalHotKeyManager);

#[verifier::external_type_specification]
#[verifier::external_body]
pub struct ExHotkeyError(global_hotkey::Error);

/// Short label shown for a key code; `"?"` for keys the app does not name.
pub open spec fn code_label(code: Code) -> &'static str {
    match code {
        Code::F1 => "F1",
        Code::F2 => "F2",
        Code::F3 => "F3",
        Code::F4 => "F4",
        Code::F5 => "F5",
        Code::F6 => "F6",
        Code::F7 => "F7",
        Code::F8 => "F8",
        Code::F9 => "F9",
        Code::F10 => "F10",
        Code::F11 => "F11",
        Code::F12 => "F12",
        Code::KeyA => "A",
        Code::KeyB => "B",
        Code::KeyC => "C",
        Code::KeyD => "D",
        Code::KeyE => "E",
        Code::KeyF => "F",
        Code::KeyG => "G",
        Code::KeyH => "H",
        Code::KeyI => "I",
        Code::KeyJ => "J",
        Code::KeyK => "K",
        Code::KeyL => "L",
        Code::KeyM => "M",
        Code::KeyN => "N",
        Code::KeyO => "O",
        Code::KeyP => "P",
        Code::KeyQ => "Q",
        Code::KeyR => "R",
        Code::KeyS => "S",
        Code::KeyT => "T",
        Code::KeyU => "U",
        Code::KeyV => "V",
        Code::KeyW => "W",
        Code::KeyX => "X",
        Code::KeyY => "Y",
        Code::KeyZ => "Z",
        Code::Digit0 => "0",
        Code::Digit1 => "1",
        Code::Digit2 => "2",
        Code::Digit3 => "3",
        Code::Digit4 => "4",
        Code::Digit5 => "5",
        Code::Digit6 => "6",
        Code::Digit7 => "7",
        Code::Digit8 => "8",
        Code::Digit9 => "9",
        Code::Space => "Space",
        Code::PrintScreen => "PrtSc",
        Code::Insert => "Insert",
        Code::Delete => "Delete",
        Code::Home => "Home",
        Code::End => "End",
        Code::PageUp => "PgUp",
        Code::PageDown => "PgDn",
        _ => "?",
    }
}

/// Short label of a key code, as shown in the settings window.
pub fn code_name(code: Code) -> (r: &'static str)
    ensures
        r == code_label(code),
{
    match code {
        Code::F1 => "F1",
        Code::F2 => "F2",
        Code::F3 => "F3",
        Code::F4 => "F4",
        Code::F5 => "F5",
        Code::F6 => "F6",
        Code::F7 => "F7",
        Code::F8 => "F8",
        Code::F9 => "F9",
        Code::F10 => "F10",
        Code::F11 => "F11",
        Code::F12 => "F12",
        Code::KeyA => "A",
        Code::KeyB => "B",
        Code::KeyC => "C",
        Code::KeyD => "D",
        Code::KeyE => "E",
        Code::KeyF => "F",
        Code::KeyG => "G",
        Code::KeyH => "H",
        Code::KeyI => "I",
        Code::KeyJ => "J",
        Code::KeyK => "K",
        Code::KeyL => "L",
        Code::KeyM => "M",
        Code::KeyN => "N",
        Code::KeyO => "O",
        Code::KeyP => "P",
        Code::KeyQ => "Q",
        Code::KeyR => "R",
        Code::KeyS => "S",
        Code::KeyT => "T",
        Code::KeyU => "U",
        Code::KeyV => "V",
        Code::KeyW => "W",
        Code::KeyX => "X",
        Code::KeyY => "Y",
        Code::KeyZ => "Z",
        Code::Digit0 => "0",
        Code::Digit1 => "1",
        Code::Digit2 => "2",
        Code::Digit3 => "3",
        Code::Digit4 => "4",
        Code::Digit5 => "5",
        Code::Digit6 => "6",
        Code::Digit7 => "7",
        Code::Digit8 => "8",
        Code::Digit9 => "9",
        Code::Space => "Space",
        Code::PrintScreen => "PrtSc",
        Code::Insert => "Insert",
        Code::Delete => "Delete",
        Code::Home => "Home",
        Code::End => "End",
        Code::PageUp => "PgUp",
        Code::PageDown => "PgDn",
        _ => "?",
    }
}

/// Bit of `Modifiers::ALT`.
pub const ALT_BIT: u32 = 0x1;

/// Bit of `Modifiers::CONTROL`.
pub const CONTROL_BIT: u32 = 0x8;

/// Bit of `Modifiers::META`.
pub const META_BIT: u32 = 0x40;

/// Bit of `Modifiers::SHIFT`.
pub const SHIFT_BIT: u32 = 0x200;

/// Bit of the legacy `Modifiers::SUPER`, which `HotKey::new` turns into META.
pub const SUPER_BIT: u32 = 0x2000;

/// The bit set of a `Modifiers` value, as `Modifiers::bits` returns it.
pub uninterp spec fn modifier_bits(m: Modifiers) -> u32;

/// The number of a key code, as `code as u32` gives it.
pub uninterp spec fn code_number(code: Code) -> u32;

/// `Modifiers::bits`.
#[verifier::external_body]
fn modifiers_bits(m: &Modifiers) -> (r: u32)
    ensures
        r == modifier_bits(*m),
{
    m.bits()
}

/// `Modifiers::from_bits_retain`: a modifier set holding exactly `bits`.
#[verifier::external_body]
fn modifiers_from_bits(bits: u32) -> (m: Modifiers)
    ensures
        modifier_bits(m) == bits,
{
    Modifiers::from_bits_retain(bits)
}

/// Modifier bits for the Ctrl, Shift and Alt keys held down.
pub open spec fn held_modifier_bits(ctrl: bool, shift: bool, alt: bool) -> u32 {
    ((if ctrl {
        CONTROL_BIT
    } else {
        0
    }) + (if shift {
        SHIFT_BIT
    } else {
        0
    }) + (if alt {
        ALT_BIT
    } else {
        0
    })) as u32
}

/// Modifiers for the Ctrl, Shift and Alt keys held down; `None` when none is.
pub fn modifiers_from_flags(ctrl: bool, shift: bool, alt: bool) -> (r: Option<Modifiers>)
    ensures
        r is None <==> !ctrl && !shift && !alt,
        r matches Some(m) ==> modifier_bits(m) == held_modifier_bits(ctrl, shift, alt),
{
    let mut bits: u32 = 0;
    if ctrl {
        bits = bits + CONTROL_BIT;
    }
    if shift {
        bits = bits + SHIFT_BIT;
    }
    if alt {
        bits = bits + ALT_BIT;
    }
    if bits == 0 {
        None
    } else {
        Some(modifiers_from_bits(bits))
    }
}

/// Modifier bits a hotkey keeps: the given ones, with the legacy SUPER bit
/// replaced by META.
pub open spec fn normalized_modifier_bits(bits: u32) -> u32 {
    if bits & SUPER_BIT == SUPER_BIT {
        (bits & !SUPER_BIT) | META_BIT
    } else {
        bits
    }
}

/// Modifier bits of an optional modifier set; none means no modifier.
pub open spec fn optional_modifier_bits(mods: Option<Modifiers>) -> u32 {
    match mods {
        Some(m) => modifier_bits(m),
        None => 0,
    }
}

/// Id that `HotKey::new` gives a hotkey: the modifier bits above the key number.
pub open spec fn hotkey_id(bits: u32, code: Code) -> u32 {
    (bits << 16u32) | code_number(code)
}

/// The hotkey that `HotKey::new(mods, key)` builds.
pub open spec fn is_new_hotkey(h: HotKey, mods: Option<Modifiers>, key: Code) -> bool {
    &&& h.key == key
    &&& modifier_bits(h.mods) == normalized_modifier_bits(optional_modifier_bits(mods))
    &&& h.id == hotkey_id(modifier_bits(h.mods), key)
}

/// `HotKey::new`: keeps the key, replaces SUPER by META among the modifiers
/// and numbers the hotkey from its modifier bits and key number.
#[verifier::external_body]
fn hotkey_new(mods: Option<Modifiers>, key: Code) -> (h: HotKey)
    ensures
        h.key == key,
        modifier_bits(h.mods) == normalized_modifier_bits(optional_modifier_bits(mods)),
        h.id == (modifier_bits(h.mods) << 16u32) | code_number(key),
{
    HotKey::new(mods, key)
}

/// Text of a hotkey: the held modifiers in the order Ctrl, Alt, Shift, Win,
/// each followed by `" + "`, then the key's label.
pub open spec fn hotkey_text(bits: u32, code: Code) -> Seq<char> {
    (if bits & CONTROL_BIT == CONTROL_BIT {
        "Ctrl + "@
    } else {
        Seq::empty()
    }) + (if bits & ALT_BIT == ALT_BIT {
        "Alt + "@
    } else {
        Seq::empty()
    }) + (if bits & SHIFT_BIT == SHIFT_BIT {
        "Shift + "@
    } else {
        Seq::empty()
    }) + (if bits & META_BIT == META_BIT {
        "Win + "@
    } else {
        Seq::empty()
    }) + code_label(code)@
}

/// Text for a hotkey given by its modifier bits and key code.
pub fn hotkey_label(bits: u32, code: Code) -> (r: String)
    ensures
        r@ == hotkey_text(bits, code),
{
    let mut text = String::new();
    if bits & CONTROL_BIT == CONTROL_BIT {
        text.append("Ctrl + ");
    }
    if bits & ALT_BIT == ALT_BIT {
        text.append("Alt + ");
    }
    if bits & SHIFT_BIT == SHIFT_BIT {
        text.append("Shift + ");
    }
    if bits & META_BIT == META_BIT {
        text.append("Win + ");
    }
    text.append(code_name(code));
    text
}

/// Text shown for a hotkey, such as `"Shift + F2"`.
pub fn hotkey_display(hk: &HotKey) -> (r: String)
    ensures
        r@ == hotkey_text(modifier_bits(hk.mods), hk.key),
{
    let bits = modifiers_bits(&hk.mods);
    hotkey_label(bits, hk.key)
}

/// Whether `s` starts with `prefix`.
pub open spec fn starts_with(s: Seq<char>, prefix: Seq<char>) -> bool {
    prefix.len() <= s.len() && s.subrange(0, prefix.len() as int) == prefix
}

/// `GlobalHotKeyManager::new`: connects to the system's hotkey service.
/// Whether that succeeds depends on the system, so nothing is stated.
#[verifier::external_body]
fn manager_new() -> (r: Result<GlobalHotKeyManager, global_hotkey::Error>) {
    GlobalHotKeyManager::new()
}

/// `GlobalHotKeyManager::register`: asks the system to deliver `hk`.
/// Whether the system accepts it is not stated.
#[verifier::external_body]
fn manager_register(m: &GlobalHotKeyManager, hk: HotKey) -> (r: Result<(), global_hotkey::Error>) {
    m.register(hk)
}

/// `GlobalHotKeyManager::unregister`: asks the system to stop delivering
/// `hk`. Whether the system agrees is not stated.
#[verifier::external_body]
fn manager_unregister(m: &GlobalHotKeyManager, hk: HotKey) -> (r: Result<(), global_hotkey::Error>) {
    m.unregister(hk)
}

/// The `Display` text of a `global_hotkey::Error`; its content is not stated.
#[verifier::external_body]
fn error_text(e: &global_hotkey::Error) -> String {
    format!("{e}")
}

/// `prefix` followed by the text of `e`.
fn error_message(prefix: &str, e: &global_hotkey::Error) -> (r: String)
    ensures
        starts_with(r@, prefix@),
{
    let mut msg = prefix.to_owned();
    let detail = error_text(e);
    msg.append(detail.as_str());
    assert(msg@.subrange(0, prefix@.len() as int) =~= prefix@);
    msg
}

/// What a poll of the hotkey channel found.
#[derive(Clone, Copy, Debug, PartialEq, Eq, Structural)]
pub enum HotkeyEvent {
    Capture,
    NoEvent,
}

/// A request this library hands to the system's hotkey service.
pub enum HotkeyRequest {
    /// `GlobalHotKeyManager::register` with this hotkey.
    Register(HotKey),
    /// `GlobalHotKeyManager::unregister` with this hotkey.
    Unregister(HotKey),
}

/// The capture hotkey and its registration with the system.
pub struct HotkeyManager {
    manager: GlobalHotKeyManager,
    capture_hotkey: HotKey,
    active: bool,
    /// Every request handed to the system so far, oldest first.
    requests: Ghost<Seq<HotkeyRequest>>,
}

/// The hotkey the app starts with: Shift+F2.
pub open spec fn is_default_hotkey(h: HotKey) -> bool {
    &&& h.key == Code::F2
    &&& modifier_bits(h.mods) == SHIFT_BIT
    &&& h.id == (SHIFT_BIT << 16u32) | code_number(Code::F2)
}

impl HotkeyManager {
    /// The hotkey that triggers a capture.
    pub closed spec fn current(self) -> HotKey {
        self.capture_hotkey
    }

    /// Whether the capture hotkey is enabled.
    pub closed spec fn enabled(self) -> bool {
        self.active
    }

    /// The requests handed to the system's hotkey service so far, oldest
    /// first; whether the system granted them is not known.
    pub closed spec fn requests(self) -> Seq<HotkeyRequest> {
        self.requests@
    }

    /// Asks the system to deliver `hk`, and records the request.
    fn request_register(&mut self, hk: HotKey)
        ensures
            final(self).current() == old(self).current(),
            final(self).enabled() == old(self).enabled(),
            final(self).requests() == old(self).requests().push(HotkeyRequest::Register(hk)),
    {
        let _ = manager_register(&self.manager, hk);
        proof {
            self.requests@ = self.requests@.push(HotkeyRequest::Register(hk));
        }
    }

    /// Asks the system to stop delivering `hk`, and records the request.
    fn request_unregister(&mut self, hk: HotKey)
        ensures
            final(self).current() == old(self).current(),
            final(self).enabled() == old(self).enabled(),
            final(self).requests() == old(self).requests().push(HotkeyRequest::Unregister(hk)),
    {
        let _ = manager_unregister(&self.manager, hk);
        proof {
            self.requests@ = self.requests@.push(HotkeyRequest::Unregister(hk));
        }
    }

    /// Connects to the system and registers Shift+F2 as the capture hotkey.
    pub fn new() -> (r: Result<Self, String>)
        ensures
            r matches Ok(m) ==> {
                &&& is_default_hotkey(m.current())
                &&& m.enabled()
                &&& m.requests() == seq![HotkeyRequest::Register(m.current())]
            },
            r matches Err(msg) ==> starts_with(msg@, "Hotkey manager: "@) || starts_with(
                msg@,
                "Register hotkey failed: "@,
            ),
    {
        let manager = match manager_new() {
            Ok(m) => m,
            Err(e) => {
                return Err(error_message("Hotkey manager: ", &e));
            },
        };
        let capture_hotkey = hotkey_new(Some(modifiers_from_bits(SHIFT_BIT)), Code::F2);
        assert(normalized_modifier_bits(SHIFT_BIT) == SHIFT_BIT) by (bit_vector);
        match manager_register(&manager, capture_hotkey) {
            Ok(_) => {},
            Err(e) => {
                return Err(error_message("Register hotkey failed: ", &e));
            },
        }
        let requests: Ghost<Seq<HotkeyRequest>> = Ghost(Seq::empty().push(HotkeyRequest::Register(capture_hotkey)));
        Ok(HotkeyManager { manager, capture_hotkey, active: true, requests })
    }

    /// Replaces the capture hotkey by `modifiers` + `code`: the old hotkey is
    /// unregistered and the new one registered. When the system refuses the
    /// new hotkey, the old one is registered again and kept.
    pub fn rebind(&mut self, modifiers: Option<Modifiers>, code: Code) -> (r: Result<(), String>)
        ensures
            r is Ok ==> {
                &&& is_new_hotkey(final(self).current(), modifiers, code)
                &&& final(self).enabled()
                &&& final(self).requests() == old(self).requests().push(
                    HotkeyRequest::Unregister(old(self).current()),
                ).push(HotkeyRequest::Register(final(self).current()))
            },
            r matches Err(msg) ==> {
                &&& final(self).current() == old(self).current()
                &&& final(self).enabled() == old(self).enabled()
                &&& starts_with(msg@, "Register hotkey failed: "@)
                &&& exists|h: HotKey|
                    #![trigger is_new_hotkey(h, modifiers, code)]
                    is_new_hotkey(h, modifiers, code) && final(self).requests() == old(
                        self,
                    ).requests().push(HotkeyRequest::Unregister(old(self).current())).push(
                        HotkeyRequest::Register(h),
                    ).push(HotkeyRequest::Register(old(self).current()))
            },
    {
        let old_hk = self.capture_hotkey;
        self.request_unregister(old_hk);
        let new_hk = hotkey_new(modifiers, code);
        let registered = manager_register(&self.manager, new_hk);
        proof {
            self.requests@ = self.requests@.push(HotkeyRequest::Register(new_hk));
        }
        match registered {
            Ok(_) => {},
            Err(e) => {
                self.request_register(old_hk);
                assert(is_new_hotkey(new_hk, modifiers, code));
                return Err(error_message("Register hotkey failed: ", &e));
            },
        }
        self.capture_hotkey = new_hk;
        self.active = true;
        Ok(())
    }

    /// Unregisters the capture hotkey and marks it disabled.
    pub fn disable(&mut self)
        ensures
            final(self).current() == old(self).current(),
            !final(self).enabled(),
            final(self).requests() == old(self).requests().push(
                HotkeyRequest::Unregister(old(self).current()),
            ),
    {
        let hk = self.capture_hotkey;
        self.request_unregister(hk);
        self.active = false;
    }

    /// Whether the capture hotkey is enabled.
    pub fn is_active(&self) -> (r: bool)
        ensures
            r == self.enabled(),
    {
        self.active
    }

    /// Unregisters the capture hotkey for a while, keeping it as it is:
    /// the system is asked to stop delivering the current hotkey.
    pub fn pause(&mut self)
        ensures
            final(self).current() == old(self).current(),
            final(self).enabled() == old(self).enabled(),
            final(self).requests() == old(self).requests().push(
                HotkeyRequest::Unregister(old(self).current()),
            ),
    {
        let hk = self.capture_hotkey;
        self.request_unregister(hk);
    }

    /// Registers the capture hotkey again after a pause: the system is asked
    /// to deliver the current hotkey.
    pub fn resume(&mut self)
        ensures
            final(self).current() == old(self).current(),
            final(self).enabled() == old(self).enabled(),
            final(self).requests() == old(self).requests().push(
                HotkeyRequest::Register(old(self).current()),
            ),
    {
        let hk = self.capture_hotkey;
        self.request_register(hk);
    }

    /// The capture hotkey.
    pub fn hotkey(&self) -> (r: &HotKey)
        ensures
            *r == self.current(),
    {
        &self.capture_hotkey
    }

    /// Whether a hotkey event is a press of the capture hotkey.
    pub fn is_capture_event(&self, event: &GlobalHotKeyEvent) -> (r: bool)
        ensures
            r == (event.state == HotKeyState::Pressed && event.id == self.current().id),
    {
        match event.state {
            HotKeyState::Pressed => event.id == self.capture_hotkey.id,
            HotKeyState::Released => false,
        }
    }
}

} // verus!
