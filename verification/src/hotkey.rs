//! Detection of the hotkey chord from the stream of key events.

use crate::config::{key_code, uppercased, vk_code_from_string, HotkeyConfig};
use vstd::prelude::*;

verus! {

/// Virtual-key codes of the three modifiers and of their left and right
/// keys.
pub const VK_SHIFT: u32 = 0x10;

pub const VK_CONTROL: u32 = 0x11;

pub const VK_MENU: u32 = 0x12;

pub const VK_LSHIFT: u32 = 0xA0;

pub const VK_RSHIFT: u32 = 0xA1;

pub const VK_LCONTROL: u32 = 0xA2;

pub const VK_RCONTROL: u32 = 0xA3;

pub const VK_LMENU: u32 = 0xA4;

pub const VK_RMENU: u32 = 0xA5;

/// Whether the code is that of a Ctrl key.
pub open spec fn is_ctrl(vk: u32) -> bool {
    vk == VK_CONTROL || vk == VK_LCONTROL || vk == VK_RCONTROL
}

/// Whether the code is that of an Alt key.
pub open spec fn is_alt(vk: u32) -> bool {
    vk == VK_MENU || vk == VK_LMENU || vk == VK_RMENU
}

/// Whether the code is that of a Shift key.
pub open spec fn is_shift(vk: u32) -> bool {
    vk == VK_SHIFT || vk == VK_LSHIFT || vk == VK_RSHIFT
}

/// What can be observed of a detector.
pub struct DetectorView {
    /// The modifiers that the chord requires.
    pub ctrl: bool,
    pub alt: bool,
    pub shift: bool,
    /// The name of the key as configured.
    pub key: Seq<char>,
    /// The virtual-key code of the key.
    pub target_vk: u32,
    /// The modifiers that are held.
    pub ctrl_pressed: bool,
    pub alt_pressed: bool,
    pub shift_pressed: bool,
}

impl DetectorView {
    /// The held modifiers are exactly the required ones.
    pub open spec fn modifiers_match(&self) -> bool {
        self.ctrl_pressed == self.ctrl && self.alt_pressed == self.alt && self.shift_pressed
            == self.shift
    }

    /// Whether a key event completes the chord: the key is the target and
    /// no modifier, it goes down, and the modifiers match.
    pub open spec fn fires(&self, vk: u32, is_down: bool) -> bool {
        !is_ctrl(vk) && !is_alt(vk) && !is_shift(vk) && vk == self.target_vk && is_down
            && self.modifiers_match()
    }

    /// The state after a key event: a modifier key sets its flag, any other
    /// key changes nothing.
    pub open spec fn after_key(&self, vk: u32, is_down: bool) -> DetectorView {
        if is_ctrl(vk) {
            DetectorView { ctrl_pressed: is_down, ..*self }
        } else if is_alt(vk) {
            DetectorView { alt_pressed: is_down, ..*self }
        } else if is_shift(vk) {
            DetectorView { shift_pressed: is_down, ..*self }
        } else {
            *self
        }
    }
}

/// A detector for `config` with the key code `vk` and no modifier held.
pub open spec fn detector_for(config: HotkeyConfig, vk: u32) -> DetectorView {
    DetectorView {
        ctrl: config.ctrl,
        alt: config.alt,
        shift: config.shift,
        key: config.key@,
        target_vk: vk,
        ctrl_pressed: false,
        alt_pressed: false,
        shift_pressed: false,
    }
}

/// Follows the modifier keys and recognises the configured chord.
pub struct HotkeyDetector {
    config: HotkeyConfig,
    target_vk: u32,
    ctrl_pressed: bool,
    alt_pressed: bool,
    shift_pressed: bool,
}

impl View for HotkeyDetector {
    type V = DetectorView;

    closed spec fn view(&self) -> DetectorView {
        DetectorView {
            ctrl: self.config.ctrl,
            alt: self.config.alt,
            shift: self.config.shift,
            key: self.config.key@,
            target_vk: self.target_vk,
            ctrl_pressed: self.ctrl_pressed,
            alt_pressed: self.alt_pressed,
            shift_pressed: self.shift_pressed,
        }
    }
}

impl HotkeyDetector {
    /// A detector for the chord, or nothing where the key's name is not
    /// known.
    pub fn new(config: HotkeyConfig) -> (detector: Option<HotkeyDetector>)
        ensures
            detector.is_some() <==> key_code(uppercased(config.key@)).is_some(),
            detector.is_some() ==> detector.unwrap()@ == detector_for(
                config,
                key_code(uppercased(config.key@)).unwrap(),
            ),
    {
        match vk_code_from_string(config.key.as_str()) {
            Some(target_vk) => Some(
                HotkeyDetector {
                    config,
                    target_vk,
                    ctrl_pressed: false,
                    alt_pressed: false,
                    shift_pressed: false,
                },
            ),
            None => None,
        }
    }

    /// Takes one key event and says whether it completes the chord.
    pub fn handle_key(&mut self, vk_code: u32, is_down: bool) -> (fired: bool)
        ensures
            fired == old(self)@.fires(vk_code, is_down),
            final(self)@ == old(self)@.after_key(vk_code, is_down),
    {
        if vk_code == VK_CONTROL || vk_code == VK_LCONTROL || vk_code == VK_RCONTROL {
            self.ctrl_pressed = is_down;
        } else if vk_code == VK_MENU || vk_code == VK_LMENU || vk_code == VK_RMENU {
            self.alt_pressed = is_down;
        } else if vk_code == VK_SHIFT || vk_code == VK_LSHIFT || vk_code == VK_RSHIFT {
            self.shift_pressed = is_down;
        } else if vk_code == self.target_vk && is_down {
            return self.is_hotkey_pressed();
        }
        false
    }

    /// Replaces the chord and forgets the held modifiers. Where the new
    /// key's name is not known, nothing changes and nothing is returned.
    pub fn update_config(&mut self, new_config: HotkeyConfig) -> (updated: Option<()>)
        ensures
            updated.is_some() <==> key_code(uppercased(new_config.key@)).is_some(),
            updated.is_some() ==> final(self)@ == detector_for(
                new_config,
                key_code(uppercased(new_config.key@)).unwrap(),
            ),
            updated.is_none() ==> final(self)@ == old(self)@,
    {
        match vk_code_from_string(new_config.key.as_str()) {
            Some(target_vk) => {
                self.config = new_config;
                self.target_vk = target_vk;
                self.ctrl_pressed = false;
                self.alt_pressed = false;
                self.shift_pressed = false;
                Some(())
            },
            None => None,
        }
    }

    /// Whether the held modifiers are exactly the required ones.
    pub fn is_hotkey_pressed(&self) -> (pressed: bool)
        ensures
            pressed == self@.modifiers_match(),
    {
        self.ctrl_pressed == self.config.ctrl && self.alt_pressed == self.config.alt
            && self.shift_pressed == self.config.shift
    }

    /// The chord as configured.
    pub fn config(&self) -> (config: &HotkeyConfig)
        ensures
            config.ctrl == self@.ctrl,
            config.alt == self@.alt,
            config.shift == self@.shift,
            config.key@ == self@.key,
    {
        &self.config
    }

    /// The virtual-key code of the chord's key.
    pub fn target_vk(&self) -> (vk: u32)
        ensures
            vk == self@.target_vk,
    {
        self.target_vk
    }

    /// Whether a Ctrl key is held.
    pub fn ctrl_pressed(&self) -> (pressed: bool)
        ensures
            pressed == self@.ctrl_pressed,
    {
        self.ctrl_pressed
    }

    /// Whether an Alt key is held.
    pub fn alt_pressed(&self) -> (pressed: bool)
        ensures
            pressed == self@.alt_pressed,
    {
        self.alt_pressed
    }

    /// Whether a Shift key is held.
    pub fn shift_pressed(&self) -> (pressed: bool)
        ensures
            pressed == self@.shift_pressed,
    {
        self.shift_pressed
    }
}

/// A chord fires on the press of its key and on nothing else: never on a
/// release, never on another key, and never while a modifier that it does
/// not require is held or one that it requires is not.
pub proof fn lemma_fires_only_on_chord(d: DetectorView, vk: u32, is_down: bool)
    requires
        d.fires(vk, is_down),
    ensures
        is_down,
        vk == d.target_vk,
        d.ctrl_pressed == d.ctrl,
        d.alt_pressed == d.alt,
        d.shift_pressed == d.shift,
        d.after_key(vk, is_down) == d,
{
}

} // verus!
