//! The configuration values that the application hands to the barrier, the
//! hotkey detector and the HUD, and the names of the keys a hotkey may use.

use crate::barrier::{text_of, MouseBarrierConfig};
use vstd::prelude::*;
use vstd::string::*;

verus! {

/// The whole configuration.
#[derive(Debug, Clone)]
pub struct Config {
    pub hotkey: HotkeyConfig,
    pub barrier: BarrierConfig,
    pub hud: HudConfig,
    pub debug: bool,
}

/// The chord that toggles the barrier: the modifiers that must be held, all
/// others released, and the name of the key.
#[derive(Debug, Clone, PartialEq)]
pub struct HotkeyConfig {
    pub ctrl: bool,
    pub alt: bool,
    pub shift: bool,
    pub key: String,
}

/// The barrier in bottom-left-origin form, with its presentation.
#[derive(Debug, Clone)]
pub struct BarrierConfig {
    pub x: i32,
    pub y: i32,
    pub width: i32,
    pub height: i32,
    pub buffer_zone: i32,
    pub push_factor: i32,
    pub overlay_color: OverlayColor,
    /// 0 is transparent, 255 opaque.
    pub overlay_alpha: u8,
    pub audio_feedback: AudioFeedbackConfig,
}

/// The sounds for touching the buffer zone and for entering the barrier.
#[derive(Debug, Clone)]
pub struct AudioFeedbackConfig {
    pub on_barrier_hit: AudioOption,
    pub on_barrier_entry: AudioOption,
}

/// A sound: none, or the path of an audio file.
#[derive(Debug, Clone)]
pub enum AudioOption {
    Silent,
    File(String),
}

/// The colour of the overlays by its components.
#[derive(Debug, Clone)]
pub struct OverlayColor {
    pub r: u8,
    pub g: u8,
    pub b: u8,
}

/// Whether and where the HUD is shown.
#[derive(Debug, Clone)]
pub struct HudConfig {
    pub enabled: bool,
    pub position: HudPosition,
    pub background_alpha: u8,
}

/// The corner of the screen in which the HUD sits.
#[derive(Debug, Clone, Copy, PartialEq, Eq, Structural)]
pub enum HudPosition {
    TopLeft,
    TopRight,
    BottomLeft,
    BottomRight,
}

impl AudioOption {
    /// The path of the file, if there is one.
    pub open spec fn path(&self) -> Option<Seq<char>> {
        match self {
            AudioOption::Silent => None,
            AudioOption::File(p) => Some(p@),
        }
    }

    /// The path of the file to play, if there is one.
    pub fn to_path(&self) -> (p: Option<String>)
        ensures
            text_of(p) == self.path(),
    {
        match self {
            AudioOption::Silent => None,
            AudioOption::File(path) => Some(path.clone()),
        }
    }
}

impl BarrierConfig {
    /// This configuration as the barrier takes it: the colour as a triple,
    /// each sound as an optional path.
    pub fn to_barrier_config(&self) -> (c: MouseBarrierConfig)
        ensures
            c.x == self.x,
            c.y == self.y,
            c.width == self.width,
            c.height == self.height,
            c.buffer_zone == self.buffer_zone,
            c.push_factor == self.push_factor,
            c.overlay_color == (self.overlay_color.r, self.overlay_color.g, self.overlay_color.b),
            c.overlay_alpha == self.overlay_alpha,
            text_of(c.on_barrier_hit_sound) == self.audio_feedback.on_barrier_hit.path(),
            text_of(c.on_barrier_entry_sound) == self.audio_feedback.on_barrier_entry.path(),
    {
        MouseBarrierConfig {
            x: self.x,
            y: self.y,
            width: self.width,
            height: self.height,
            buffer_zone: self.buffer_zone,
            push_factor: self.push_factor,
            overlay_color: (self.overlay_color.r, self.overlay_color.g, self.overlay_color.b),
            overlay_alpha: self.overlay_alpha,
            on_barrier_hit_sound: self.audio_feedback.on_barrier_hit.to_path(),
            on_barrier_entry_sound: self.audio_feedback.on_barrier_entry.to_path(),
        }
    }
}

impl Default for Config {
    /// The configuration that is used where the user gives none: Ctrl+F12
    /// toggles a barrier of 200 by 40 pixels in the bottom-left corner of a
    /// screen 1080 pixels high.
    fn default() -> (c: Config)
        ensures
            c.hotkey.ctrl && !c.hotkey.alt && !c.hotkey.shift,
            c.hotkey.key@ == "F12"@,
            c.barrier.x == 0 && c.barrier.y == 1080,
            c.barrier.width == 200 && c.barrier.height == 40,
            c.barrier.buffer_zone == 20 && c.barrier.push_factor == 50,
            c.barrier.overlay_color.r == 255 && c.barrier.overlay_color.g == 0
                && c.barrier.overlay_color.b == 0,
            c.barrier.overlay_alpha == 200,
            c.barrier.audio_feedback.on_barrier_hit.path().is_none(),
            c.barrier.audio_feedback.on_barrier_entry.path().is_none(),
            c.hud.enabled && c.hud.position == HudPosition::TopLeft,
            c.hud.background_alpha == 200,
            !c.debug,
    {
        Config {
            hotkey: HotkeyConfig { ctrl: true, alt: false, shift: false, key: "F12".to_owned() },
            barrier: BarrierConfig {
                x: 0,
                y: 1080,
                width: 200,
                height: 40,
                buffer_zone: 20,
                push_factor: 50,
                overlay_color: OverlayColor { r: 255, g: 0, b: 0 },
                overlay_alpha: 200,
                audio_feedback: AudioFeedbackConfig {
                    on_barrier_hit: AudioOption::Silent,
                    on_barrier_entry: AudioOption::Silent,
                },
            },
            hud: HudConfig { enabled: true, position: HudPosition::TopLeft, background_alpha: 200 },
            debug: false,
        }
    }
}

/// The text that names a hotkey: `Ctrl+`, `Alt+` and `Shift+` for the
/// modifiers it requires, in this order, then the key.
pub open spec fn hotkey_text(ctrl: bool, alt: bool, shift: bool, key: Seq<char>) -> Seq<char> {
    (if ctrl {
        "Ctrl+"@
    } else {
        Seq::empty()
    }) + (if alt {
        "Alt+"@
    } else {
        Seq::empty()
    }) + (if shift {
        "Shift+"@
    } else {
        Seq::empty()
    }) + key
}

/// Names a hotkey for the log, as in `Ctrl+Shift+F12`.
pub fn hotkey_label(config: &HotkeyConfig) -> (label: String)
    ensures
        label@ == hotkey_text(config.ctrl, config.alt, config.shift, config.key@),
{
    let mut label = String::new();
    if config.ctrl {
        label.append("Ctrl+");
    }
    if config.alt {
        label.append("Alt+");
    }
    if config.shift {
        label.append("Shift+");
    }
    label.append(config.key.as_str());
    assert(label@ =~= hotkey_text(config.ctrl, config.alt, config.shift, config.key@));
    label
}

/// Virtual-key code of F1; F2 to F12 follow it.
pub const VK_F1: u32 = 0x70;

/// Virtual-key code of F12.
pub const VK_F12: u32 = 0x7B;

/// The virtual-key code that an upper-case key name stands for: `F1` to
/// `F12`, a single letter `A` to `Z`, or a single digit. Letters and digits
/// have their character codes.
pub open spec fn key_code(name: Seq<char>) -> Option<u32> {
    if name.len() == 1 && (0x41 <= name[0] as u32 <= 0x5A || 0x30 <= name[0] as u32 <= 0x39) {
        Some(name[0] as u32)
    } else if name.len() == 2 && name[0] == 'F' && 0x31 <= name[1] as u32 <= 0x39 {
        Some((0x70 + (name[1] as u32 - 0x31)) as u32)
    } else if name.len() == 3 && name[0] == 'F' && name[1] == '1' && 0x30 <= name[2] as u32
        <= 0x32 {
        Some((0x79 + (name[2] as u32 - 0x30)) as u32)
    } else {
        None
    }
}

/// What `str::to_uppercase` of the standard library returns for a text: its
/// upper-case equivalent by the Unicode case mapping.
pub uninterp spec fn uppercased(s: Seq<char>) -> Seq<char>;

/// Upper-cases a key name with `str::to_uppercase` of the standard library.
/// The contract gives the result its name and claims nothing else of it.
#[verifier::external_body]
fn uppercase(key: &str) -> (upper: String)
    ensures
        upper@ == uppercased(key@),
{
    key.to_uppercase()
}

/// Looks up the virtual-key code of a key name that is already in upper
/// case.
pub fn vk_code_of_name(name: &str) -> (code: Option<u32>)
    ensures
        code == key_code(name@),
{
    let n: usize = name.unicode_len();
    if n == 1 {
        let c: u32 = name.get_char(0) as u32;
        if (0x41 <= c && c <= 0x5A) || (0x30 <= c && c <= 0x39) {
            Some(c)
        } else {
            None
        }
    } else if n == 2 {
        let f: char = name.get_char(0);
        let d: u32 = name.get_char(1) as u32;
        if f == 'F' && 0x31 <= d && d <= 0x39 {
            Some(VK_F1 + (d - 0x31))
        } else {
            None
        }
    } else if n == 3 {
        let f: char = name.get_char(0);
        let one: char = name.get_char(1);
        let d: u32 = name.get_char(2) as u32;
        if f == 'F' && one == '1' && 0x30 <= d && d <= 0x32 {
            Some(0x79 + (d - 0x30))
        } else {
            None
        }
    } else {
        None
    }
}

/// The virtual-key code for a key name in any case: `F1` to `F12`, `A` to
/// `Z` and `0` to `9` are known, nothing else.
pub fn vk_code_from_string(key: &str) -> (code: Option<u32>)
    ensures
        code == key_code(uppercased(key@)),
{
    let upper = uppercase(key);
    vk_code_of_name(upper.as_str())
}

} // verus!
