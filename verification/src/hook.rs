//! The system-wide key tap used for the hotkey, and the reading of the raw
//! values that the input hooks and the button monitor receive.

use crate::barrier::HookError;
use vstd::prelude::*;

verus! {

/// Message code of a pointer motion.
pub const WM_MOUSEMOVE: usize = 0x0200;

/// Message code of a key going down.
pub const WM_KEYDOWN: usize = 0x0100;

/// Message code of a key going down while Alt is held.
pub const WM_SYSKEYDOWN: usize = 0x0104;

/// Virtual-key code of the pass-through button, the middle mouse button.
pub const VK_MBUTTON: i32 = 0x04;

/// Time between two samples of the pass-through button, in milliseconds.
pub const MONITOR_INTERVAL_MS: u64 = 5;

/// Whether a pointer-hook event is a motion that the barrier handles: the
/// hook code is not negative and the message is a pointer motion.
pub fn is_motion_event(code: i32, message: usize) -> (motion: bool)
    ensures
        motion == (code >= 0 && message == WM_MOUSEMOVE),
{
    code >= 0 && message == WM_MOUSEMOVE
}

/// Whether a key-hook message reports a key going down.
pub fn is_key_down_message(message: usize) -> (down: bool)
    ensures
        down == (message == WM_KEYDOWN || message == WM_SYSKEYDOWN),
{
    message == WM_KEYDOWN || message == WM_SYSKEYDOWN
}

/// Whether an asynchronous key state says that the button is held: its
/// highest bit is set.
pub fn button_pressed(key_state: i16) -> (pressed: bool)
    ensures
        pressed == (key_state < 0),
{
    key_state < 0
}

/// The key tap: installed or not. The callback that receives the keys stays
/// with the host.
pub struct KeyboardHook {
    installed: bool,
}

impl KeyboardHook {
    /// Whether the tap is in place.
    pub closed spec fn installed(&self) -> bool {
        self.installed
    }

    /// A tap that is not installed.
    pub fn new() -> (hook: KeyboardHook)
        ensures
            !hook.installed(),
    {
        KeyboardHook { installed: false }
    }

    /// Whether the tap is in place.
    pub fn is_installed(&self) -> (installed: bool)
        ensures
            installed == self.installed(),
    {
        self.installed
    }

    /// Asks whether the host has to install the tap: not where it is in
    /// place already. The host reports the outcome with `complete_enable`.
    pub fn enable(&mut self) -> (install: bool)
        ensures
            install == !old(self).installed(),
            final(self).installed() == old(self).installed(),
    {
        !self.installed
    }

    /// Records what came of installing the tap: on success it counts as
    /// installed, on failure the system's code is returned as the error.
    pub fn complete_enable(&mut self, outcome: Result<(), u32>) -> (result: Result<(), HookError>)
        ensures
            outcome.is_ok() ==> result.is_ok() && final(self).installed(),
            outcome.is_err() ==> result == Err::<(), HookError>(
                HookError::SetKeyboardHook(outcome.unwrap_err()),
            ) && final(self).installed() == old(self).installed(),
    {
        match outcome {
            Ok(()) => {
                self.installed = true;
                Ok(())
            },
            Err(code) => Err(HookError::SetKeyboardHook(code)),
        }
    }

    /// Gives the tap up and says whether the host has to remove it: only
    /// where it was in place.
    pub fn disable(&mut self) -> (remove: bool)
        ensures
            remove == old(self).installed(),
            !final(self).installed(),
    {
        let remove = self.installed;
        self.installed = false;
        remove
    }

    /// Turns what came of removing the tap into the result of the
    /// operation.
    pub fn complete_disable(&self, outcome: Result<(), u32>) -> (result: Result<(), HookError>)
        ensures
            outcome.is_ok() ==> result.is_ok(),
            outcome.is_err() ==> result == Err::<(), HookError>(
                HookError::UnhookKeyboard(outcome.unwrap_err()),
            ),
    {
        match outcome {
            Ok(()) => Ok(()),
            Err(code) => Err(HookError::UnhookKeyboard(code)),
        }
    }
}

} // verus!
