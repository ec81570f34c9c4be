//! What the application does with a configuration that was read anew, and
//! what it tells the HUD of the barrier.

use crate::config::{BarrierConfig, Config, HotkeyConfig};
use crate::hud::BarrierStateConfig;
use vstd::prelude::*;
use vstd::string::*;

verus! {

/// Reloads within this time after startup are skipped, in milliseconds.
pub const STARTUP_GRACE_MS: u64 = 2000;

/// Whether two hotkey chords are the same.
pub open spec fn same_hotkey(a: HotkeyConfig, b: HotkeyConfig) -> bool {
    a.ctrl == b.ctrl && a.alt == b.alt && a.shift == b.shift && a.key@ == b.key@
}

/// What is to be done with a configuration that was read anew.
#[derive(Clone, Copy, Debug, PartialEq, Eq, Structural)]
pub struct ReloadPlan {
    /// The hotkey detector takes the new chord. This does not wait for the
    /// grace period.
    pub update_hotkey: bool,
    /// The rest of the configuration is left as it is: the application has
    /// only just started.
    pub skip: bool,
    /// The debug flag changes, and this is its new value.
    pub debug_switched: Option<bool>,
}

/// The plan for taking `new` over from `current`, `elapsed_ms` after
/// startup.
pub open spec fn reload_plan(current: Config, new: Config, elapsed_ms: u64) -> ReloadPlan {
    let skip = elapsed_ms < STARTUP_GRACE_MS;
    ReloadPlan {
        update_hotkey: !same_hotkey(current.hotkey, new.hotkey),
        skip,
        debug_switched: if !skip && current.debug != new.debug {
            Some(new.debug)
        } else {
            None
        },
    }
}

/// Whether two hotkey chords are the same.
pub fn hotkeys_equal(a: &HotkeyConfig, b: &HotkeyConfig) -> (same: bool)
    ensures
        same == same_hotkey(*a, *b),
{
    a.ctrl == b.ctrl && a.alt == b.alt && a.shift == b.shift && a.key == b.key
}

/// Plans the reload of a configuration: the hotkey is taken over at once
/// where it differs, everything else only after the startup grace period.
pub fn plan_reload(current: &Config, new: &Config, elapsed_ms: u64) -> (plan: ReloadPlan)
    ensures
        plan == reload_plan(*current, *new, elapsed_ms),
{
    let skip = elapsed_ms < STARTUP_GRACE_MS;
    let debug_switched = if !skip && current.debug != new.debug {
        Some(new.debug)
    } else {
        None
    };
    ReloadPlan { update_hotkey: !hotkeys_equal(&current.hotkey, &new.hotkey), skip, debug_switched }
}

/// What the HUD is told of the barrier: whether it is on, and its
/// geometry and push factor as configured.
pub fn hud_report(enabled: bool, barrier: &BarrierConfig) -> (report: BarrierStateConfig)
    ensures
        report.enabled == enabled,
        report.x == barrier.x,
        report.y == barrier.y,
        report.width == barrier.width,
        report.height == barrier.height,
        report.buffer_zone == barrier.buffer_zone,
        report.push_factor == barrier.push_factor,
{
    BarrierStateConfig {
        enabled,
        x: barrier.x,
        y: barrier.y,
        width: barrier.width,
        height: barrier.height,
        buffer_zone: barrier.buffer_zone,
        push_factor: barrier.push_factor,
    }
}

} // verus!
