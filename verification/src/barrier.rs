//! The barrier itself: the shared state that the motion callback reads, and
//! the state machine that switches interception on and off.
//!
//! Nothing here touches the operating system. Each transition returns the
//! actions that the host has to perform, in order, and the host reports back
//! what came of a hook installation and where the overlays could not be
//! shown.

use crate::geometry::{convert_origin, expand, grown, point_in_rect, region_of, Point, Rect};
use crate::metrics::ScreenMetrics;
use crate::overlay::{overlay_frames, overlay_regions, OverlayFrame, OverlayRegion};
use crate::push::{
    calculate_dynamic_push_factor, dynamic_push, lemma_pushed_position_outside, push_blocked,
    push_point_out_of_rect, pushed_position, saturated, speed_squared,
};
use crate::text::{append_digits, decimal_digits};
use crate::trajectory::{check_movement_path, heads_into, inside, path_stop, predicted_in_barrier};
use vstd::prelude::*;
use vstd::string::*;

verus! {

/// What the configuration collaborator hands over: the barrier in
/// bottom-left-origin form, and how it is shown and heard.
pub struct MouseBarrierConfig {
    pub x: i32,
    pub y: i32,
    pub width: i32,
    pub height: i32,
    pub buffer_zone: i32,
    pub push_factor: i32,
    pub overlay_color: (u8, u8, u8),
    pub overlay_alpha: u8,
    pub on_barrier_hit_sound: Option<String>,
    pub on_barrier_entry_sound: Option<String>,
}

/// Something that the host does on behalf of the barrier.
#[derive(Clone, Copy, Debug, PartialEq, Eq, Structural)]
pub enum Action {
    /// Remove every overlay window that is on screen.
    DestroyOverlays,
    /// Put one window on screen for each of the barrier's overlay regions,
    /// and report with `overlays_failed` where that cannot be done.
    ShowOverlays,
    /// Start sampling the pass-through button.
    StartMonitor,
    /// Stop sampling the pass-through button.
    StopMonitor,
    /// Install the pointer hook and report the outcome.
    InstallHook,
    /// Remove the pointer hook.
    UninstallHook,
}

/// The text of an optional string.
pub open spec fn text_of(s: Option<String>) -> Option<Seq<char>> {
    match s {
        Some(t) => Some(t@),
        None => None,
    }
}

/// The colour `0x00RRGGBB` made of three components.
pub open spec fn packed_color(r: u8, g: u8, b: u8) -> int {
    r * 0x1_0000 + g * 0x100 + b
}

/// Packs three colour components into `0x00RRGGBB`.
pub fn pack_color(r: u8, g: u8, b: u8) -> (color: u32)
    ensures
        color == packed_color(r, g, b),
        color <= 0xFF_FFFF,
{
    let rr: u32 = r as u32;
    let gg: u32 = g as u32;
    let bb: u32 = b as u32;
    assert((rr << 16) | (gg << 8) | bb == rr * 0x1_0000 + gg * 0x100 + bb) by (bit_vector)
        requires
            rr <= 0xFF,
            gg <= 0xFF,
            bb <= 0xFF,
    ;
    (rr << 16) | (gg << 8) | bb
}

/// Everything that can be observed of a barrier.
pub struct BarrierView {
    /// The protected rectangle in native coordinates.
    pub region: Rect,
    /// The margin by which the buffer zone exceeds the region.
    pub buffer_zone: i32,
    /// The base push magnitude in pixels.
    pub push_factor: i32,
    /// Whether the barrier is logically on.
    pub enabled: bool,
    pub overlay_color: u32,
    pub overlay_alpha: u8,
    pub hit_sound: Option<Seq<char>>,
    pub entry_sound: Option<Seq<char>>,
    pub metrics: ScreenMetrics,
    /// Whether the pointer hook is in place.
    pub hook_installed: bool,
    /// Whether the pass-through button is being sampled.
    pub monitoring: bool,
    /// The state of the pass-through button at the last sample.
    pub button_down: bool,
    /// A hook installation is waiting for the owning thread.
    pub install_requested: bool,
    /// A hook removal is waiting for the owning thread.
    pub uninstall_requested: bool,
    /// The overlays that are on screen.
    pub overlays: Seq<OverlayFrame>,
    /// The previous motion sample.
    pub last_pos: Option<Point>,
    /// Whether the previous sample was inside the buffer zone.
    pub last_in_buffer: bool,
    /// Whether the previous sample was inside the region.
    pub has_entered: bool,
}

impl BarrierView {
    /// The buffer zone: the region grown by the margin.
    pub open spec fn zone(&self) -> Rect {
        grown(self.region, self.buffer_zone as int)
    }

    /// The overlays that belong to the current geometry.
    pub open spec fn fresh_overlays(&self) -> Seq<OverlayFrame> {
        overlay_frames(self.region, self.buffer_zone as int, self.metrics)
    }
}

/// The frames of a list of overlay regions.
pub open spec fn frames_of(regions: Seq<OverlayRegion>) -> Seq<OverlayFrame> {
    Seq::new(regions.len(), |i: int| regions[i]@)
}

/// The state that a configuration describes, with everything else as
/// `base` has it.
pub open spec fn configured(base: BarrierView, config: MouseBarrierConfig) -> BarrierView {
    BarrierView {
        region: Rect {
            left: config.x as i64,
            top: (config.y - config.height) as i64,
            right: (config.x + config.width) as i64,
            bottom: config.y as i64,
        },
        buffer_zone: config.buffer_zone,
        push_factor: config.push_factor,
        overlay_color: packed_color(
            config.overlay_color.0,
            config.overlay_color.1,
            config.overlay_color.2,
        ) as u32,
        overlay_alpha: config.overlay_alpha,
        hit_sound: text_of(config.on_barrier_hit_sound),
        entry_sound: text_of(config.on_barrier_entry_sound),
        ..base
    }
}

/// A barrier that has never been enabled and has seen no motion.
pub open spec fn initial_view(config: MouseBarrierConfig, metrics: ScreenMetrics) -> BarrierView {
    configured(
        BarrierView {
            region: Rect { left: 0, top: 0, right: 0, bottom: 0 },
            buffer_zone: 0,
            push_factor: 0,
            enabled: false,
            overlay_color: 0,
            overlay_alpha: 0,
            hit_sound: None,
            entry_sound: None,
            metrics,
            hook_installed: false,
            monitoring: false,
            button_down: false,
            install_requested: false,
            uninstall_requested: false,
            overlays: Seq::empty(),
            last_pos: None,
            last_in_buffer: false,
            has_entered: false,
        },
        config,
    )
}

/// The sequence holding `a` where `cond` holds, nothing otherwise.
pub open spec fn when(cond: bool, a: Action) -> Seq<Action> {
    if cond {
        seq![a]
    } else {
        Seq::empty()
    }
}

/// The state after `enable`: unchanged where the hook is in place, else
/// switched on, monitored, and with the overlays of the current geometry.
pub open spec fn after_enable(s: BarrierView) -> BarrierView {
    if s.hook_installed {
        s
    } else {
        BarrierView {
            enabled: true,
            monitoring: true,
            button_down: s.monitoring && s.button_down,
            overlays: s.fresh_overlays(),
            ..s
        }
    }
}

/// What the host does for `enable`: nothing where the hook is in place;
/// else it replaces the overlays, starts the monitor unless it is running,
/// and installs the hook.
pub open spec fn enable_actions(s: BarrierView) -> Seq<Action> {
    if s.hook_installed {
        Seq::empty()
    } else {
        when(s.overlays.len() > 0, Action::DestroyOverlays) + when(
            s.fresh_overlays().len() > 0,
            Action::ShowOverlays,
        ) + when(!s.monitoring, Action::StartMonitor) + seq![Action::InstallHook]
    }
}

/// The state after `disable`: switched off, unmonitored, without hook and
/// without overlays.
pub open spec fn after_disable(s: BarrierView) -> BarrierView {
    BarrierView {
        enabled: false,
        monitoring: false,
        button_down: false,
        hook_installed: false,
        overlays: Seq::empty(),
        ..s
    }
}

/// What the host does for `disable`: it stops the monitor, removes the hook
/// and destroys the overlays, each only where there is one.
pub open spec fn disable_actions(s: BarrierView) -> Seq<Action> {
    when(s.monitoring, Action::StopMonitor) + when(s.hook_installed, Action::UninstallHook) + when(
        s.overlays.len() > 0,
        Action::DestroyOverlays,
    )
}

/// The state after `update_barrier`: the new configuration, and with it new
/// overlays where the barrier is on.
pub open spec fn after_update(s: BarrierView, config: MouseBarrierConfig) -> BarrierView {
    let c = configured(s, config);
    if s.enabled {
        BarrierView { overlays: c.fresh_overlays(), ..c }
    } else {
        c
    }
}

/// What the host does for `update_barrier`: where the barrier is on, it
/// replaces the overlays.
pub open spec fn update_actions(s: BarrierView, config: MouseBarrierConfig) -> Seq<Action> {
    if s.enabled {
        when(s.overlays.len() > 0, Action::DestroyOverlays) + when(
            configured(s, config).fresh_overlays().len() > 0,
            Action::ShowOverlays,
        )
    } else {
        Seq::empty()
    }
}

/// The state after the pending hook requests were drained: both flags are
/// down, and the hook is gone where its removal was requested.
pub open spec fn after_requests(s: BarrierView) -> BarrierView {
    BarrierView {
        install_requested: false,
        uninstall_requested: false,
        hook_installed: s.hook_installed && !s.uninstall_requested,
        ..s
    }
}

/// What the host does for the pending hook requests: the removal first,
/// then the installation, each only where it changes anything.
pub open spec fn request_actions(s: BarrierView) -> Seq<Action> {
    when(s.uninstall_requested && s.hook_installed, Action::UninstallHook) + when(
        s.install_requested && !after_requests(s).hook_installed,
        Action::InstallHook,
    )
}

/// The state after a sample of the pass-through button: a press edge asks
/// for the hook's removal, a release edge for its installation where the
/// barrier is on. Without the monitor nothing changes.
pub open spec fn after_button(s: BarrierView, pressed: bool) -> BarrierView {
    if s.monitoring {
        BarrierView {
            button_down: pressed,
            uninstall_requested: s.uninstall_requested || (pressed && !s.button_down),
            install_requested: s.install_requested || (!pressed && s.button_down && s.enabled),
            ..s
        }
    } else {
        s
    }
}

/// Why a hook could not be installed or removed, with the system's error
/// code.
#[derive(Clone, Copy, Debug, PartialEq, Eq, Structural)]
pub enum HookError {
    SetMouseHook(u32),
    UnhookMouse(u32),
    SetKeyboardHook(u32),
    UnhookKeyboard(u32),
}

/// The push magnitude for a sample: scaled by the speed since the previous
/// sample, or the base factor where there is none.
pub open spec fn push_for(s: BarrierView, cur: Point) -> int {
    match s.last_pos {
        Some(last) => saturated(dynamic_push(s.push_factor as int, speed_squared(last, cur))),
        None => s.push_factor as int,
    }
}

/// Where a sample in or heading into the barrier is sent: out of the buffer
/// zone, past its nearest edge.
pub open spec fn pushed_out(s: BarrierView, cur: Point) -> Point {
    pushed_position(cur, s.zone(), push_for(s, cur), s.metrics)
}

/// The redirection that the previous sample calls for, before the current
/// one is looked at by itself: the stop of the trajectory guard, or else a
/// push where the motion heads into the barrier.
pub open spec fn early_redirect(s: BarrierView, cur: Point) -> Option<Point> {
    match s.last_pos {
        None => None,
        Some(last) => match path_stop(last, cur, s.region, s.zone()) {
            Some(stop) => Some(stop),
            None => if heads_into(last, cur, s.region) {
                Some(pushed_out(s, cur))
            } else {
                None
            },
        },
    }
}

/// Where the cursor is to be set for a sample, if anywhere.
pub open spec fn redirect_of(s: BarrierView, cur: Point) -> Option<Point> {
    if !s.enabled {
        None
    } else if early_redirect(s, cur).is_some() {
        early_redirect(s, cur)
    } else if inside(s.zone(), cur) {
        Some(pushed_out(s, cur))
    } else {
        None
    }
}

/// The sound for entering the region: due, with the barrier on, when the
/// sample is inside and the previous one was not, whether or not the sample
/// is redirected.
pub open spec fn entry_sound_of(s: BarrierView, cur: Point) -> Option<Seq<char>> {
    if s.enabled && inside(s.region, cur) && !s.has_entered {
        s.entry_sound
    } else {
        None
    }
}

/// The sound for touching the buffer zone: due, with the barrier on, when
/// the sample is inside and the previous one was not, whether or not the
/// sample is redirected.
pub open spec fn hit_sound_of(s: BarrierView, cur: Point) -> Option<Seq<char>> {
    if s.enabled && inside(s.zone(), cur) && !s.last_in_buffer {
        s.hit_sound
    } else {
        None
    }
}

/// The state after a sample: the sample is remembered in any case, and with
/// the barrier on the two edge detectors follow it.
pub open spec fn after_motion(s: BarrierView, cur: Point) -> BarrierView {
    if s.enabled {
        BarrierView {
            last_pos: Some(cur),
            has_entered: inside(s.region, cur),
            last_in_buffer: inside(s.zone(), cur),
            ..s
        }
    } else {
        BarrierView { last_pos: Some(cur), ..s }
    }
}

/// What the motion callback does with one sample.
pub struct MotionOutcome {
    /// Where to set the cursor; the event is swallowed exactly where this is
    /// given.
    pub redirect: Option<Point>,
    /// The sound to play for entering the region.
    pub entry_sound: Option<String>,
    /// The sound to play for touching the buffer zone.
    pub hit_sound: Option<String>,
}

/// A motion outcome with the sounds as texts.
pub struct MotionView {
    pub redirect: Option<Point>,
    pub entry_sound: Option<Seq<char>>,
    pub hit_sound: Option<Seq<char>>,
}

impl View for MotionOutcome {
    type V = MotionView;

    open spec fn view(&self) -> MotionView {
        MotionView {
            redirect: self.redirect,
            entry_sound: text_of(self.entry_sound),
            hit_sound: text_of(self.hit_sound),
        }
    }
}

/// The outcome that a sample has in a given state.
pub open spec fn outcome_of(s: BarrierView, cur: Point) -> MotionView {
    MotionView {
        redirect: redirect_of(s, cur),
        entry_sound: entry_sound_of(s, cur),
        hit_sound: hit_sound_of(s, cur),
    }
}

/// A copy of an optional sound.
fn copy_sound(sound: &Option<String>) -> (copy: Option<String>)
    ensures
        text_of(copy) == text_of(*sound),
{
    match sound {
        Some(path) => Some(path.clone()),
        None => None,
    }
}

/// The state once the host has reported a successful hook installation.
pub open spec fn hook_confirmed(s: BarrierView) -> BarrierView {
    BarrierView { hook_installed: true, ..s }
}

/// Enabling twice in a row installs the hook once: after an `enable` whose
/// installation succeeded, another `enable` changes nothing and asks the
/// host for nothing.
pub proof fn lemma_enable_twice(s: BarrierView)
    ensures
        after_enable(hook_confirmed(after_enable(s))) == hook_confirmed(after_enable(s)),
        enable_actions(hook_confirmed(after_enable(s))) == Seq::<Action>::empty(),
{
}

/// Disabling a barrier that is already off has no effect: the state stays
/// as it is and the host is asked for nothing.
pub proof fn lemma_disable_twice(s: BarrierView)
    ensures
        after_disable(after_disable(s)) == after_disable(s),
        disable_actions(after_disable(s)) == Seq::<Action>::empty(),
{
    assert(disable_actions(after_disable(s)) =~= Seq::<Action>::empty());
}

/// A `disable` takes back all that an `enable` did, so that enabling,
/// disabling and enabling again ends where the first `enable` ended, and
/// the overlays of the first round are destroyed before those of the second
/// are shown.
pub proof fn lemma_enable_disable_enable(s: BarrierView)
    requires
        !s.hook_installed,
    ensures
        after_disable(hook_confirmed(after_enable(s))) == after_disable(s),
        hook_confirmed(after_enable(after_disable(hook_confirmed(after_enable(s)))))
            == hook_confirmed(after_enable(after_disable(s))),
        after_enable(s).overlays.len() > 0 ==> disable_actions(
            hook_confirmed(after_enable(s)),
        ).last() == Action::DestroyOverlays,
{
}

/// Every motion sample is remembered, whatever the state of the barrier
/// and whatever is done with the sample, and the decision on a sample rests
/// on the one remembered before it.
pub proof fn lemma_sample_remembered(s: BarrierView, cur: Point, next: Point)
    ensures
        after_motion(s, cur).last_pos == Some(cur),
        early_redirect(after_motion(s, cur), next) == early_redirect(
            BarrierView { last_pos: Some(cur), ..s },
            next,
        ),
{
}

/// Where the overlays cannot be shown, the barrier is on all the same: after
/// an `enable` whose overlays failed and whose installation succeeded, the
/// barrier is enabled and hooked, no overlay is on screen, and a later
/// `disable` asks for none to be destroyed.
pub proof fn lemma_enable_survives_overlay_failure(s: BarrierView)
    requires
        !s.hook_installed,
    ensures
        ({
            let failed = BarrierView { overlays: Seq::empty(), ..after_enable(s) };
            let on = hook_confirmed(failed);
            &&& on.enabled
            &&& on.hook_installed
            &&& on.monitoring
            &&& on.overlays.len() == 0
            &&& disable_actions(on) == seq![Action::StopMonitor, Action::UninstallHook]
        }),
{
    let failed = BarrierView { overlays: Seq::empty(), ..after_enable(s) };
    let on = hook_confirmed(failed);
    assert(disable_actions(on) =~= seq![Action::StopMonitor, Action::UninstallHook]);
}

/// With the barrier off a motion sample is remembered and passed on:
/// nothing else changes, the cursor is not set and no sound is due.
pub proof fn lemma_motion_passes_when_off(s: BarrierView, cur: Point)
    requires
        !s.enabled,
    ensures
        after_motion(s, cur) == (BarrierView { last_pos: Some(cur), ..s }),
        outcome_of(s, cur) == (MotionView { redirect: None, entry_sound: None, hit_sound: None }),
{
}

/// With the barrier on, both edge detectors follow every sample: afterwards
/// they say whether that sample was in the region and in the buffer zone,
/// and each sound is due exactly on the entering edge, also on a sample
/// that the trajectory guard or the prediction redirects.
pub proof fn lemma_detectors_follow_every_sample(s: BarrierView, cur: Point)
    requires
        s.enabled,
    ensures
        after_motion(s, cur).has_entered == inside(s.region, cur),
        after_motion(s, cur).last_in_buffer == inside(s.zone(), cur),
        entry_sound_of(s, cur) == if inside(s.region, cur) && !s.has_entered {
            s.entry_sound
        } else {
            None
        },
        hit_sound_of(s, cur) == if inside(s.zone(), cur) && !s.last_in_buffer {
            s.hit_sound
        } else {
            None
        },
{
}

/// With the barrier on, a sample inside the buffer zone is always
/// redirected, and each sound is handed out on the entering edge only: a
/// second sample inside gives none.
pub proof fn lemma_motion_inside_zone(s: BarrierView, cur: Point, next: Point)
    requires
        s.enabled,
    ensures
        inside(s.zone(), cur) ==> redirect_of(s, cur).is_some(),
        inside(s.region, cur) ==> entry_sound_of(after_motion(s, cur), next).is_none(),
        inside(s.zone(), cur) ==> hit_sound_of(after_motion(s, cur), next).is_none(),
{
}

impl HookError {
    /// The system's error code.
    pub open spec fn code(&self) -> u32 {
        match self {
            HookError::SetMouseHook(c) => *c,
            HookError::UnhookMouse(c) => *c,
            HookError::SetKeyboardHook(c) => *c,
            HookError::UnhookKeyboard(c) => *c,
        }
    }

    /// What failed, in words.
    pub open spec fn what(&self) -> Seq<char> {
        match self {
            HookError::SetMouseHook(_) => "Failed to set mouse hook: "@,
            HookError::UnhookMouse(_) => "Failed to unhook mouse: "@,
            HookError::SetKeyboardHook(_) => "Failed to set keyboard hook: "@,
            HookError::UnhookKeyboard(_) => "Failed to unhook keyboard: "@,
        }
    }

    /// The error as a message: what failed, then the code in decimal.
    pub fn message(&self) -> (text: String)
        ensures
            text@ == self.what() + decimal_digits(self.code() as nat),
    {
        let mut text = String::new();
        let code: u32 = match self {
            HookError::SetMouseHook(c) => {
                text.append("Failed to set mouse hook: ");
                *c
            },
            HookError::UnhookMouse(c) => {
                text.append("Failed to unhook mouse: ");
                *c
            },
            HookError::SetKeyboardHook(c) => {
                text.append("Failed to set keyboard hook: ");
                *c
            },
            HookError::UnhookKeyboard(c) => {
                text.append("Failed to unhook keyboard: ");
                *c
            },
        };
        assert(text@ =~= self.what());
        append_digits(&mut text, code as u64);
        text
    }
}

/// Where hook space and cursor-set space coincide, a sample inside the
/// buffer zone that the previous sample does not redirect is sent to a
/// position outside the buffer zone, unless the push is not positive or the
/// screen leaves it no room.
pub proof fn lemma_redirect_leaves_zone(s: BarrierView, cur: Point)
    requires
        s.metrics.wf(),
        s.metrics.is_reference(),
        s.enabled,
        early_redirect(s, cur).is_none(),
        inside(s.zone(), cur),
        push_for(s, cur) > 0,
        !push_blocked(cur, s.zone(), push_for(s, cur), s.metrics),
    ensures
        redirect_of(s, cur).is_some(),
        !inside(s.zone(), redirect_of(s, cur).unwrap()),
{
    lemma_pushed_position_outside(cur, s.zone(), push_for(s, cur), s.metrics);
}

/// The barrier: geometry, presentation, enablement, pending hook requests
/// and the memory of the last motion sample.
pub struct MouseBarrier {
    region: Rect,
    buffer_zone: i32,
    push_factor: i32,
    enabled: bool,
    overlay_color: u32,
    overlay_alpha: u8,
    on_barrier_hit_sound: Option<String>,
    on_barrier_entry_sound: Option<String>,
    metrics: ScreenMetrics,
    hook_installed: bool,
    monitoring: bool,
    button_down: bool,
    install_requested: bool,
    uninstall_requested: bool,
    overlays: Vec<OverlayRegion>,
    last_pos: Option<Point>,
    last_in_buffer: bool,
    has_entered: bool,
}

impl View for MouseBarrier {
    type V = BarrierView;

    closed spec fn view(&self) -> BarrierView {
        BarrierView {
            region: self.region,
            buffer_zone: self.buffer_zone,
            push_factor: self.push_factor,
            enabled: self.enabled,
            overlay_color: self.overlay_color,
            overlay_alpha: self.overlay_alpha,
            hit_sound: text_of(self.on_barrier_hit_sound),
            entry_sound: text_of(self.on_barrier_entry_sound),
            metrics: self.metrics,
            hook_installed: self.hook_installed,
            monitoring: self.monitoring,
            button_down: self.button_down,
            install_requested: self.install_requested,
            uninstall_requested: self.uninstall_requested,
            overlays: frames_of(self.overlays@),
            last_pos: self.last_pos,
            last_in_buffer: self.last_in_buffer,
            has_entered: self.has_entered,
        }
    }
}

impl MouseBarrier {
    /// The region came from a 32-bit configuration, so its edges are small.
    #[verifier::type_invariant]
    spec fn inv(&self) -> bool {
        self.region.is_compact()
    }

    /// Builds the initial geometry from `config` and keeps the screen
    /// metrics. The barrier starts disabled, with no hook and no overlay.
    pub fn new(config: MouseBarrierConfig, metrics: ScreenMetrics) -> (barrier: MouseBarrier)
        ensures
            barrier@ == initial_view(config, metrics),
            barrier@.region.edges() == region_of(
                config.x as int,
                config.y as int,
                config.width as int,
                config.height as int,
            ),
    {
        let region = convert_origin(config.x, config.y, config.width, config.height);
        let color = pack_color(config.overlay_color.0, config.overlay_color.1, config.overlay_color.2);
        let barrier = MouseBarrier {
            region,
            buffer_zone: config.buffer_zone,
            push_factor: config.push_factor,
            enabled: false,
            overlay_color: color,
            overlay_alpha: config.overlay_alpha,
            on_barrier_hit_sound: config.on_barrier_hit_sound,
            on_barrier_entry_sound: config.on_barrier_entry_sound,
            metrics,
            hook_installed: false,
            monitoring: false,
            button_down: false,
            install_requested: false,
            uninstall_requested: false,
            overlays: Vec::new(),
            last_pos: None,
            last_in_buffer: false,
            has_entered: false,
        };
        assert(barrier@.overlays =~= Seq::<OverlayFrame>::empty());
        barrier
    }

    /// Whether the barrier is logically on.
    pub fn is_enabled(&self) -> (enabled: bool)
        ensures
            enabled == self@.enabled,
    {
        self.enabled
    }

    /// Whether the pointer hook is in place.
    pub fn is_hook_installed(&self) -> (installed: bool)
        ensures
            installed == self@.hook_installed,
    {
        self.hook_installed
    }

    /// The protected rectangle in native coordinates.
    pub fn region(&self) -> (region: Rect)
        ensures
            region == self@.region,
            region.is_compact(),
    {
        proof {
            use_type_invariant(self);
        }
        self.region
    }

    /// The buffer zone: the region grown by the margin.
    pub fn buffer_rect(&self) -> (zone: Rect)
        ensures
            zone == self@.zone(),
    {
        proof {
            use_type_invariant(self);
        }
        expand(&self.region, self.buffer_zone)
    }

    /// The overlays that are on screen, in the order top, bottom, left,
    /// right.
    pub fn overlays(&self) -> (regions: &Vec<OverlayRegion>)
        ensures
            frames_of(regions@) == self@.overlays,
    {
        &self.overlays
    }

    /// The margin by which the buffer zone exceeds the region.
    pub fn buffer_zone(&self) -> (margin: i32)
        ensures
            margin == self@.buffer_zone,
    {
        self.buffer_zone
    }

    /// The base push magnitude in pixels.
    pub fn push_factor(&self) -> (factor: i32)
        ensures
            factor == self@.push_factor,
    {
        self.push_factor
    }

    /// The screen metrics that the barrier was built with.
    pub fn metrics(&self) -> (metrics: ScreenMetrics)
        ensures
            metrics == self@.metrics,
    {
        self.metrics
    }

    /// The sound for touching the buffer zone.
    pub fn hit_sound(&self) -> (sound: &Option<String>)
        ensures
            text_of(*sound) == self@.hit_sound,
    {
        &self.on_barrier_hit_sound
    }

    /// The sound for entering the region.
    pub fn entry_sound(&self) -> (sound: &Option<String>)
        ensures
            text_of(*sound) == self@.entry_sound,
    {
        &self.on_barrier_entry_sound
    }

    /// The colour of the overlays as `0x00RRGGBB`.
    pub fn overlay_color(&self) -> (color: u32)
        ensures
            color == self@.overlay_color,
    {
        self.overlay_color
    }

    /// The opacity of the overlays, 255 being opaque.
    pub fn overlay_alpha(&self) -> (alpha: u8)
        ensures
            alpha == self@.overlay_alpha,
    {
        self.overlay_alpha
    }

    /// Replaces the overlay list by the overlays of the current geometry.
    fn refresh_overlays(&mut self)
        ensures
            final(self)@ == (BarrierView { overlays: old(self)@.fresh_overlays(), ..old(self)@ }),
    {
        proof {
            use_type_invariant(&*self);
        }
        let fresh = overlay_regions(&self.region, self.buffer_zone, &self.metrics);
        assert(frames_of(fresh@) =~= old(self)@.fresh_overlays());
        self.overlays = fresh;
    }

    /// Turns the barrier on. Where the pointer hook is already in place this
    /// does nothing. The host performs the actions in order and reports the
    /// installation with `complete_install`.
    pub fn enable(&mut self) -> (actions: Vec<Action>)
        ensures
            final(self)@ == after_enable(old(self)@),
            actions@ == enable_actions(old(self)@),
    {
        proof {
            use_type_invariant(&*self);
        }
        let mut actions: Vec<Action> = Vec::new();
        if self.hook_installed {
            assert(actions@ =~= enable_actions(old(self)@));
            return actions;
        }
        self.enabled = true;
        if self.overlays.len() > 0 {
            actions.push(Action::DestroyOverlays);
        }
        self.refresh_overlays();
        if self.overlays.len() > 0 {
            actions.push(Action::ShowOverlays);
        }
        if !self.monitoring {
            self.monitoring = true;
            self.button_down = false;
            actions.push(Action::StartMonitor);
        }
        actions.push(Action::InstallHook);
        assert(actions@ =~= enable_actions(old(self)@));
        actions
    }

    /// Records what came of installing the pointer hook: on success the
    /// hook counts as installed, on failure the system's code is returned
    /// as the error and nothing changes.
    pub fn complete_install(&mut self, outcome: Result<(), u32>) -> (result: Result<(), HookError>)
        ensures
            outcome.is_ok() ==> result.is_ok() && final(self)@ == (BarrierView {
                hook_installed: true,
                ..old(self)@
            }),
            outcome.is_err() ==> result == Err::<(), HookError>(
                HookError::SetMouseHook(outcome.unwrap_err()),
            ) && final(self)@ == old(self)@,
    {
        proof {
            use_type_invariant(&*self);
        }
        match outcome {
            Ok(()) => {
                self.hook_installed = true;
                Ok(())
            },
            Err(code) => Err(HookError::SetMouseHook(code)),
        }
    }

    /// Turns what came of removing the pointer hook into the barrier's
    /// result: the hook counts as removed either way.
    pub fn complete_uninstall(&self, outcome: Result<(), u32>) -> (result: Result<(), HookError>)
        ensures
            outcome.is_ok() ==> result.is_ok(),
            outcome.is_err() ==> result == Err::<(), HookError>(
                HookError::UnhookMouse(outcome.unwrap_err()),
            ),
    {
        match outcome {
            Ok(()) => Ok(()),
            Err(code) => Err(HookError::UnhookMouse(code)),
        }
    }

    /// Turns the barrier off. Safe at any time: on a barrier that is off,
    /// unmonitored, unhooked and without overlays nothing changes and no
    /// action is returned.
    pub fn disable(&mut self) -> (actions: Vec<Action>)
        ensures
            final(self)@ == after_disable(old(self)@),
            actions@ == disable_actions(old(self)@),
    {
        proof {
            use_type_invariant(&*self);
        }
        let mut actions: Vec<Action> = Vec::new();
        if self.monitoring {
            self.monitoring = false;
            actions.push(Action::StopMonitor);
        }
        self.button_down = false;
        self.enabled = false;
        if self.hook_installed {
            self.hook_installed = false;
            actions.push(Action::UninstallHook);
        }
        if self.overlays.len() > 0 {
            self.overlays = Vec::new();
            actions.push(Action::DestroyOverlays);
        }
        assert(final(self)@.overlays =~= Seq::<OverlayFrame>::empty());
        assert(actions@ =~= disable_actions(old(self)@));
        actions
    }

    /// Switches between on and off according to the enabled flag and
    /// returns the new value of the flag with the host's actions.
    pub fn toggle(&mut self) -> (result: (bool, Vec<Action>))
        ensures
            old(self)@.enabled ==> final(self)@ == after_disable(old(self)@) && result.1@
                == disable_actions(old(self)@),
            !old(self)@.enabled ==> final(self)@ == after_enable(old(self)@) && result.1@
                == enable_actions(old(self)@),
            result.0 == final(self)@.enabled,
    {
        proof {
            use_type_invariant(&*self);
        }
        if self.enabled {
            let actions = self.disable();
            (false, actions)
        } else {
            let actions = self.enable();
            (self.enabled, actions)
        }
    }

    /// Replaces region, margin, push factor, overlay colour and sounds
    /// without touching enablement. Where the barrier is on, the overlays
    /// are made anew.
    pub fn update_barrier(&mut self, config: MouseBarrierConfig) -> (actions: Vec<Action>)
        ensures
            final(self)@ == after_update(old(self)@, config),
            actions@ == update_actions(old(self)@, config),
    {
        proof {
            use_type_invariant(&*self);
        }
        self.region = convert_origin(config.x, config.y, config.width, config.height);
        self.buffer_zone = config.buffer_zone;
        self.push_factor = config.push_factor;
        self.overlay_color = pack_color(
            config.overlay_color.0,
            config.overlay_color.1,
            config.overlay_color.2,
        );
        self.overlay_alpha = config.overlay_alpha;
        self.on_barrier_hit_sound = config.on_barrier_hit_sound;
        self.on_barrier_entry_sound = config.on_barrier_entry_sound;
        let mut actions: Vec<Action> = Vec::new();
        if self.enabled {
            if self.overlays.len() > 0 {
                actions.push(Action::DestroyOverlays);
            }
            self.refresh_overlays();
            if self.overlays.len() > 0 {
                actions.push(Action::ShowOverlays);
            }
        }
        assert(actions@ =~= update_actions(old(self)@, config));
        actions
    }

    /// Takes one sample of the pass-through button from the monitor.
    pub fn on_button_sample(&mut self, pressed: bool)
        ensures
            final(self)@ == after_button(old(self)@, pressed),
    {
        proof {
            use_type_invariant(&*self);
        }
        if self.monitoring {
            if pressed != self.button_down {
                if pressed {
                    self.uninstall_requested = true;
                } else if self.enabled {
                    self.install_requested = true;
                }
                self.button_down = pressed;
            }
        }
    }

    /// Whether the monitor is to go on sampling the pass-through button.
    pub fn is_monitoring(&self) -> (monitoring: bool)
        ensures
            monitoring == self@.monitoring,
    {
        self.monitoring
    }

    /// Handles one pointer-motion sample in native coordinates.
    ///
    /// The sample is remembered in any case. With the barrier off nothing
    /// else happens. Otherwise the two edge detectors take the sample, and
    /// it is checked in turn: against the straight path from the previous
    /// sample, against the position one step ahead, and by itself against
    /// the buffer zone.
    pub fn on_mouse_move(&mut self, x: i32, y: i32) -> (outcome: MotionOutcome)
        ensures
            final(self)@ == after_motion(old(self)@, Point { x, y }),
            outcome@ == outcome_of(old(self)@, Point { x, y }),
    {
        proof {
            use_type_invariant(&*self);
        }
        let current = Point { x, y };
        let last_pos = self.last_pos;
        self.last_pos = Some(current);
        if !self.enabled {
            return MotionOutcome { redirect: None, entry_sound: None, hit_sound: None };
        }
        let buffer = expand(&self.region, self.buffer_zone);
        let mut entry_sound: Option<String> = None;
        let in_barrier = point_in_rect(&current, &self.region);
        if in_barrier && !self.has_entered {
            entry_sound = copy_sound(&self.on_barrier_entry_sound);
        }
        self.has_entered = in_barrier;
        let mut hit_sound: Option<String> = None;
        let in_buffer = point_in_rect(&current, &buffer);
        if in_buffer && !self.last_in_buffer {
            hit_sound = copy_sound(&self.on_barrier_hit_sound);
        }
        self.last_in_buffer = in_buffer;
        let mut push_factor: i32 = self.push_factor;
        if let Some(last) = last_pos {
            if let Some(stop) = check_movement_path(&last, &current, &self.region, &buffer) {
                return MotionOutcome { redirect: Some(stop), entry_sound, hit_sound };
            }
            push_factor = calculate_dynamic_push_factor(self.push_factor, &last, &current);
            if predicted_in_barrier(&last, &current, &self.region) {
                let safe = push_point_out_of_rect(&current, &buffer, push_factor, &self.metrics);
                return MotionOutcome { redirect: Some(safe), entry_sound, hit_sound };
            }
        }
        let redirect = if in_buffer {
            Some(push_point_out_of_rect(&current, &buffer, push_factor, &self.metrics))
        } else {
            None
        };
        MotionOutcome { redirect, entry_sound, hit_sound }
    }

    /// Records that the host could not put the overlays on screen: there is
    /// none. The barrier works on without them.
    pub fn overlays_failed(&mut self)
        ensures
            final(self)@ == (BarrierView { overlays: Seq::empty(), ..old(self)@ }),
    {
        proof {
            use_type_invariant(&*self);
        }
        self.overlays = Vec::new();
        assert(final(self)@.overlays =~= Seq::<OverlayFrame>::empty());
    }
}

/// Drains the pending hook requests of `barrier`. To be called by the thread
/// that owns the hook, once per turn of its loop; an installation among the
/// actions is reported with `complete_install`.
pub fn process_hook_requests(barrier: &mut MouseBarrier) -> (actions: Vec<Action>)
    ensures
        final(barrier)@ == after_requests(old(barrier)@),
        actions@ == request_actions(old(barrier)@),
{
    proof {
        use_type_invariant(&*barrier);
    }
    let mut actions: Vec<Action> = Vec::new();
    if barrier.uninstall_requested {
        barrier.uninstall_requested = false;
        if barrier.hook_installed {
            barrier.hook_installed = false;
            actions.push(Action::UninstallHook);
        }
    }
    if barrier.install_requested {
        barrier.install_requested = false;
        if !barrier.hook_installed {
            actions.push(Action::InstallHook);
        }
    }
    assert(actions@ =~= request_actions(old(barrier)@));
    actions
}

} // verus!
