//! The heads-up display: where it sits, what it knows of the barrier and of
//! the pointer, and the lines of text that it shows.

use crate::config::{HudConfig, HudPosition};
use crate::metrics::ScreenMetrics;
use crate::text::{append_int, decimal};
use vstd::prelude::*;
use vstd::string::*;

verus! {

/// Width of the HUD window in pixels.
pub const HUD_WIDTH: i32 = 300;

/// Height of the HUD window in pixels.
pub const HUD_HEIGHT: i32 = 180;

/// Distance of the HUD window from the edges of the screen.
pub const HUD_MARGIN: i32 = 20;

/// Distance of the text from the edges of the HUD window.
pub const HUD_PADDING: i32 = 10;

/// Height of one line of text.
pub const HUD_LINE_HEIGHT: i32 = 18;

/// Additional space below the title.
pub const HUD_TITLE_SPACING: i32 = 5;

/// Colours as `0x00BBGGRR`.
pub const COLOR_WHITE: u32 = 0x00FFFFFF;

pub const COLOR_BLACK: u32 = 0x00000000;

pub const COLOR_GREEN: u32 = 0x0064FF64;

pub const COLOR_RED: u32 = 0x006464FF;

pub const COLOR_YELLOW: u32 = 0x0064FFFF;

pub const COLOR_DANGER_RED: u32 = 0x000000FF;

/// The HUD is redrawn at most once in this many milliseconds.
pub const REFRESH_INTERVAL_MS: u64 = 33;

/// What the HUD is told of the barrier.
pub struct BarrierStateConfig {
    pub enabled: bool,
    pub x: i32,
    pub y: i32,
    pub width: i32,
    pub height: i32,
    pub buffer_zone: i32,
    pub push_factor: i32,
}

/// What the HUD shows: the barrier as configured, in bottom-left-origin
/// form, and the pointer.
#[derive(Clone, Copy, Debug, PartialEq, Eq, Structural)]
pub struct HudState {
    pub enabled: bool,
    pub x: i32,
    pub y: i32,
    pub width: i32,
    pub height: i32,
    pub buffer_zone: i32,
    pub push_factor: i32,
    pub mouse_x: i32,
    pub mouse_y: i32,
    pub mouse_in_barrier: bool,
    pub mouse_in_buffer: bool,
    /// When the HUD was last redrawn, on the host's clock in milliseconds.
    pub last_refresh_ms: u64,
}

/// The top-left corner of the HUD window on a screen of the given size.
pub open spec fn hud_corner(position: HudPosition, width: int, height: int) -> (int, int) {
    match position {
        HudPosition::TopLeft => (HUD_MARGIN as int, HUD_MARGIN as int),
        HudPosition::TopRight => (width - HUD_WIDTH - HUD_MARGIN, HUD_MARGIN as int),
        HudPosition::BottomLeft => (HUD_MARGIN as int, height - HUD_HEIGHT - HUD_MARGIN),
        HudPosition::BottomRight => (
            width - HUD_WIDTH - HUD_MARGIN,
            height - HUD_HEIGHT - HUD_MARGIN,
        ),
    }
}

/// Places the HUD window in its corner of the screen, a margin away from
/// the edges.
pub fn calculate_hud_position(position: &HudPosition, metrics: &ScreenMetrics) -> (corner: (
    i32,
    i32,
))
    ensures
        (corner.0 as int, corner.1 as int) == hud_corner(
            *position,
            metrics.spec_width(),
            metrics.spec_height(),
        ),
{
    let screen_width: i32 = metrics.width();
    let screen_height: i32 = metrics.height();
    match position {
        HudPosition::TopLeft => (HUD_MARGIN, HUD_MARGIN),
        HudPosition::TopRight => (screen_width - HUD_WIDTH - HUD_MARGIN, HUD_MARGIN),
        HudPosition::BottomLeft => (HUD_MARGIN, screen_height - HUD_HEIGHT - HUD_MARGIN),
        HudPosition::BottomRight => (
            screen_width - HUD_WIDTH - HUD_MARGIN,
            screen_height - HUD_HEIGHT - HUD_MARGIN,
        ),
    }
}

/// Whether the pointer is within the barrier as the HUD sees it, margin
/// included: all four edges count as inside.
pub open spec fn hud_within(s: HudState, margin: int, x: int, y: int) -> bool {
    &&& s.x - margin <= x <= s.x + s.width + margin
    &&& s.y - s.height - margin <= y <= s.y + margin
}

/// The state with the pointer at `(x, y)`: with the barrier on, it is in the
/// barrier or else perhaps in the buffer; with the barrier off, in neither.
pub open spec fn with_pointer(s: HudState, x: i32, y: i32) -> HudState {
    HudState {
        mouse_x: x,
        mouse_y: y,
        mouse_in_barrier: s.enabled && hud_within(s, 0, x as int, y as int),
        mouse_in_buffer: s.enabled && hud_within(s, s.buffer_zone as int, x as int, y as int)
            && !hud_within(s, 0, x as int, y as int),
        ..s
    }
}

/// Whether a redraw is due at time `now`.
pub open spec fn refresh_due(s: HudState, now: u64) -> bool {
    now >= s.last_refresh_ms && now - s.last_refresh_ms >= REFRESH_INTERVAL_MS
}

impl HudState {
    /// The state before anything is known: barrier off, pointer at the
    /// origin, last redrawn at time `now`.
    pub fn new(now: u64) -> (s: HudState)
        ensures
            s == (HudState {
                enabled: false,
                x: 0,
                y: 0,
                width: 0,
                height: 0,
                buffer_zone: 0,
                push_factor: 0,
                mouse_x: 0,
                mouse_y: 0,
                mouse_in_barrier: false,
                mouse_in_buffer: false,
                last_refresh_ms: now,
            }),
    {
        HudState {
            enabled: false,
            x: 0,
            y: 0,
            width: 0,
            height: 0,
            buffer_zone: 0,
            push_factor: 0,
            mouse_x: 0,
            mouse_y: 0,
            mouse_in_barrier: false,
            mouse_in_buffer: false,
            last_refresh_ms: now,
        }
    }
}

/// Takes over what the application knows of the barrier.
pub fn update_global_hud_state(
    state: &mut HudState,
    enabled: bool,
    x: i32,
    y: i32,
    width: i32,
    height: i32,
    buffer_zone: i32,
    push_factor: i32,
)
    ensures
        *final(state) == (HudState {
            enabled,
            x,
            y,
            width,
            height,
            buffer_zone,
            push_factor,
            ..*old(state)
        }),
{
    state.enabled = enabled;
    state.x = x;
    state.y = y;
    state.width = width;
    state.height = height;
    state.buffer_zone = buffer_zone;
    state.push_factor = push_factor;
}

/// Takes over the pointer's position at time `now_ms` and says whether the
/// HUD is to be redrawn: at most once in the refresh interval.
pub fn update_mouse_position(state: &mut HudState, x: i32, y: i32, now_ms: u64) -> (redraw: bool)
    ensures
        redraw == refresh_due(*old(state), now_ms),
        *final(state) == (HudState {
            last_refresh_ms: if redraw {
                now_ms
            } else {
                old(state).last_refresh_ms
            },
            ..with_pointer(*old(state), x, y)
        }),
{
    state.mouse_x = x;
    state.mouse_y = y;
    if state.enabled {
        let px: i64 = x as i64;
        let py: i64 = y as i64;
        let margin: i64 = state.buffer_zone as i64;
        let barrier_bottom: i64 = state.y as i64;
        let barrier_top: i64 = state.y as i64 - state.height as i64;
        let barrier_left: i64 = state.x as i64;
        let barrier_right: i64 = state.x as i64 + state.width as i64;
        let in_inner_barrier = px >= barrier_left && px <= barrier_right && py >= barrier_top && py
            <= barrier_bottom;
        let in_buffer_zone = px >= barrier_left - margin && px <= barrier_right + margin && py
            >= barrier_top - margin && py <= barrier_bottom + margin;
        state.mouse_in_barrier = in_inner_barrier;
        state.mouse_in_buffer = in_buffer_zone && !in_inner_barrier;
    } else {
        state.mouse_in_barrier = false;
        state.mouse_in_buffer = false;
    }
    if now_ms >= state.last_refresh_ms && now_ms - state.last_refresh_ms >= REFRESH_INTERVAL_MS {
        state.last_refresh_ms = now_ms;
        true
    } else {
        false
    }
}

/// One line of the HUD: its offset from the window's top-left corner, its
/// colour and its text.
pub struct HudLine {
    pub x: i32,
    pub y: i32,
    pub color: u32,
    pub text: String,
}

/// A line of the HUD with its text as a sequence of characters.
pub struct HudLineView {
    pub x: int,
    pub y: int,
    pub color: u32,
    pub text: Seq<char>,
}

impl View for HudLine {
    type V = HudLineView;

    open spec fn view(&self) -> HudLineView {
        HudLineView { x: self.x as int, y: self.y as int, color: self.color, text: self.text@ }
    }
}

/// The vertical offset of line `i`: the title is line 0, and the space
/// below the title is larger than that below the other lines.
pub open spec fn line_offset(i: int) -> int {
    if i == 0 {
        HUD_PADDING as int
    } else {
        HUD_PADDING + HUD_TITLE_SPACING + i * HUD_LINE_HEIGHT
    }
}

/// The text of line `i` of the HUD.
pub open spec fn line_text(s: HudState, i: int) -> Seq<char> {
    if i == 0 {
        "Age of Crash - by HousedHorse"@
    } else if i == 1 {
        if s.enabled {
            "Status: ENABLED"@
        } else {
            "Status: DISABLED"@
        }
    } else if i == 2 {
        "Position: ("@ + decimal(s.x as int) + ", "@ + decimal(s.y as int) + ")"@
    } else if i == 3 {
        "Size: "@ + decimal(s.width as int) + " x "@ + decimal(s.height as int)
    } else if i == 4 {
        "Buffer Zone: "@ + decimal(s.buffer_zone as int) + "px"@
    } else if i == 5 {
        "Push Factor: "@ + decimal(s.push_factor as int) + "px"@
    } else if i == 6 {
        "Mouse: ("@ + decimal(s.mouse_x as int) + ", "@ + decimal(s.mouse_y as int) + ")"@
    } else if s.mouse_in_barrier {
        "Mouse Status: IN BARRIER"@
    } else if s.mouse_in_buffer {
        "Mouse Status: IN BUFFER ZONE"@
    } else {
        "Mouse Status: Okay"@
    }
}

/// The colour of line `i` of the HUD: the status is green or red, the
/// pointer yellow, and the pointer's status follows where the pointer is.
pub open spec fn line_color(s: HudState, i: int) -> u32 {
    if i == 1 {
        if s.enabled {
            COLOR_GREEN
        } else {
            COLOR_RED
        }
    } else if i == 6 {
        COLOR_YELLOW
    } else if i == 7 {
        if s.mouse_in_barrier {
            COLOR_DANGER_RED
        } else if s.mouse_in_buffer {
            COLOR_YELLOW
        } else {
            COLOR_WHITE
        }
    } else {
        COLOR_WHITE
    }
}

/// Line `i` of the HUD.
pub open spec fn hud_line(s: HudState, i: int) -> HudLineView {
    HudLineView {
        x: HUD_PADDING as int,
        y: line_offset(i),
        color: line_color(s, i),
        text: line_text(s, i),
    }
}

/// Number of lines on the HUD.
pub const HUD_LINES: usize = 8;

/// A text made of a label, a number and a closing part.
fn labelled(label: &str, value: i32, close: &str) -> (text: String)
    ensures
        text@ == label@ + decimal(value as int) + close@,
{
    let mut text = String::new();
    text.append(label);
    append_int(&mut text, value as i64);
    text.append(close);
    assert(text@ =~= label@ + decimal(value as int) + close@);
    text
}

/// A text made of a label, two numbers with a separator between them, and
/// a closing part.
fn labelled_pair(label: &str, first: i32, separator: &str, second: i32, close: &str) -> (text:
    String)
    ensures
        text@ == label@ + decimal(first as int) + separator@ + decimal(second as int) + close@,
{
    let mut text = String::new();
    text.append(label);
    append_int(&mut text, first as i64);
    text.append(separator);
    append_int(&mut text, second as i64);
    text.append(close);
    assert(text@ =~= label@ + decimal(first as int) + separator@ + decimal(second as int)
        + close@);
    text
}

/// The eight lines that the HUD shows, from top to bottom.
pub fn hud_lines(state: &HudState) -> (lines: Vec<HudLine>)
    ensures
        lines@.len() == HUD_LINES,
        forall|i: int| 0 <= i < HUD_LINES ==> (#[trigger] lines@[i])@ == hud_line(*state, i),
{
    proof {
        reveal_strlit("");
    }
    let mut lines: Vec<HudLine> = Vec::new();
    let mut y: i32 = HUD_PADDING;
    lines.push(
        HudLine {
            x: HUD_PADDING,
            y,
            color: COLOR_WHITE,
            text: "Age of Crash - by HousedHorse".to_owned(),
        },
    );
    y = y + HUD_LINE_HEIGHT + HUD_TITLE_SPACING;
    let status: (u32, String) = if state.enabled {
        (COLOR_GREEN, "Status: ENABLED".to_owned())
    } else {
        (COLOR_RED, "Status: DISABLED".to_owned())
    };
    lines.push(HudLine { x: HUD_PADDING, y, color: status.0, text: status.1 });
    y = y + HUD_LINE_HEIGHT;
    let position = labelled_pair("Position: (", state.x, ", ", state.y, ")");
    lines.push(HudLine { x: HUD_PADDING, y, color: COLOR_WHITE, text: position });
    y = y + HUD_LINE_HEIGHT;
    let size = labelled_pair("Size: ", state.width, " x ", state.height, "");
    assert(size@ =~= line_text(*state, 3));
    lines.push(HudLine { x: HUD_PADDING, y, color: COLOR_WHITE, text: size });
    y = y + HUD_LINE_HEIGHT;
    let buffer = labelled("Buffer Zone: ", state.buffer_zone, "px");
    lines.push(HudLine { x: HUD_PADDING, y, color: COLOR_WHITE, text: buffer });
    y = y + HUD_LINE_HEIGHT;
    let push = labelled("Push Factor: ", state.push_factor, "px");
    lines.push(HudLine { x: HUD_PADDING, y, color: COLOR_WHITE, text: push });
    y = y + HUD_LINE_HEIGHT;
    let mouse = labelled_pair("Mouse: (", state.mouse_x, ", ", state.mouse_y, ")");
    lines.push(HudLine { x: HUD_PADDING, y, color: COLOR_YELLOW, text: mouse });
    y = y + HUD_LINE_HEIGHT;
    let pointer: (u32, String) = if state.mouse_in_barrier {
        (COLOR_DANGER_RED, "Mouse Status: IN BARRIER".to_owned())
    } else if state.mouse_in_buffer {
        (COLOR_YELLOW, "Mouse Status: IN BUFFER ZONE".to_owned())
    } else {
        (COLOR_WHITE, "Mouse Status: Okay".to_owned())
    };
    lines.push(HudLine { x: HUD_PADDING, y, color: pointer.0, text: pointer.1 });
    lines
}

/// Something that the host does to the HUD window.
#[derive(Clone, Copy, Debug, PartialEq, Eq, Structural)]
pub enum HudAction {
    /// Create the window with its top-left corner at `(x, y)` and the given
    /// opacity, and show it.
    CreateWindow { x: i32, y: i32, alpha: u8 },
    /// Destroy the window.
    DestroyWindow,
    /// Move the window so that its top-left corner is at `(x, y)`.
    MoveWindow { x: i32, y: i32 },
    /// Redraw the window.
    Refresh,
}

/// What can be observed of the HUD.
pub struct HudView {
    /// The configuration last taken over.
    pub wanted: bool,
    pub position: HudPosition,
    pub background_alpha: u8,
    /// Whether the window exists.
    pub shown: bool,
    /// The barrier as last reported.
    pub barrier_enabled: bool,
    pub barrier_x: i32,
    pub barrier_y: i32,
    pub barrier_width: i32,
    pub barrier_height: i32,
    pub buffer_zone: i32,
    pub push_factor: i32,
}

/// The HUD: its configuration, whether its window exists, and the barrier
/// as last reported to it.
pub struct Hud {
    config: HudConfig,
    enabled: bool,
    barrier_enabled: bool,
    barrier_x: i32,
    barrier_y: i32,
    barrier_width: i32,
    barrier_height: i32,
    buffer_zone: i32,
    push_factor: i32,
}

impl View for Hud {
    type V = HudView;

    closed spec fn view(&self) -> HudView {
        HudView {
            wanted: self.config.enabled,
            position: self.config.position,
            background_alpha: self.config.background_alpha,
            shown: self.enabled,
            barrier_enabled: self.barrier_enabled,
            barrier_x: self.barrier_x,
            barrier_y: self.barrier_y,
            barrier_width: self.barrier_width,
            barrier_height: self.barrier_height,
            buffer_zone: self.buffer_zone,
            push_factor: self.push_factor,
        }
    }
}

/// The action that creates the window for a configuration.
pub open spec fn creation(config: HudConfig, m: ScreenMetrics) -> HudAction {
    let corner = hud_corner(config.position, m.spec_width(), m.spec_height());
    HudAction::CreateWindow { x: corner.0 as i32, y: corner.1 as i32, alpha: config.background_alpha }
}

/// The action that moves the window to where a configuration wants it.
pub open spec fn relocation(config: HudConfig, m: ScreenMetrics) -> HudAction {
    let corner = hud_corner(config.position, m.spec_width(), m.spec_height());
    HudAction::MoveWindow { x: corner.0 as i32, y: corner.1 as i32 }
}

/// What the host does when the HUD takes a new configuration: it creates
/// the window where the HUD is switched on, destroys it where the HUD is
/// switched off, moves it where it stays on; and redraws it where there is
/// one afterwards.
pub open spec fn config_actions(h: HudView, config: HudConfig, m: ScreenMetrics) -> Seq<HudAction> {
    if config.enabled && !h.shown {
        seq![creation(config, m), HudAction::Refresh]
    } else if !config.enabled && h.shown {
        seq![HudAction::DestroyWindow]
    } else if h.shown {
        seq![relocation(config, m), HudAction::Refresh]
    } else {
        Seq::empty()
    }
}

/// The HUD after it took a new configuration.
pub open spec fn after_config(h: HudView, config: HudConfig) -> HudView {
    HudView {
        wanted: config.enabled,
        position: config.position,
        background_alpha: config.background_alpha,
        shown: config.enabled,
        ..h
    }
}

/// The HUD after the barrier was reported to it.
pub open spec fn after_report(h: HudView, b: BarrierStateConfig) -> HudView {
    HudView {
        barrier_enabled: b.enabled,
        barrier_x: b.x,
        barrier_y: b.y,
        barrier_width: b.width,
        barrier_height: b.height,
        buffer_zone: b.buffer_zone,
        push_factor: b.push_factor,
        ..h
    }
}

impl Hud {
    /// A HUD for the configuration, and the creation of its window where
    /// the configuration switches it on.
    pub fn new(config: HudConfig, metrics: &ScreenMetrics) -> (made: (Hud, Vec<HudAction>))
        ensures
            made.0@ == (HudView {
                wanted: config.enabled,
                position: config.position,
                background_alpha: config.background_alpha,
                shown: config.enabled,
                barrier_enabled: false,
                barrier_x: 0,
                barrier_y: 0,
                barrier_width: 0,
                barrier_height: 0,
                buffer_zone: 0,
                push_factor: 0,
            }),
            made.1@ == if config.enabled {
                seq![creation(config, *metrics)]
            } else {
                Seq::<HudAction>::empty()
            },
    {
        let mut actions: Vec<HudAction> = Vec::new();
        let enabled = config.enabled;
        if enabled {
            let corner = calculate_hud_position(&config.position, metrics);
            actions.push(
                HudAction::CreateWindow { x: corner.0, y: corner.1, alpha: config.background_alpha },
            );
        }
        let hud = Hud {
            config,
            enabled,
            barrier_enabled: false,
            barrier_x: 0,
            barrier_y: 0,
            barrier_width: 0,
            barrier_height: 0,
            buffer_zone: 0,
            push_factor: 0,
        };
        assert(actions@ =~= if enabled {
            seq![creation(hud.config, *metrics)]
        } else {
            Seq::<HudAction>::empty()
        });
        (hud, actions)
    }

    /// Whether the window exists.
    pub fn is_shown(&self) -> (shown: bool)
        ensures
            shown == self@.shown,
    {
        self.enabled
    }

    /// Takes a new configuration over.
    pub fn update_config(&mut self, new_config: HudConfig, metrics: &ScreenMetrics) -> (actions:
        Vec<HudAction>)
        ensures
            final(self)@ == after_config(old(self)@, new_config),
            actions@ == config_actions(old(self)@, new_config, *metrics),
    {
        let mut actions: Vec<HudAction> = Vec::new();
        if new_config.enabled && !self.enabled {
            let corner = calculate_hud_position(&new_config.position, metrics);
            actions.push(
                HudAction::CreateWindow {
                    x: corner.0,
                    y: corner.1,
                    alpha: new_config.background_alpha,
                },
            );
            self.enabled = true;
        } else if !new_config.enabled && self.enabled {
            actions.push(HudAction::DestroyWindow);
            self.enabled = false;
        } else if self.enabled {
            let corner = calculate_hud_position(&new_config.position, metrics);
            actions.push(HudAction::MoveWindow { x: corner.0, y: corner.1 });
        }
        self.config = new_config;
        if self.enabled {
            actions.push(HudAction::Refresh);
        }
        assert(actions@ =~= config_actions(old(self)@, self.config, *metrics));
        actions
    }

    /// Records that the window could not be created: there is none.
    pub fn window_failed(&mut self)
        ensures
            final(self)@ == (HudView { shown: false, ..old(self)@ }),
    {
        self.enabled = false;
    }

    /// Takes over what the application knows of the barrier, and asks for a
    /// redraw where the window exists.
    pub fn update_barrier_state(&mut self, config: BarrierStateConfig) -> (actions: Vec<HudAction>)
        ensures
            final(self)@ == after_report(old(self)@, config),
            actions@ == if old(self)@.shown {
                seq![HudAction::Refresh]
            } else {
                Seq::<HudAction>::empty()
            },
    {
        self.barrier_enabled = config.enabled;
        self.barrier_x = config.x;
        self.barrier_y = config.y;
        self.barrier_width = config.width;
        self.barrier_height = config.height;
        self.buffer_zone = config.buffer_zone;
        self.push_factor = config.push_factor;
        let mut actions: Vec<HudAction> = Vec::new();
        if self.enabled {
            actions.push(HudAction::Refresh);
        }
        assert(actions@ =~= if old(self)@.shown {
            seq![HudAction::Refresh]
        } else {
            Seq::<HudAction>::empty()
        });
        actions
    }
}

} // verus!
