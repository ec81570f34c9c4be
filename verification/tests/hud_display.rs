use mouse_barrier::config::{HudConfig, HudPosition};
use mouse_barrier::hud::{
    calculate_hud_position, hud_lines, update_global_hud_state, update_mouse_position,
    BarrierStateConfig, Hud, HudAction, HudState, COLOR_BLACK, COLOR_DANGER_RED, COLOR_GREEN,
    COLOR_RED, COLOR_WHITE, COLOR_YELLOW, HUD_HEIGHT, HUD_LINE_HEIGHT, HUD_MARGIN, HUD_PADDING,
    HUD_TITLE_SPACING, HUD_WIDTH, REFRESH_INTERVAL_MS,
};
use mouse_barrier::metrics::ScreenMetrics;

fn create_test_barrier_state_config(
    enabled: bool,
    x: i32,
    y: i32,
    width: i32,
    height: i32,
    buffer_zone: i32,
    push_factor: i32,
) -> BarrierStateConfig {
    BarrierStateConfig { enabled, x, y, width, height, buffer_zone, push_factor }
}

fn screen() -> ScreenMetrics {
    ScreenMetrics::new(1920, 1080).unwrap()
}

#[test]
fn test_barrier_state_config_creation() {
    let config = create_test_barrier_state_config(true, 100, 200, 300, 150, 25, 50);

    assert!(config.enabled);
    assert_eq!(config.x, 100);
    assert_eq!(config.y, 200);
    assert_eq!(config.width, 300);
    assert_eq!(config.height, 150);
    assert_eq!(config.buffer_zone, 25);
    assert_eq!(config.push_factor, 50);
}

#[test]
fn test_hud_constants() {
    assert_eq!(HUD_WIDTH, 300);
    assert_eq!(HUD_HEIGHT, 180);
    assert_eq!(HUD_MARGIN, 20);
    assert_eq!(HUD_PADDING, 10);
    assert_eq!(HUD_LINE_HEIGHT, 18);
    assert_eq!(HUD_TITLE_SPACING, 5);

    let width_check = HUD_WIDTH > HUD_PADDING * 2;
    let height_check = HUD_HEIGHT > HUD_PADDING * 2;
    assert!(width_check, "HUD width should accommodate padding");
    assert!(height_check, "HUD height should accommodate padding");
}

#[test]
fn test_color_constants() {
    assert_eq!(COLOR_WHITE, 0x00FFFFFF);
    assert_eq!(COLOR_BLACK, 0x00000000);
    assert_eq!(COLOR_GREEN, 0x0064FF64);
    assert_eq!(COLOR_RED, 0x006464FF);
    assert_eq!(COLOR_YELLOW, 0x0064FFFF);
    assert_eq!(COLOR_DANGER_RED, 0x000000FF);

    assert_eq!(COLOR_DANGER_RED & 0xFF, 0xFF);
    assert_eq!((COLOR_DANGER_RED >> 8) & 0xFF, 0x00);
    assert_eq!((COLOR_DANGER_RED >> 16) & 0xFF, 0x00);
}

#[test]
fn test_calculate_hud_position_top_left() {
    let position = HudPosition::TopLeft;
    let (x, y) = calculate_hud_position(&position, &screen());

    assert_eq!(x, HUD_MARGIN);
    assert_eq!(y, HUD_MARGIN);
}

#[test]
fn test_calculate_hud_position_all_positions() {
    for position in [
        HudPosition::TopLeft,
        HudPosition::TopRight,
        HudPosition::BottomLeft,
        HudPosition::BottomRight,
    ] {
        let (x, y) = calculate_hud_position(&position, &screen());

        assert!(x >= 0, "X coordinate should be non-negative for {:?}", position);
        assert!(y >= 0, "Y coordinate should be non-negative for {:?}", position);

        match position {
            HudPosition::TopRight | HudPosition::BottomRight => {
                assert_eq!(x, 1920 - HUD_WIDTH - HUD_MARGIN);
            }
            HudPosition::TopLeft | HudPosition::BottomLeft => {
                assert_eq!(x, HUD_MARGIN);
            }
        }

        match position {
            HudPosition::BottomLeft | HudPosition::BottomRight => {
                assert_eq!(y, 1080 - HUD_HEIGHT - HUD_MARGIN);
            }
            HudPosition::TopLeft | HudPosition::TopRight => {
                assert_eq!(y, HUD_MARGIN);
            }
        }
    }
}

#[test]
fn hud_position_on_a_screen_smaller_than_the_hud() {
    let tiny = ScreenMetrics::new(1, 1).unwrap();
    assert_eq!(calculate_hud_position(&HudPosition::BottomRight, &tiny), (-319, -199));
    let huge = ScreenMetrics::new(i32::MAX, i32::MAX).unwrap();
    assert_eq!(
        calculate_hud_position(&HudPosition::BottomRight, &huge),
        (i32::MAX - 320, i32::MAX - 200)
    );
}

#[test]
fn test_hud_state_creation() {
    let state = HudState {
        enabled: true,
        x: 100,
        y: 200,
        width: 300,
        height: 150,
        buffer_zone: 25,
        push_factor: 50,
        mouse_x: 150,
        mouse_y: 250,
        mouse_in_barrier: false,
        mouse_in_buffer: true,
        last_refresh_ms: 0,
    };

    assert!(state.enabled);
    assert_eq!(state.x, 100);
    assert_eq!(state.y, 200);
    assert_eq!(state.width, 300);
    assert_eq!(state.height, 150);
    assert_eq!(state.buffer_zone, 25);
    assert_eq!(state.push_factor, 50);
    assert_eq!(state.mouse_x, 150);
    assert_eq!(state.mouse_y, 250);
    assert!(!state.mouse_in_barrier);
    assert!(state.mouse_in_buffer);
}

#[test]
fn test_update_global_hud_state() {
    let mut state = HudState::new(0);
    update_global_hud_state(&mut state, true, 50, 100, 200, 80, 15, 30);

    update_mouse_position(&mut state, 75, 120, 0);

    assert!(state.enabled);
    assert_eq!((state.x, state.y, state.width, state.height), (50, 100, 200, 80));
    assert_eq!((state.buffer_zone, state.push_factor), (15, 30));
    assert_eq!((state.mouse_x, state.mouse_y), (75, 120));
    // the barrier spans y from 20 to 100; 120 is below it but within the buffer of 15
    assert!(!state.mouse_in_barrier);
    assert!(!state.mouse_in_buffer);
    update_mouse_position(&mut state, 75, 115, 0);
    assert!(state.mouse_in_buffer);
    update_mouse_position(&mut state, 75, 100, 0);
    assert!(state.mouse_in_barrier);
    assert!(!state.mouse_in_buffer);
}

#[test]
fn test_update_mouse_position_coordinates() {
    let mut state = HudState::new(0);
    let test_cases = [(0, 0), (100, 200), (1920, 1080), (-10, -20)];

    for (x, y) in test_cases {
        update_mouse_position(&mut state, x, y, 0);
        assert_eq!((state.mouse_x, state.mouse_y), (x, y));
        assert!(!state.mouse_in_barrier);
        assert!(!state.mouse_in_buffer);
    }
}

#[test]
fn test_barrier_inside_detection_logic() {
    let barrier_x = 100;
    let barrier_y = 500;
    let barrier_width = 200;
    let barrier_height = 100;
    let buffer_zone = 25;

    let mut state = HudState::new(0);
    update_global_hud_state(
        &mut state,
        true,
        barrier_x,
        barrier_y,
        barrier_width,
        barrier_height,
        buffer_zone,
        50,
    );

    let mouse_x = 150;
    let mouse_y = 450;
    update_mouse_position(&mut state, mouse_x, mouse_y, 0);
    assert!(state.mouse_in_barrier);

    let mouse_x = 80;
    let mouse_y = 450;
    update_mouse_position(&mut state, mouse_x, mouse_y, 0);
    assert!(state.mouse_in_buffer);
    assert!(!state.mouse_in_barrier);

    let mouse_x = 50;
    let mouse_y = 450;
    update_mouse_position(&mut state, mouse_x, mouse_y, 0);
    assert!(!state.mouse_in_buffer);
    assert!(!state.mouse_in_barrier);
}

#[test]
fn hud_detection_counts_all_four_edges_as_inside() {
    let mut state = HudState::new(0);
    update_global_hud_state(&mut state, true, 100, 500, 200, 100, 25, 50);
    for (x, y) in [(100, 400), (300, 500), (100, 500), (300, 400)] {
        update_mouse_position(&mut state, x, y, 0);
        assert!(state.mouse_in_barrier);
        assert!(!state.mouse_in_buffer);
    }
    for (x, y) in [(75, 375), (325, 525), (99, 450), (301, 450)] {
        update_mouse_position(&mut state, x, y, 0);
        assert!(!state.mouse_in_barrier);
        assert!(state.mouse_in_buffer);
    }
    for (x, y) in [(74, 450), (326, 450), (200, 374), (200, 526)] {
        update_mouse_position(&mut state, x, y, 0);
        assert!(!state.mouse_in_barrier);
        assert!(!state.mouse_in_buffer);
    }
}

#[test]
fn hud_detection_with_extreme_values_does_not_overflow() {
    let mut state = HudState::new(0);
    update_global_hud_state(&mut state, true, i32::MAX, i32::MIN, i32::MAX, i32::MAX, i32::MAX, 1);
    update_mouse_position(&mut state, i32::MAX, i32::MIN, 0);
    assert!(state.mouse_in_barrier);
    update_mouse_position(&mut state, 0, i32::MIN, 0);
    assert!(state.mouse_in_buffer);
}

#[test]
fn hud_redraws_at_most_once_per_interval() {
    let mut state = HudState::new(1000);
    assert!(!update_mouse_position(&mut state, 1, 1, 1000));
    assert!(!update_mouse_position(&mut state, 1, 1, 1032));
    assert_eq!(state.last_refresh_ms, 1000);
    assert!(update_mouse_position(&mut state, 1, 1, 1033));
    assert_eq!(state.last_refresh_ms, 1033);
    assert!(!update_mouse_position(&mut state, 1, 1, 1040));
    assert!(!update_mouse_position(&mut state, 1, 1, 5));
    assert_eq!(state.last_refresh_ms, 1033);
    assert!(update_mouse_position(&mut state, 1, 1, u64::MAX));
}

#[test]
fn test_hud_position_enum_values() {
    let positions = [
        HudPosition::TopLeft,
        HudPosition::TopRight,
        HudPosition::BottomLeft,
        HudPosition::BottomRight,
    ];

    assert_ne!(positions[0], positions[1]);
    assert_ne!(positions[0], positions[2]);
    assert_ne!(positions[0], positions[3]);

    let cloned = positions[0].clone();
    assert_eq!(positions[0], cloned);
}

#[test]
fn test_refresh_interval_constant() {
    assert!(REFRESH_INTERVAL_MS > 0);
    assert!(REFRESH_INTERVAL_MS <= 100);

    let fps = 1000.0 / REFRESH_INTERVAL_MS as f64;
    assert!((25.0..=35.0).contains(&fps), "FPS should be around 30, got {}", fps);
}

#[test]
fn hud_shows_eight_lines() {
    let mut state = HudState::new(0);
    update_global_hud_state(&mut state, true, 0, 1080, 200, 40, 20, 50);
    update_mouse_position(&mut state, -15, 1060, 0);
    let lines = hud_lines(&state);
    let shown: Vec<(i32, i32, u32, &str)> =
        lines.iter().map(|l| (l.x, l.y, l.color, l.text.as_str())).collect();
    assert_eq!(
        shown,
        vec![
            (10, 10, COLOR_WHITE, "Age of Crash - by HousedHorse"),
            (10, 33, COLOR_GREEN, "Status: ENABLED"),
            (10, 51, COLOR_WHITE, "Position: (0, 1080)"),
            (10, 69, COLOR_WHITE, "Size: 200 x 40"),
            (10, 87, COLOR_WHITE, "Buffer Zone: 20px"),
            (10, 105, COLOR_WHITE, "Push Factor: 50px"),
            (10, 123, COLOR_YELLOW, "Mouse: (-15, 1060)"),
            (10, 141, COLOR_YELLOW, "Mouse Status: IN BUFFER ZONE"),
        ]
    );
}

#[test]
fn hud_lines_follow_the_state() {
    let mut state = HudState::new(0);
    let lines = hud_lines(&state);
    assert_eq!(lines[1].text, "Status: DISABLED");
    assert_eq!(lines[1].color, COLOR_RED);
    assert_eq!(lines[7].text, "Mouse Status: Okay");
    assert_eq!(lines[7].color, COLOR_WHITE);
    update_global_hud_state(&mut state, true, i32::MIN, i32::MAX, 7, 0, -3, 1000000);
    update_mouse_position(&mut state, i32::MIN, i32::MAX, 0);
    let lines = hud_lines(&state);
    assert_eq!(lines[2].text, "Position: (-2147483648, 2147483647)");
    assert_eq!(lines[3].text, "Size: 7 x 0");
    assert_eq!(lines[4].text, "Buffer Zone: -3px");
    assert_eq!(lines[5].text, "Push Factor: 1000000px");
    assert_eq!(lines[7].text, "Mouse Status: IN BARRIER");
    assert_eq!(lines[7].color, COLOR_DANGER_RED);
}

#[test]
fn hud_window_follows_its_configuration() {
    let on = HudConfig { enabled: true, position: HudPosition::TopRight, background_alpha: 200 };
    let off = HudConfig { enabled: false, position: HudPosition::TopRight, background_alpha: 200 };
    let moved =
        HudConfig { enabled: true, position: HudPosition::BottomLeft, background_alpha: 100 };

    let (mut hud, actions) = Hud::new(off.clone(), &screen());
    assert!(actions.is_empty());
    assert!(!hud.is_shown());
    assert!(hud.update_config(off.clone(), &screen()).is_empty());
    assert!(hud
        .update_barrier_state(create_test_barrier_state_config(true, 1, 2, 3, 4, 5, 6))
        .is_empty());

    let actions = hud.update_config(on.clone(), &screen());
    assert_eq!(
        actions,
        vec![HudAction::CreateWindow { x: 1600, y: 20, alpha: 200 }, HudAction::Refresh]
    );
    assert!(hud.is_shown());

    let actions = hud.update_config(moved, &screen());
    assert_eq!(actions, vec![HudAction::MoveWindow { x: 20, y: 880 }, HudAction::Refresh]);

    let actions =
        hud.update_barrier_state(create_test_barrier_state_config(true, 1, 2, 3, 4, 5, 6));
    assert_eq!(actions, vec![HudAction::Refresh]);

    assert_eq!(hud.update_config(off, &screen()), vec![HudAction::DestroyWindow]);
    assert!(!hud.is_shown());

    let (mut hud, actions) = Hud::new(on, &screen());
    assert_eq!(actions, vec![HudAction::CreateWindow { x: 1600, y: 20, alpha: 200 }]);
    assert!(hud.is_shown());
    hud.window_failed();
    assert!(!hud.is_shown());
}
