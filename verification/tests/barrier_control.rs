use mouse_barrier::barrier::{
    process_hook_requests, Action, HookError, MotionOutcome, MouseBarrier, MouseBarrierConfig,
};
use mouse_barrier::geometry::{point_in_rect, Point, Rect};
use mouse_barrier::metrics::ScreenMetrics;
use mouse_barrier::overlay::{overlay_regions, OverlayRegion, OverlaySide};

fn config(x: i32, y: i32, width: i32, height: i32, buffer_zone: i32) -> MouseBarrierConfig {
    MouseBarrierConfig {
        x,
        y,
        width,
        height,
        buffer_zone,
        push_factor: 50,
        overlay_color: (255, 0, 0),
        overlay_alpha: 128,
        on_barrier_hit_sound: Some("hit.wav".to_string()),
        on_barrier_entry_sound: Some("entry.wav".to_string()),
    }
}

fn reference_screen() -> ScreenMetrics {
    ScreenMetrics::new(3840, 2160).unwrap()
}

fn enabled_barrier(c: MouseBarrierConfig, m: ScreenMetrics) -> MouseBarrier {
    let mut barrier = MouseBarrier::new(c, m);
    barrier.enable();
    assert_eq!(barrier.complete_install(Ok(())), Ok(()));
    barrier
}

fn quiet(outcome: &MotionOutcome) -> bool {
    outcome.redirect.is_none() && outcome.entry_sound.is_none() && outcome.hit_sound.is_none()
}

#[test]
fn test_mouse_barrier_state_creation() {
    let barrier = MouseBarrier::new(
        MouseBarrierConfig {
            x: 0,
            y: 100,
            width: 100,
            height: 100,
            buffer_zone: 10,
            push_factor: 30,
            overlay_color: (255, 0, 0),
            overlay_alpha: 128,
            on_barrier_hit_sound: Some("sound.wav".to_string()),
            on_barrier_entry_sound: None,
        },
        reference_screen(),
    );

    assert_eq!(barrier.region(), Rect { left: 0, top: 0, right: 100, bottom: 100 });
    assert_eq!(barrier.buffer_zone(), 10);
    assert_eq!(barrier.push_factor(), 30);
    assert!(!barrier.is_enabled());
    assert_eq!(barrier.overlay_color(), 0xFF0000);
    assert_eq!(barrier.overlay_alpha(), 128);
    assert_eq!(barrier.hit_sound(), &Some("sound.wav".to_string()));
    assert_eq!(barrier.entry_sound(), &None);
}

#[test]
fn a_new_barrier_is_off_and_idle() {
    let mut barrier = MouseBarrier::new(config(100, 500, 200, 100, 10), reference_screen());
    assert_eq!(barrier.region(), Rect { left: 100, top: 400, right: 300, bottom: 500 });
    assert_eq!(barrier.buffer_rect(), Rect { left: 90, top: 390, right: 310, bottom: 510 });
    assert!(!barrier.is_enabled());
    assert!(!barrier.is_hook_installed());
    assert!(!barrier.is_monitoring());
    assert!(barrier.overlays().is_empty());
    assert!(process_hook_requests(&mut barrier).is_empty());
    assert!(quiet(&barrier.on_mouse_move(150, 450)));
    assert!(quiet(&barrier.on_mouse_move(150, 450)));
}

#[test]
fn enable_twice_installs_the_hook_once() {
    let mut barrier = MouseBarrier::new(config(100, 500, 200, 100, 10), reference_screen());
    let actions = barrier.enable();
    assert_eq!(actions, vec![Action::ShowOverlays, Action::StartMonitor, Action::InstallHook]);
    assert!(barrier.is_enabled());
    assert!(barrier.is_monitoring());
    assert!(!barrier.is_hook_installed());
    assert_eq!(barrier.overlays().len(), 4);
    assert_eq!(barrier.complete_install(Ok(())), Ok(()));
    assert!(barrier.is_hook_installed());

    let again = barrier.enable();
    assert!(again.is_empty());
    assert!(barrier.is_enabled());
    assert_eq!(barrier.overlays().len(), 4);
}

#[test]
fn disable_on_a_disabled_barrier_does_nothing() {
    let mut barrier = MouseBarrier::new(config(100, 500, 200, 100, 10), reference_screen());
    assert!(barrier.disable().is_empty());
    assert!(!barrier.is_enabled());

    barrier.enable();
    barrier.complete_install(Ok(())).unwrap();
    let actions = barrier.disable();
    assert_eq!(actions, vec![Action::StopMonitor, Action::UninstallHook, Action::DestroyOverlays]);
    assert!(!barrier.is_enabled());
    assert!(!barrier.is_hook_installed());
    assert!(!barrier.is_monitoring());
    assert!(barrier.overlays().is_empty());
    assert!(barrier.disable().is_empty());
    assert_eq!(barrier.complete_uninstall(Ok(())), Ok(()));
    assert_eq!(barrier.complete_uninstall(Err(9)), Err(HookError::UnhookMouse(9)));
}

#[test]
fn enable_disable_enable_comes_back_to_the_same_state() {
    let mut barrier = MouseBarrier::new(config(100, 500, 200, 100, 10), reference_screen());
    let first = barrier.enable();
    barrier.complete_install(Ok(())).unwrap();
    let overlays = barrier.overlays().clone();
    barrier.disable();
    let second = barrier.enable();
    barrier.complete_install(Ok(())).unwrap();
    assert_eq!(first, second);
    assert_eq!(barrier.overlays(), &overlays);
    assert!(barrier.is_enabled() && barrier.is_hook_installed() && barrier.is_monitoring());
}

#[test]
fn a_failed_installation_is_reported_and_can_be_retried() {
    let mut barrier = MouseBarrier::new(config(100, 500, 200, 100, 10), reference_screen());
    barrier.enable();
    let failed = barrier.complete_install(Err(5));
    assert_eq!(failed, Err(HookError::SetMouseHook(5)));
    assert_eq!(failed.unwrap_err().message(), "Failed to set mouse hook: 5");
    assert!(barrier.is_enabled());
    assert!(!barrier.is_hook_installed());
    // the retry replaces the overlays and does not start a second monitor
    let retry = barrier.enable();
    assert_eq!(retry, vec![Action::DestroyOverlays, Action::ShowOverlays, Action::InstallHook]);
    assert_eq!(barrier.complete_install(Ok(())), Ok(()));
    assert!(barrier.is_hook_installed());
}

#[test]
fn toggle_switches_and_returns_the_new_flag() {
    let mut barrier = MouseBarrier::new(config(100, 500, 200, 100, 10), reference_screen());
    let (on, actions) = barrier.toggle();
    assert!(on);
    assert_eq!(actions, vec![Action::ShowOverlays, Action::StartMonitor, Action::InstallHook]);
    barrier.complete_install(Ok(())).unwrap();
    assert!(barrier.is_enabled());
    let (on, actions) = barrier.toggle();
    assert!(!on);
    assert_eq!(actions, vec![Action::StopMonitor, Action::UninstallHook, Action::DestroyOverlays]);
    assert!(!barrier.is_enabled());
}

#[test]
fn the_middle_button_suspends_the_hook() {
    let mut barrier = enabled_barrier(config(100, 500, 200, 100, 10), reference_screen());
    barrier.on_button_sample(false);
    assert!(process_hook_requests(&mut barrier).is_empty());

    barrier.on_button_sample(true);
    barrier.on_button_sample(true);
    assert!(barrier.is_hook_installed());
    assert_eq!(process_hook_requests(&mut barrier), vec![Action::UninstallHook]);
    assert!(!barrier.is_hook_installed());
    assert!(barrier.is_enabled());
    assert!(process_hook_requests(&mut barrier).is_empty());

    barrier.on_button_sample(false);
    assert_eq!(process_hook_requests(&mut barrier), vec![Action::InstallHook]);
    assert!(!barrier.is_hook_installed());
    assert_eq!(barrier.complete_install(Ok(())), Ok(()));
    assert!(barrier.is_hook_installed());
    assert!(process_hook_requests(&mut barrier).is_empty());
}

#[test]
fn press_and_release_between_two_polls_are_both_drained() {
    let mut barrier = enabled_barrier(config(100, 500, 200, 100, 10), reference_screen());
    barrier.on_button_sample(true);
    barrier.on_button_sample(false);
    assert_eq!(process_hook_requests(&mut barrier), vec![Action::UninstallHook, Action::InstallHook]);
    assert!(!barrier.is_hook_installed());
    assert!(process_hook_requests(&mut barrier).is_empty());
}

#[test]
fn a_release_after_disable_asks_for_nothing() {
    let mut barrier = enabled_barrier(config(100, 500, 200, 100, 10), reference_screen());
    barrier.on_button_sample(true);
    assert_eq!(process_hook_requests(&mut barrier), vec![Action::UninstallHook]);
    let actions = barrier.disable();
    assert_eq!(actions, vec![Action::StopMonitor, Action::DestroyOverlays]);
    // the monitor has stopped: samples are ignored
    barrier.on_button_sample(false);
    barrier.on_button_sample(true);
    assert!(process_hook_requests(&mut barrier).is_empty());
}

#[test]
fn update_replaces_geometry_and_overlays_without_toggling() {
    let mut barrier = MouseBarrier::new(config(100, 500, 200, 100, 10), reference_screen());
    let mut changed = config(0, 1080, 200, 40, 20);
    changed.push_factor = 75;
    changed.overlay_color = (0, 255, 0);
    changed.overlay_alpha = 200;
    changed.on_barrier_hit_sound = None;
    assert!(barrier.update_barrier(changed).is_empty());
    assert!(!barrier.is_enabled());
    assert!(barrier.overlays().is_empty());
    assert_eq!(barrier.region(), Rect { left: 0, top: 1040, right: 200, bottom: 1080 });
    assert_eq!(barrier.buffer_zone(), 20);
    assert_eq!(barrier.push_factor(), 75);
    assert_eq!(barrier.overlay_color(), 0x00FF00);
    assert_eq!(barrier.overlay_alpha(), 200);
    assert_eq!(barrier.hit_sound(), &None);
    assert_eq!(barrier.entry_sound(), &Some("entry.wav".to_string()));

    barrier.enable();
    barrier.complete_install(Ok(())).unwrap();
    // the region touches the left edge of the screen: no overlay on the left
    assert_eq!(barrier.overlays().len(), 3);
    let actions = barrier.update_barrier(config(100, 500, 200, 100, 10));
    assert_eq!(actions, vec![Action::DestroyOverlays, Action::ShowOverlays]);
    assert!(barrier.is_enabled());
    assert!(barrier.is_hook_installed());
    assert_eq!(barrier.overlays().len(), 4);
    // a barrier without a buffer has no overlay at all
    let actions = barrier.update_barrier(config(100, 500, 200, 100, 0));
    assert_eq!(actions, vec![Action::DestroyOverlays]);
    assert!(barrier.overlays().is_empty());
    let actions = barrier.update_barrier(config(100, 500, 200, 100, 10));
    assert_eq!(actions, vec![Action::ShowOverlays]);
}

#[test]
fn overlays_frame_the_barrier() {
    let region = Rect { left: 100, top: 400, right: 300, bottom: 500 };
    let overlays = overlay_regions(&region, 10, &reference_screen());
    assert_eq!(
        overlays,
        vec![
            OverlayRegion { side: OverlaySide::Top, x: 90, y: 390, width: 220, height: 10 },
            OverlayRegion { side: OverlaySide::Bottom, x: 90, y: 500, width: 220, height: 10 },
            OverlayRegion { side: OverlaySide::Left, x: 90, y: 400, width: 10, height: 100 },
            OverlayRegion { side: OverlaySide::Right, x: 300, y: 400, width: 10, height: 100 },
        ]
    );
}

#[test]
fn overlays_are_scaled_and_cut_to_the_screen() {
    let half = ScreenMetrics::new(1920, 1080).unwrap();
    // the converted default barrier: bottom-left corner of a 4K screen
    let region = Rect { left: 0, top: 2080, right: 400, bottom: 2160 };
    let overlays = overlay_regions(&region, 40, &half);
    assert_eq!(
        overlays,
        vec![
            OverlayRegion { side: OverlaySide::Top, x: 0, y: 1020, width: 220, height: 20 },
            OverlayRegion { side: OverlaySide::Right, x: 200, y: 1040, width: 20, height: 40 },
        ]
    );
    assert!(overlay_regions(&region, 0, &half).is_empty());
    assert!(overlay_regions(&region, -40, &half).is_empty());
    let empty = Rect { left: 100, top: 100, right: 100, bottom: 100 };
    assert_eq!(
        overlay_regions(&empty, 10, &reference_screen()),
        vec![
            OverlayRegion { side: OverlaySide::Top, x: 90, y: 90, width: 20, height: 10 },
            OverlayRegion { side: OverlaySide::Bottom, x: 90, y: 100, width: 20, height: 10 },
        ]
    );
}

#[test]
fn a_sample_inside_the_barrier_is_pushed_past_the_nearest_edge() {
    // region {x: 0, y: 1080, width: 200, height: 40}, buffer 20
    let mut barrier = enabled_barrier(config(0, 1080, 200, 40, 20), reference_screen());
    let buffer = barrier.buffer_rect();
    assert_eq!(buffer, Rect { left: -20, top: 1020, right: 220, bottom: 1100 });

    let outcome = barrier.on_mouse_move(50, 1060);
    // top and bottom of the buffer are both 40 away: the top comes first
    assert_eq!(outcome.redirect, Some(Point { x: 50, y: 970 }));
    assert!(!point_in_rect(&outcome.redirect.unwrap(), &buffer));
    assert_eq!(outcome.entry_sound, Some("entry.wav".to_string()));
    assert_eq!(outcome.hit_sound, Some("hit.wav".to_string()));
}

#[test]
fn the_same_sample_on_a_smaller_screen_lands_in_cursor_space() {
    let half = ScreenMetrics::new(1920, 1080).unwrap();
    let mut barrier = enabled_barrier(config(0, 1080, 200, 40, 20), half);
    let outcome = barrier.on_mouse_move(50, 1060);
    assert_eq!(outcome.redirect, Some(Point { x: 25, y: 485 }));
}

#[test]
fn sounds_are_played_on_the_entering_edge_only() {
    let mut c = config(1000, 1100, 200, 100, 20);
    c.push_factor = 5;
    let mut barrier = enabled_barrier(c, reference_screen());
    // outside
    assert!(quiet(&barrier.on_mouse_move(500, 500)));
    // a first step into the buffer, too short for the trajectory guard
    let outcome = barrier.on_mouse_move(501, 500);
    assert!(quiet(&outcome));

    let mut c = config(1000, 1100, 200, 100, 20);
    c.push_factor = 5;
    let mut barrier = enabled_barrier(c, reference_screen());
    // the first sample is in the buffer but not in the region
    let outcome = barrier.on_mouse_move(990, 1050);
    assert_eq!(outcome.hit_sound, Some("hit.wav".to_string()));
    assert_eq!(outcome.entry_sound, None);
    assert_eq!(outcome.redirect, Some(Point { x: 975, y: 1050 }));
    // jitter within the buffer: pushed again, no second sound
    let outcome = barrier.on_mouse_move(991, 1050);
    assert_eq!(outcome.hit_sound, None);
    assert_eq!(outcome.entry_sound, None);
    assert_eq!(outcome.redirect, Some(Point { x: 975, y: 1050 }));
    // away, then jitter: nothing happens
    barrier.on_mouse_move(100, 100);
    assert!(quiet(&barrier.on_mouse_move(101, 100)));
}

#[test]
fn a_fast_motion_across_the_barrier_is_stopped_before_it() {
    let mut barrier = enabled_barrier(config(100, 200, 100, 100, 10), reference_screen());
    assert!(quiet(&barrier.on_mouse_move(50, 150)));
    let outcome = barrier.on_mouse_move(250, 150);
    assert_eq!(outcome.redirect, Some(Point { x: 70, y: 150 }));
    assert_eq!(outcome.entry_sound, None);
    assert_eq!(outcome.hit_sound, None);
}

#[test]
fn a_motion_heading_into_the_barrier_is_pushed_at_once() {
    let mut barrier = enabled_barrier(config(1000, 1100, 200, 100, 10), reference_screen());
    assert!(quiet(&barrier.on_mouse_move(900, 1050)));
    // from 900 to 960: no step of the path is in the region, the next sample
    // would be at 1020 and in it. Speed 60 gives a push of 50 * 60 / 25 = 120.
    let outcome = barrier.on_mouse_move(960, 1050);
    assert_eq!(outcome.redirect, Some(Point { x: 870, y: 1050 }));
    assert_eq!(outcome.hit_sound, None);
}

#[test]
fn with_the_barrier_off_motion_is_remembered_and_passed_on() {
    let mut barrier = MouseBarrier::new(config(100, 200, 100, 100, 10), reference_screen());
    // inside the region, but the barrier is off
    assert!(quiet(&barrier.on_mouse_move(150, 150)));
    assert!(quiet(&barrier.on_mouse_move(50, 150)));
    barrier.enable();
    barrier.complete_install(Ok(())).unwrap();
    // the sample taken while the barrier was off is the previous sample now:
    // the path from (50, 150) crosses the region and is stopped before it
    let outcome = barrier.on_mouse_move(250, 150);
    assert_eq!(outcome.redirect, Some(Point { x: 70, y: 150 }));
    barrier.disable();
    assert!(quiet(&barrier.on_mouse_move(150, 150)));
}

#[test]
fn samples_taken_while_off_do_not_move_the_edge_detectors() {
    let mut barrier = MouseBarrier::new(config(100, 200, 100, 100, 10), reference_screen());
    assert!(quiet(&barrier.on_mouse_move(150, 150)));
    barrier.enable();
    barrier.complete_install(Ok(())).unwrap();
    // jitter inside the region: both sounds are still due
    let outcome = barrier.on_mouse_move(151, 150);
    assert_eq!(outcome.entry_sound, Some("entry.wav".to_string()));
    assert_eq!(outcome.hit_sound, Some("hit.wav".to_string()));
    assert!(outcome.redirect.is_some());
}

#[test]
fn a_sample_pushed_for_heading_into_the_barrier_still_sounds() {
    // region {100, 100, 200, 200}, buffer {90, 90, 210, 210}
    let mut barrier = enabled_barrier(config(100, 200, 100, 100, 10), reference_screen());
    assert!(quiet(&barrier.on_mouse_move(60, 150)));
    // (95, 150) is in the buffer, and one step further, (130, 150), is in the
    // region. Speed 35 gives a push of 50 * 35 / 25 = 70 past the left edge.
    let outcome = barrier.on_mouse_move(95, 150);
    assert_eq!(outcome.redirect, Some(Point { x: 20, y: 150 }));
    assert_eq!(outcome.hit_sound, Some("hit.wav".to_string()));
    assert_eq!(outcome.entry_sound, None);
    // the buffer flag is up: jitter within the buffer gives no second sound
    let outcome = barrier.on_mouse_move(96, 150);
    assert_eq!(outcome.hit_sound, None);
    assert_eq!(outcome.redirect, Some(Point { x: 40, y: 150 }));
}

#[test]
fn a_sample_stopped_by_the_trajectory_guard_still_sounds() {
    let mut barrier = enabled_barrier(config(100, 200, 100, 100, 10), reference_screen());
    assert!(quiet(&barrier.on_mouse_move(50, 150)));
    // the path enters the region at step 5 (x = 100); step 4 (x = 90) is in
    // the buffer, step 3 (x = 80) is not. The sample itself is in the region.
    let outcome = barrier.on_mouse_move(150, 150);
    assert_eq!(outcome.redirect, Some(Point { x: 80, y: 150 }));
    assert_eq!(outcome.entry_sound, Some("entry.wav".to_string()));
    assert_eq!(outcome.hit_sound, Some("hit.wav".to_string()));
    // both flags are up: the next sample inside gives no sound
    let outcome = barrier.on_mouse_move(151, 150);
    assert_eq!(outcome.entry_sound, None);
    assert_eq!(outcome.hit_sound, None);
    assert!(outcome.redirect.is_some());
    // out in one leap whose first step is already clear of the region, and
    // in again: the sounds are due again
    assert!(quiet(&barrier.on_mouse_move(151, 1500)));
    let outcome = barrier.on_mouse_move(151, 150);
    assert_eq!(outcome.redirect, Some(Point { x: 151, y: 285 }));
    assert_eq!(outcome.entry_sound, Some("entry.wav".to_string()));
    assert_eq!(outcome.hit_sound, Some("hit.wav".to_string()));
}

#[test]
fn the_barrier_works_on_without_its_overlays() {
    let mut barrier = MouseBarrier::new(config(100, 500, 200, 100, 10), reference_screen());
    let actions = barrier.enable();
    assert_eq!(actions, vec![Action::ShowOverlays, Action::StartMonitor, Action::InstallHook]);
    assert_eq!(barrier.overlays().len(), 4);
    barrier.overlays_failed();
    assert_eq!(barrier.complete_install(Ok(())), Ok(()));
    assert!(barrier.is_enabled());
    assert!(barrier.is_hook_installed());
    assert!(barrier.is_monitoring());
    assert!(barrier.overlays().is_empty());
    assert!(barrier.on_mouse_move(150, 450).redirect.is_some());
    // nothing is on screen, so nothing is destroyed
    assert_eq!(barrier.disable(), vec![Action::StopMonitor, Action::UninstallHook]);
    barrier.overlays_failed();
    assert!(barrier.overlays().is_empty());
    assert!(!barrier.is_enabled());
}
