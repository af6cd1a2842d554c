use deskcharm::hit_test::{
    scan_points, HitLoop, HitState, PointReading, Proximity, TickAction, TickEvent,
    FAST_POLL_DIST_SQ, FAST_POLL_MS, HIT_RADIUS_ENTER, HIT_RADIUS_EXIT, SLOW_POLL_MS,
};

fn reading(within_radius: bool, within_fast_poll: bool) -> PointReading {
    PointReading { within_radius, within_fast_poll }
}

fn visible(force_interactive: bool, near_charm: bool, cursor_close: bool) -> TickEvent {
    TickEvent::WindowVisible {
        force_interactive,
        proximity: Some(Proximity { near_charm, cursor_close }),
    }
}

#[test]
fn hit_state_starts_empty_and_unforced() {
    let s: HitState<(f64, f64)> = HitState::new();
    assert!(s.points().is_empty());
    assert!(!s.force_interactive());
}

#[test]
fn update_hit_points_keeps_forcing_flag() {
    let mut s: HitState<(f64, f64)> = HitState::new();
    s.set_force_interactive(true);
    s.update_hit_points(vec![(1.0, 2.0), (3.5, 4.5)]);
    assert_eq!(s.points(), &vec![(1.0, 2.0), (3.5, 4.5)]);
    assert!(s.force_interactive());
}

#[test]
fn set_force_interactive_keeps_points() {
    let mut s: HitState<(f64, f64)> = HitState::new();
    s.update_hit_points(vec![(10.0, 20.0)]);
    s.set_force_interactive(true);
    assert!(s.force_interactive());
    assert_eq!(s.points(), &vec![(10.0, 20.0)]);
    s.set_force_interactive(false);
    assert!(!s.force_interactive());
    assert_eq!(s.points(), &vec![(10.0, 20.0)]);
}

#[test]
fn scan_of_no_points_is_far() {
    let p = scan_points(&vec![]);
    assert_eq!(p, Proximity { near_charm: false, cursor_close: false });
}

#[test]
fn scan_without_hit_looks_at_every_point() {
    let p = scan_points(&vec![reading(false, false), reading(false, false), reading(false, true)]);
    assert_eq!(p, Proximity { near_charm: false, cursor_close: true });
}

#[test]
fn scan_stops_at_first_hit() {
    // The hit at index 1 ends the scan, so the close point at index 2 is not seen.
    let p = scan_points(&vec![reading(false, false), reading(true, false), reading(false, true)]);
    assert_eq!(p, Proximity { near_charm: true, cursor_close: false });
}

#[test]
fn scan_counts_the_hit_point_itself() {
    let p = scan_points(&vec![reading(false, false), reading(true, true)]);
    assert_eq!(p, Proximity { near_charm: true, cursor_close: true });
}

#[test]
fn scan_counts_close_points_before_the_hit() {
    let p = scan_points(&vec![reading(false, true), reading(true, false)]);
    assert_eq!(p, Proximity { near_charm: true, cursor_close: true });
}

#[test]
fn loop_starts_click_through_and_fast() {
    let l = HitLoop::new();
    assert!(!l.is_interactive());
    assert_eq!(l.sleep_ms(), FAST_POLL_MS);
    assert_eq!(l.hit_radius(), HIT_RADIUS_ENTER);
}

#[test]
fn cursor_near_charm_makes_window_interactive() {
    let mut l = HitLoop::new();
    let a = l.step(visible(false, true, true));
    assert_eq!(a, TickAction::SetIgnoreCursorEvents(false));
    assert!(l.is_interactive());
    assert_eq!(l.sleep_ms(), FAST_POLL_MS);
    assert_eq!(l.hit_radius(), HIT_RADIUS_EXIT);
}

#[test]
fn repeated_tick_is_quiet() {
    let mut l = HitLoop::new();
    let e = visible(false, true, true);
    assert_eq!(l.step(e), TickAction::SetIgnoreCursorEvents(false));
    assert_eq!(l.step(e), TickAction::Nothing);
    assert!(l.is_interactive());
    assert_eq!(l.sleep_ms(), FAST_POLL_MS);
}

#[test]
fn cursor_leaving_makes_window_click_through_again() {
    let mut l = HitLoop::new();
    l.step(visible(false, true, true));
    let a = l.step(visible(false, false, false));
    assert_eq!(a, TickAction::SetIgnoreCursorEvents(true));
    assert!(!l.is_interactive());
    assert_eq!(l.sleep_ms(), SLOW_POLL_MS);
    assert_eq!(l.hit_radius(), HIT_RADIUS_ENTER);
}

#[test]
fn close_but_not_near_polls_fast_without_acting() {
    let mut l = HitLoop::new();
    let a = l.step(visible(false, false, true));
    assert_eq!(a, TickAction::Nothing);
    assert!(!l.is_interactive());
    assert_eq!(l.sleep_ms(), FAST_POLL_MS);
}

#[test]
fn forcing_makes_window_interactive_even_when_far() {
    let mut l = HitLoop::new();
    let a = l.step(visible(true, false, false));
    assert_eq!(a, TickAction::SetIgnoreCursorEvents(false));
    assert!(l.is_interactive());
    assert_eq!(l.sleep_ms(), SLOW_POLL_MS);
}

#[test]
fn unknown_cursor_counts_as_far() {
    let mut l = HitLoop::new();
    l.step(visible(true, false, false));
    let a = l.step(TickEvent::WindowVisible { force_interactive: false, proximity: None });
    assert_eq!(a, TickAction::SetIgnoreCursorEvents(true));
    assert!(!l.is_interactive());
    assert_eq!(l.sleep_ms(), SLOW_POLL_MS);
}

#[test]
fn hidden_window_slows_down_and_keeps_state() {
    let mut l = HitLoop::new();
    l.step(visible(false, true, true));
    let a = l.step(TickEvent::WindowHidden);
    assert_eq!(a, TickAction::Nothing);
    assert!(l.is_interactive());
    assert_eq!(l.sleep_ms(), SLOW_POLL_MS);
}

#[test]
fn missing_window_changes_nothing() {
    let mut l = HitLoop::new();
    l.step(TickEvent::WindowHidden);
    let a = l.step(TickEvent::WindowMissing);
    assert_eq!(a, TickAction::Nothing);
    assert!(!l.is_interactive());
    assert_eq!(l.sleep_ms(), SLOW_POLL_MS);
}

#[test]
fn radii_fit_inside_fast_poll_distance() {
    assert!(HIT_RADIUS_ENTER < HIT_RADIUS_EXIT);
    assert!(HIT_RADIUS_EXIT * HIT_RADIUS_EXIT < FAST_POLL_DIST_SQ);
    assert_eq!(HIT_RADIUS_ENTER, 42);
    assert_eq!(HIT_RADIUS_EXIT, 58);
    assert_eq!(FAST_POLL_DIST_SQ, 25000);
}

#[test]
fn near_scan_switches_to_fast_polling() {
    // Every point within the radius is within the fast-poll distance.
    let readings = vec![reading(false, false), reading(true, true), reading(true, true)];
    let p = scan_points(&readings);
    assert!(p.near_charm && p.cursor_close);
    let mut l = HitLoop::new();
    l.step(TickEvent::WindowHidden);
    l.step(TickEvent::WindowVisible { force_interactive: false, proximity: Some(p) });
    assert_eq!(l.sleep_ms(), FAST_POLL_MS);
}

#[test]
fn window_flag_follows_loop_through_a_session() {
    let mut l = HitLoop::new();
    // At start-up the window is set to ignore the cursor.
    let mut ignoring = true;
    let events = [
        visible(false, false, true),
        visible(false, true, true),
        TickEvent::WindowHidden,
        TickEvent::WindowMissing,
        visible(true, false, false),
        visible(false, false, false),
        TickEvent::WindowVisible { force_interactive: false, proximity: None },
        visible(false, true, false),
    ];
    for e in events {
        if let TickAction::SetIgnoreCursorEvents(b) = l.step(e) {
            ignoring = b;
        }
        assert_eq!(ignoring, !l.is_interactive());
    }
}
