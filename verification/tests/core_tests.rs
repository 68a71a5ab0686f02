use phi_arcade::data::Rectangle;
use phi_arcade::events::Events;
use phi_arcade::events::InputEvent;
use phi_arcade::events::KeyCode;
use phi_arcade::gfx::AnimatedSprite;
use phi_arcade::phi::FrameClock;
use phi_arcade::phi::Pace;
use phi_arcade::rng::Lcg;
use phi_arcade::trig::sin_milli;

fn square(side: i64) -> Rectangle {
    Rectangle { x: 0, y: 0, w: side, h: side }
}

#[test]
fn clamp_identity_when_inside() {
    let r = Rectangle { x: 10000, y: 20000, w: 30000, h: 40000 };
    let bounds = Rectangle { x: 0, y: 0, w: 800000, h: 600000 };
    assert_eq!(r.clamp_inside(bounds), Some(r));
}

#[test]
fn clamp_pulls_back_into_bounds() {
    let bounds = Rectangle { x: 0, y: 0, w: 560000, h: 600000 };
    let r = Rectangle { x: -5000, y: 700000, w: 43000, h: 39000 };
    let c = r.clamp_inside(bounds).unwrap();
    assert_eq!(c.x, 0);
    assert_eq!(c.y, 600000 - 39000);
    assert_eq!(c.w, 43000);
    assert_eq!(c.h, 39000);
}

#[test]
fn clamp_result_within_origin_box() {
    let bounds = Rectangle { x: 0, y: 0, w: 560000, h: 600000 };
    for &(x, y) in &[(-900000i64, -900000i64), (0, 0), (517000, 561000), (900000, 900000)] {
        let r = Rectangle { x, y, w: 43000, h: 39000 };
        let c = r.clamp_inside(bounds).unwrap();
        assert!(0 <= c.x && c.x <= bounds.w - r.w);
        assert!(0 <= c.y && c.y <= bounds.h - r.h);
    }
}

#[test]
fn clamp_fails_when_too_large() {
    let bounds = Rectangle { x: 0, y: 0, w: 100000, h: 100000 };
    assert_eq!(square(100001).clamp_inside(bounds), None);
    assert_eq!(square(100000).clamp_inside(bounds), Some(square(100000)));
}

#[test]
fn key_down_sets_held_and_just_pressed() {
    let mut e = Events::new();
    e.pump(&vec![InputEvent::KeyDown(KeyCode::Space)]);
    assert!(e.held(KeyCode::Space));
    assert!(e.just_pressed(KeyCode::Space));
}

#[test]
fn idle_pump_keeps_held_but_clears_edge() {
    let mut e = Events::new();
    e.pump(&vec![InputEvent::KeyDown(KeyCode::Space)]);
    e.pump(&vec![]);
    assert!(e.held(KeyCode::Space));
    assert!(!e.just_pressed(KeyCode::Space));
}

#[test]
fn key_up_clears_level_state() {
    let mut e = Events::new();
    e.pump(&vec![InputEvent::KeyDown(KeyCode::Left)]);
    e.pump(&vec![InputEvent::KeyUp(KeyCode::Left)]);
    assert!(!e.held(KeyCode::Left));
    assert!(!e.just_pressed(KeyCode::Left));
}

#[test]
fn keys_without_events_keep_their_state() {
    let mut e = Events::new();
    e.pump(&vec![InputEvent::KeyDown(KeyCode::Up), InputEvent::KeyDown(KeyCode::Right)]);
    e.pump(&vec![InputEvent::KeyUp(KeyCode::Up)]);
    assert!(!e.held(KeyCode::Up));
    assert!(e.held(KeyCode::Right));
}

#[test]
fn quit_flag_is_sticky() {
    let mut e = Events::new();
    assert!(!e.quit);
    e.pump(&vec![InputEvent::Quit]);
    assert!(e.quit);
    e.pump(&vec![]);
    assert!(e.quit);
}

#[test]
fn animation_selects_frame_by_time() {
    let frames = vec![square(1000); 4];
    let mut sp = AnimatedSprite::with_fps(frames, 10);
    assert_eq!(sp.current_frame_index(), 0);
    sp.add_time(250);
    assert_eq!(sp.current_frame_index(), 2);
    sp.add_time(150);
    assert_eq!(sp.current_frame_index(), 0);
}

#[test]
fn animation_zero_fps_freezes_at_first_frame() {
    let frames = vec![square(1000); 4];
    let mut sp = AnimatedSprite::with_fps(frames, 0);
    sp.add_time(10000);
    assert_eq!(sp.current_frame_index(), 0);
}

#[test]
fn animation_rate_change_keeps_accumulator() {
    let frames = vec![square(1000); 4];
    let mut sp = AnimatedSprite::with_fps(frames, 10);
    sp.add_time(250);
    sp.set_fps(20);
    assert_eq!(sp.acc_ms, 250);
    assert_eq!(sp.current_frame_index(), 1);
}

#[test]
fn animation_accumulator_wraps_full_cycles() {
    let frames = vec![square(1000); 4];
    let mut sp = AnimatedSprite::with_fps(frames, 10);
    sp.add_time(250 + 4000);
    assert_eq!(sp.acc_ms, 250);
    assert_eq!(sp.current_frame_index(), 2);
}

#[test]
fn rng_range_respects_bounds() {
    let mut rng = Lcg::new(12345);
    for _ in 0..200 {
        let v = rng.in_range(50, 150);
        assert!((50..150).contains(&v));
    }
}

#[test]
fn rng_is_deterministic_from_seed() {
    let mut a = Lcg::new(7);
    let mut b = Lcg::new(7);
    for _ in 0..10 {
        assert_eq!(a.next(), b.next());
    }
}

#[test]
fn sine_fixed_point_known_values() {
    assert_eq!(sin_milli(0), 0);
    assert_eq!(sin_milli(1571), 999);
    assert_eq!(sin_milli(3141), 0);
    assert_eq!(sin_milli(4712), -999);
    assert_eq!(sin_milli(6282), 0);
}

#[test]
fn clock_waits_out_short_frames() {
    let mut c = FrameClock::new(16, 1000);
    match c.tick(1008) {
        Pace::Wait { delay } => assert_eq!(delay, 8),
        Pace::Run { .. } => panic!("frame ran early"),
    }
    match c.tick(1016) {
        Pace::Run { elapsed, fps_report } => {
            assert_eq!(elapsed, 16);
            assert_eq!(fps_report, None);
        }
        Pace::Wait { .. } => panic!("frame did not run"),
    }
}

#[test]
fn clock_reports_frame_count_after_a_second() {
    let mut c = FrameClock::new(16, 0);
    match c.tick(1100) {
        Pace::Run { elapsed, fps_report } => {
            assert_eq!(elapsed, 1100);
            assert_eq!(fps_report, Some(1));
        }
        Pace::Wait { .. } => panic!("frame did not run"),
    }
    assert_eq!(c.fps_count, 0);
    assert_eq!(c.last_second, 1100);
}
