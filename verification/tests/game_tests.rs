use phi_arcade::data::Rectangle;
use phi_arcade::events::InputEvent;
use phi_arcade::events::KeyCode;
use phi_arcade::game::Asteroid;
use phi_arcade::game::Background;
use phi_arcade::game::Bullet;
use phi_arcade::game::CannonType;
use phi_arcade::game::RectBullet;
use phi_arcade::game::ShipFrame;
use phi_arcade::game::ShipView;
use phi_arcade::game::SineBullet;
use phi_arcade::game::update_bullets;
use phi_arcade::phi::FrameOutcome;
use phi_arcade::phi::Session;
use phi_arcade::phi::ViewState;
use phi_arcade::rng::Lcg;

const VIEW_W: i64 = 800000;
const VIEW_H: i64 = 600000;

fn game_view(rng: &mut Lcg) -> ShipView {
    ShipView::new(VIEW_W, VIEW_H, 100000, 120000, 140000, rng)
}

fn rect_bullet_at(x: i64, y: i64) -> Bullet {
    Bullet::Rect(RectBullet { rect: Rectangle { x, y, w: 8000, h: 4000 } })
}

#[test]
fn rect_bullet_advances_linearly() {
    let b = RectBullet { rect: Rectangle { x: 10000, y: 0, w: 8000, h: 4000 } };
    let split = b.update(500, VIEW_W).unwrap().update(1500, VIEW_W).unwrap();
    let whole = b.update(2000, VIEW_W).unwrap();
    assert_eq!(split, whole);
    assert_eq!(whole.rect.x, 10000 + 240 * 2000);
}

#[test]
fn rect_bullet_offscreen_is_removed() {
    let b = RectBullet { rect: Rectangle { x: 94000, y: 0, w: 8000, h: 4000 } };
    assert_eq!(b.update(3000, VIEW_W), None);
}

#[test]
fn spawned_volley_dies_at_814_pixels() {
    let mut rng = Lcg::new(1);
    let view = game_view(&mut rng);
    let volley = view.player.spawn_bullets();
    assert_eq!(volley.len(), 2);
    for b in volley {
        match b {
            Bullet::Rect(rb) => {
                assert_eq!(rb.rect.x, 94000);
                assert_eq!(rb.update(3000, VIEW_W), None);
            }
            Bullet::Sine(_) => panic!("default cannon is the straight one"),
        }
    }
}

#[test]
fn sine_bullet_rect_derivation_is_idempotent() {
    let b = SineBullet {
        pos_x: 123000,
        origin_y: 88000,
        amplitude: 10000,
        angular_vel: 15000,
        total_time: 777,
    };
    assert_eq!(b.rect(), b.rect());
}

#[test]
fn sine_bullet_rect_known_values() {
    let at_spawn = SineBullet {
        pos_x: 94000,
        origin_y: 70000,
        amplitude: 10000,
        angular_vel: 15000,
        total_time: 0,
    };
    let r0 = at_spawn.rect();
    assert_eq!(r0, Rectangle { x: 94000, y: 70000, w: 8000, h: 4000 });
    // 105 ms at 15 rad/s is 1575 mrad, just past a quarter turn.
    let quarter = SineBullet { total_time: 105, ..at_spawn };
    assert_eq!(quarter.rect().y, 70000 + 9990);
}

#[test]
fn sine_bullet_moves_at_bullet_speed() {
    let b = SineBullet {
        pos_x: 94000,
        origin_y: 70000,
        amplitude: 10000,
        angular_vel: 15000,
        total_time: 0,
    };
    let b2 = b.update(1000, VIEW_W).unwrap();
    assert_eq!(b2.pos_x, 94000 + 240000);
    assert_eq!(b2.total_time, 1000);
    assert_eq!(b.update(3000, VIEW_W), None);
}

#[test]
fn pipeline_culls_exactly_the_offscreen_bullet() {
    let bullets = vec![
        rect_bullet_at(100000, 0),
        rect_bullet_at(VIEW_W, 10000),
        rect_bullet_at(200000, 20000),
    ];
    let out = update_bullets(bullets, 1000, VIEW_W);
    assert_eq!(out.len(), 2);
    assert_eq!(out[0], rect_bullet_at(100000 + 240000, 0));
    assert_eq!(out[1], rect_bullet_at(200000 + 240000, 20000));
}

#[test]
fn pipeline_keeps_empty_collection_empty() {
    let out = update_bullets(Vec::new(), 1000, VIEW_W);
    assert!(out.is_empty());
}

#[test]
fn asteroid_reset_lands_on_right_edge() {
    let mut rng = Lcg::new(42);
    let mut a = Asteroid::new(VIEW_W, VIEW_H, &mut rng);
    a.rect = Rectangle { x: -96100, y: 100000, w: 96000, h: 96000 };
    a.vel = 100;
    a.update(16, VIEW_W, VIEW_H, &mut rng);
    assert_eq!(a.rect.x, VIEW_W);
    assert!((50..150).contains(&a.vel));
    assert!((0..VIEW_H - 96000).contains(&a.rect.y));
    assert!((10..30).contains(&(a.sprite.fps as i64)));
}

#[test]
fn asteroid_on_screen_just_drifts() {
    let mut rng = Lcg::new(42);
    let mut a = Asteroid::new(VIEW_W, VIEW_H, &mut rng);
    a.rect = Rectangle { x: 500000, y: 100000, w: 96000, h: 96000 };
    a.vel = 100;
    let state_before = rng;
    a.update(250, VIEW_W, VIEW_H, &mut rng);
    assert_eq!(a.rect.x, 500000 - 100 * 250);
    assert_eq!(a.vel, 100);
    assert_eq!(rng, state_before);
}

#[test]
fn asteroid_sheet_has_143_cells_in_reading_order() {
    let sp = Asteroid::get_sprite(10);
    assert_eq!(sp.frames.len(), 143);
    assert_eq!(sp.frames[0], Rectangle { x: 0, y: 0, w: 96000, h: 96000 });
    assert_eq!(sp.frames[22], Rectangle { x: 96000, y: 96000, w: 96000, h: 96000 });
    assert_eq!(sp.frames[142], Rectangle { x: 16 * 96000, y: 6 * 96000, w: 96000, h: 96000 });
}

#[test]
fn background_scrolls_and_wraps() {
    let mut bg = Background::new(20, 100000);
    bg.update(6000);
    assert_eq!(bg.pos, 20000);
    assert_eq!(bg.width, 100000);
}

#[test]
fn ship_view_moves_right_at_player_speed() {
    let mut rng = Lcg::new(3);
    let mut view = game_view(&mut rng);
    let mut session = Session::new(ViewState::Game(view));
    let o = session.frame(
        &vec![InputEvent::KeyDown(KeyCode::Right)],
        1000,
        VIEW_W,
        VIEW_H,
        &mut rng,
    );
    assert_eq!(o, FrameOutcome::Present);
    match &session.view {
        ViewState::Game(g) => {
            assert_eq!(g.player.rect.x, 64000 + 180000);
            assert_eq!(g.player.rect.y, 64000);
            assert_eq!(g.player.current, ShipFrame::MidFast);
        }
        ViewState::Plain(_) => panic!("view must not change"),
    }
    view = ShipView::new(VIEW_W, VIEW_H, 100000, 120000, 140000, &mut rng);
    assert_eq!(view.player.current, ShipFrame::MidNorm);
}

#[test]
fn ship_view_diagonal_movement_is_scaled() {
    let mut rng = Lcg::new(3);
    let view = game_view(&mut rng);
    let mut session = Session::new(ViewState::Game(view));
    let o = session.frame(
        &vec![InputEvent::KeyDown(KeyCode::Up), InputEvent::KeyDown(KeyCode::Right)],
        1000,
        VIEW_W,
        VIEW_H,
        &mut rng,
    );
    assert_eq!(o, FrameOutcome::Present);
    match &session.view {
        ViewState::Game(g) => {
            // 180 px over one second, scaled by 7071/10000, in milli-pixels.
            assert_eq!(g.player.rect.x, 64000 + 127278);
            // The upward move overshoots the top edge and is clamped back.
            assert_eq!(g.player.rect.y, 0);
            assert_eq!(g.player.current, ShipFrame::UpFast);
        }
        ViewState::Plain(_) => panic!("view must not change"),
    }
}

#[test]
fn ship_view_shoots_one_volley_per_space_edge() {
    let mut rng = Lcg::new(9);
    let view = game_view(&mut rng);
    let mut session = Session::new(ViewState::Game(view));
    session.frame(&vec![InputEvent::KeyDown(KeyCode::Space)], 16, VIEW_W, VIEW_H, &mut rng);
    match &session.view {
        ViewState::Game(g) => assert_eq!(g.bullets.len(), 2),
        ViewState::Plain(_) => panic!("view must not change"),
    }
    // Holding the key adds nothing: shooting is edge-triggered.
    session.frame(&vec![], 16, VIEW_W, VIEW_H, &mut rng);
    match &session.view {
        ViewState::Game(g) => {
            assert_eq!(g.bullets.len(), 2);
            match g.bullets[0] {
                Bullet::Rect(_) => {}
                Bullet::Sine(_) => panic!("default cannon is the straight one"),
            }
        }
        ViewState::Plain(_) => panic!("view must not change"),
    }
}

#[test]
fn ship_view_opposite_keys_cancel() {
    let mut rng = Lcg::new(3);
    let view = game_view(&mut rng);
    let mut session = Session::new(ViewState::Game(view));
    session.frame(
        &vec![
            InputEvent::KeyDown(KeyCode::Left),
            InputEvent::KeyDown(KeyCode::Right),
            InputEvent::KeyDown(KeyCode::Up),
            InputEvent::KeyDown(KeyCode::Down),
        ],
        1000,
        VIEW_W,
        VIEW_H,
        &mut rng,
    );
    match &session.view {
        ViewState::Game(g) => {
            assert_eq!(g.player.rect.x, 64000);
            assert_eq!(g.player.rect.y, 64000);
            assert_eq!(g.player.current, ShipFrame::MidNorm);
        }
        ViewState::Plain(_) => panic!("view must not change"),
    }
}

#[test]
fn ship_view_switches_cannon_on_number_key() {
    let mut rng = Lcg::new(9);
    let view = game_view(&mut rng);
    let mut session = Session::new(ViewState::Game(view));
    session.frame(&vec![InputEvent::KeyDown(KeyCode::Num2)], 16, VIEW_W, VIEW_H, &mut rng);
    session.frame(&vec![InputEvent::KeyDown(KeyCode::Space)], 16, VIEW_W, VIEW_H, &mut rng);
    match &session.view {
        ViewState::Game(g) => {
            assert_eq!(
                g.player.cannon,
                CannonType::SineBullet { amplitude: 10000, angular_vel: 15000 }
            );
            assert_eq!(g.bullets.len(), 2);
            match g.bullets[0] {
                Bullet::Sine(sb) => assert_eq!(sb.total_time, 0),
                Bullet::Rect(_) => panic!("selected cannon is the sine one"),
            }
        }
        ViewState::Plain(_) => panic!("view must not change"),
    }
}

#[test]
fn ship_view_switches_cannon_back() {
    let mut rng = Lcg::new(9);
    let view = game_view(&mut rng);
    let mut session = Session::new(ViewState::Game(view));
    session.frame(&vec![InputEvent::KeyDown(KeyCode::Num2)], 16, VIEW_W, VIEW_H, &mut rng);
    session.frame(&vec![InputEvent::KeyUp(KeyCode::Num2)], 16, VIEW_W, VIEW_H, &mut rng);
    session.frame(&vec![InputEvent::KeyDown(KeyCode::Num1)], 16, VIEW_W, VIEW_H, &mut rng);
    match &session.view {
        ViewState::Game(g) => assert_eq!(g.player.cannon, CannonType::RectBullet),
        ViewState::Plain(_) => panic!("view must not change"),
    }
}

#[test]
fn escape_swaps_game_view_and_never_returns_to_it() {
    let mut rng = Lcg::new(5);
    let view = game_view(&mut rng);
    let mut session = Session::new(ViewState::Game(view));
    let o = session.frame(
        &vec![InputEvent::KeyDown(KeyCode::Escape)],
        16,
        VIEW_W,
        VIEW_H,
        &mut rng,
    );
    assert_eq!(o, FrameOutcome::Swapped);
    match &session.view {
        ViewState::Plain(_) => {}
        ViewState::Game(_) => panic!("the game view must be replaced"),
    }
    // The next frame is dispatched to the installed view; escape is still
    // held but no longer a fresh edge, so the opening view continues.
    let o2 = session.frame(&vec![], 16, VIEW_W, VIEW_H, &mut rng);
    assert_eq!(o2, FrameOutcome::Present);
    match &session.view {
        ViewState::Plain(_) => {}
        ViewState::Game(_) => panic!("the opening view must stay"),
    }
}

#[test]
fn quit_event_stops_the_session() {
    let mut rng = Lcg::new(5);
    let view = game_view(&mut rng);
    let mut session = Session::new(ViewState::Game(view));
    let o = session.frame(&vec![InputEvent::Quit], 16, VIEW_W, VIEW_H, &mut rng);
    assert_eq!(o, FrameOutcome::Stop);
}

#[test]
fn plain_view_quits_on_escape_edge() {
    let mut rng = Lcg::new(5);
    let mut session = Session::new(ViewState::Plain(phi_arcade::views::ShipView::new()));
    let o = session.frame(&vec![], 16, VIEW_W, VIEW_H, &mut rng);
    assert_eq!(o, FrameOutcome::Present);
    let o2 = session.frame(
        &vec![InputEvent::KeyDown(KeyCode::Escape)],
        16,
        VIEW_W,
        VIEW_H,
        &mut rng,
    );
    assert_eq!(o2, FrameOutcome::Stop);
}
