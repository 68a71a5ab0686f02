use vstd::prelude::*;
use crate::data::Rectangle;
use crate::data::MAX_COORD;
use crate::data::MAX_DT;
use crate::data::MAX_SPEED;
use crate::events::Events;
use crate::events::KeyCode;
use crate::gfx::AnimatedSprite;
use crate::gfx::grid_cell;
use crate::gfx::grid_regions;
use crate::gfx::MAX_FPS;
use crate::phi::ViewAction;
use crate::phi::ViewState;
use crate::rng::Lcg;
use crate::rng::lcg_next;
use crate::rng::lcg_in_range;
use crate::trig::spec_sin_milli;
use crate::trig::sin_milli;

verus! {

/// Columns of the asteroid sprite sheet.
pub const ASTEROID_WIDE: usize = 21;

/// Rows of the asteroid sprite sheet.
pub const ASTEROID_HIGH: usize = 7;

/// Frames of the asteroid animation; the sheet's last row is four cells
/// short.
pub const ASTEROID_TOTAL: usize = ASTEROID_WIDE * ASTEROID_HIGH - 4;

/// Side of the square asteroid, in milli-pixels.
pub const ASTEROID_SIDE: i64 = 96000;

/// Pixels traveled by the player's ship every second, when it is moving.
pub const PLAYER_SPEED: i64 = 180;

/// The velocity shared by all bullets, in pixels per second.
pub const BULLET_SPEED: i64 = 240;

/// Extents of the ship sprite, in milli-pixels.
pub const SHIP_W: i64 = 43000;

/// Extents of the ship sprite, in milli-pixels.
pub const SHIP_H: i64 = 39000;

/// Extents of the rectangle which represents a bullet, in milli-pixels.
pub const BULLET_W: i64 = 8000;

/// Extents of the rectangle which represents a bullet, in milli-pixels.
pub const BULLET_H: i64 = 4000;

/// Upper bound on a sine cannon's amplitude, in milli-pixels.
pub const MAX_AMPLITUDE: i64 = 0x10_0000;

/// Upper bound on a sine cannon's angular velocity, in milliradians per
/// second.
pub const MAX_ANGULAR_VEL: i64 = 0x10_0000;

/// Upper bound on a sine bullet's accumulated flight time, in milliseconds.
pub const MAX_TOTAL_TIME: i64 = 0x8_0000_0000;

/// A bullet that flies in a straight line along `+x`.
#[derive(Clone, Copy, Debug, PartialEq, Eq, Structural)]
pub struct RectBullet {
    pub rect: Rectangle,
}

impl RectBullet {
    pub open spec fn wf(self) -> bool {
        &&& self.rect.wf()
        &&& self.rect.w == BULLET_W
        &&& self.rect.h == BULLET_H
    }

    /// The bullet `dt` milliseconds later: advanced linearly along `+x` at
    /// the shared bullet speed.
    pub open spec fn advanced(self, dt: i64) -> RectBullet {
        RectBullet {
            rect: Rectangle { x: (self.rect.x + BULLET_SPEED * dt) as i64, ..self.rect },
        }
    }

    /// Advances the bullet and culls it the instant its position passes the
    /// viewport's right edge: the result is the advanced bullet exactly when
    /// that stays at or left of the edge, and nothing otherwise.
    pub fn update(self, dt: i64, viewport_w: i64) -> (r: Option<RectBullet>)
        requires
            self.wf(),
            0 <= dt <= MAX_DT,
            0 < viewport_w <= MAX_COORD,
        ensures
            r is Some <==> self.rect.x + BULLET_SPEED * dt <= viewport_w,
            r is Some ==> r == Some(self.advanced(dt)),
            r matches Some(b) ==> b.wf() && b.rect.x <= viewport_w && b.rect.x == self.rect.x
                + BULLET_SPEED * dt,
    {
        let x2: i64 = self.rect.x + BULLET_SPEED * dt;
        if x2 > viewport_w {
            None
        } else {
            Some(RectBullet { rect: Rectangle { x: x2, ..self.rect } })
        }
    }

    /// The bullet's bounding box: exactly the stored rectangle.
    pub fn rect(&self) -> (r: Rectangle)
        ensures
            r == self.rect,
    {
        self.rect
    }
}

/// A bullet whose `x` advances linearly while its `y` is derived, never
/// stored: a sinusoidal offset from the spawn row as a pure function of the
/// accumulated flight time.
#[derive(Clone, Copy, Debug, PartialEq, Eq, Structural)]
pub struct SineBullet {
    pub pos_x: i64,
    pub origin_y: i64,
    pub amplitude: i64,
    pub angular_vel: i64,
    pub total_time: i64,
}

impl SineBullet {
    pub open spec fn wf(self) -> bool {
        &&& -MAX_COORD <= self.pos_x <= MAX_COORD
        &&& -MAX_COORD <= self.origin_y <= MAX_COORD
        &&& 0 <= self.amplitude <= MAX_AMPLITUDE
        &&& 0 <= self.angular_vel <= MAX_ANGULAR_VEL
        &&& 0 <= self.total_time <= MAX_TOTAL_TIME
        &&& BULLET_SPEED * self.total_time <= self.pos_x + MAX_COORD
    }

    /// The phase of the oscillation, in milliradians.
    pub open spec fn phase(self) -> int {
        self.angular_vel * self.total_time / 1000
    }

    /// The vertical offset from the spawn row, in milli-pixels, rounded
    /// toward zero.
    pub open spec fn offset_y(self) -> int {
        let scaled = self.amplitude * spec_sin_milli(self.phase());
        if scaled >= 0 {
            scaled / 1000
        } else {
            -((-scaled) / 1000)
        }
    }

    /// The bullet's bounding box, derived from the accumulated time alone:
    /// the same state always yields the same box.
    pub open spec fn spec_rect(self) -> Rectangle {
        Rectangle {
            x: self.pos_x,
            y: (self.origin_y + self.offset_y()) as i64,
            w: BULLET_W,
            h: BULLET_H,
        }
    }

    /// The bullet `dt` milliseconds later: flight time accumulated and `x`
    /// advanced at the shared bullet speed.
    pub open spec fn advanced(self, dt: i64) -> SineBullet {
        SineBullet {
            pos_x: (self.pos_x + BULLET_SPEED * dt) as i64,
            total_time: (self.total_time + dt) as i64,
            ..self
        }
    }

    /// Computes the bounding box. Derivation is idempotent: no field is
    /// touched, and the result is a pure function of the bullet's state.
    pub fn rect(&self) -> (r: Rectangle)
        requires
            self.wf(),
        ensures
            r == self.spec_rect(),
    {
        proof {
            assert(0 <= self.angular_vel * self.total_time <= MAX_ANGULAR_VEL * MAX_TOTAL_TIME)
                by (nonlinear_arith)
                requires
                    0 <= self.angular_vel <= MAX_ANGULAR_VEL,
                    0 <= self.total_time <= MAX_TOTAL_TIME,
            ;
        }
        let angle: i64 = self.angular_vel * self.total_time / 1000;
        let s: i64 = sin_milli(angle);
        proof {
            assert(s >= 0 ==> self.amplitude * s >= 0) by (nonlinear_arith)
                requires
                    self.amplitude >= 0,
            ;
            assert(s < 0 ==> self.amplitude * s <= 0) by (nonlinear_arith)
                requires
                    self.amplitude >= 0,
            ;
            assert(0 <= self.amplitude * 1000 <= MAX_AMPLITUDE * 1000) by (nonlinear_arith)
                requires
                    0 <= self.amplitude <= MAX_AMPLITUDE,
            ;
            assert(-(MAX_AMPLITUDE * 1000) <= self.amplitude * s <= MAX_AMPLITUDE * 1000)
                by (nonlinear_arith)
                requires
                    0 <= self.amplitude <= MAX_AMPLITUDE,
                    -1000 <= s <= 1000,
            ;
            assert(-(MAX_AMPLITUDE * 1000) <= self.amplitude * (-s) <= MAX_AMPLITUDE * 1000)
                by (nonlinear_arith)
                requires
                    0 <= self.amplitude <= MAX_AMPLITUDE,
                    -1000 <= s <= 1000,
            ;
        }
        let dy: i64 = if s >= 0 {
            self.amplitude * s / 1000
        } else {
            -(self.amplitude * (-s) / 1000)
        };
        proof {
            assert(self.amplitude * (-s) == -(self.amplitude * s)) by (nonlinear_arith);
        }
        Rectangle { x: self.pos_x, y: self.origin_y + dy, w: BULLET_W, h: BULLET_H }
    }

    /// Advances the bullet and culls it by the derived box's `x`, with the
    /// same threshold as a straight bullet.
    pub fn update(self, dt: i64, viewport_w: i64) -> (r: Option<SineBullet>)
        requires
            self.wf(),
            0 <= dt <= MAX_DT,
            0 < viewport_w <= MAX_COORD,
        ensures
            r is Some <==> self.pos_x + BULLET_SPEED * dt <= viewport_w,
            r is Some ==> r == Some(self.advanced(dt)),
            r matches Some(b) ==> b.wf() && b.pos_x <= viewport_w && b.pos_x == self.pos_x
                + BULLET_SPEED * dt && b.total_time == self.total_time + dt,
    {
        let x2: i64 = self.pos_x + BULLET_SPEED * dt;
        if x2 > viewport_w {
            None
        } else {
            let b = SineBullet { pos_x: x2, total_time: self.total_time + dt, ..self };
            proof {
                assert(BULLET_SPEED * (self.total_time + dt) == BULLET_SPEED * self.total_time
                    + BULLET_SPEED * dt) by (nonlinear_arith);
            }
            Some(b)
        }
    }
}

/// Derivation of a sine bullet's bounding box is idempotent: the box is a
/// pure function of the bullet's stored state, so deriving it twice
/// without an intervening update yields identical rectangles.
pub proof fn lemma_sine_rect_derivation_pure(b1: SineBullet, b2: SineBullet)
    requires
        b1 == b2,
    ensures
        b1.spec_rect() == b2.spec_rect(),
{
}

/// The closed set of bullet variants. The variant is fixed at construction:
/// an update never turns one variant into the other.
#[derive(Clone, Copy, Debug, PartialEq, Eq, Structural)]
pub enum Bullet {
    Rect(RectBullet),
    Sine(SineBullet),
}

impl Bullet {
    pub open spec fn wf(self) -> bool {
        match self {
            Bullet::Rect(b) => b.wf(),
            Bullet::Sine(b) => b.wf(),
        }
    }

    /// The `x` position that drives culling: the leading edge of the
    /// bullet's bounding box.
    pub open spec fn spec_x(self) -> i64 {
        match self {
            Bullet::Rect(b) => b.rect.x,
            Bullet::Sine(b) => b.pos_x,
        }
    }

    /// The bullet's bounding box.
    pub open spec fn spec_rect(self) -> Rectangle {
        match self {
            Bullet::Rect(b) => b.rect,
            Bullet::Sine(b) => b.spec_rect(),
        }
    }

    /// What one update step does: the bullet advanced by `dt` when it stays
    /// at or left of the viewport's right edge, nothing when it has left the
    /// screen.
    pub open spec fn updated(self, dt: i64, viewport_w: i64) -> Option<Bullet> {
        if self.spec_x() + BULLET_SPEED * dt <= viewport_w {
            match self {
                Bullet::Rect(b) => Some(Bullet::Rect(b.advanced(dt))),
                Bullet::Sine(b) => Some(Bullet::Sine(b.advanced(dt))),
            }
        } else {
            None
        }
    }

    /// Consumes the bullet and returns its advanced self, or nothing the
    /// instant it has left the screen — the caller removes it, there is no
    /// grace frame.
    pub fn update(self, dt: i64, viewport_w: i64) -> (r: Option<Bullet>)
        requires
            self.wf(),
            0 <= dt <= MAX_DT,
            0 < viewport_w <= MAX_COORD,
        ensures
            r == self.updated(dt, viewport_w),
            r is Some <==> self.spec_x() + BULLET_SPEED * dt <= viewport_w,
            r matches Some(b) ==> b.wf() && b.spec_x() <= viewport_w,
    {
        match self {
            Bullet::Rect(b) => match b.update(dt, viewport_w) {
                Some(b2) => Some(Bullet::Rect(b2)),
                None => None,
            },
            Bullet::Sine(b) => match b.update(dt, viewport_w) {
                Some(b2) => Some(Bullet::Sine(b2)),
                None => None,
            },
        }
    }

    /// The bullet's bounding box.
    pub fn rect(&self) -> (r: Rectangle)
        requires
            self.wf(),
        ensures
            r == self.spec_rect(),
    {
        match self {
            Bullet::Rect(b) => b.rect(),
            Bullet::Sine(b) => b.rect(),
        }
    }
}

/// The bullets that survive one update pass over `s`, each advanced by
/// `dt`, in their original relative order.
pub open spec fn surviving(s: Seq<Bullet>, dt: i64, viewport_w: i64) -> Seq<Bullet>
    decreases s.len(),
{
    if s.len() == 0 {
        Seq::empty()
    } else {
        let rest = surviving(s.drop_first(), dt, viewport_w);
        match s[0].updated(dt, viewport_w) {
            Some(b) => seq![b] + rest,
            None => rest,
        }
    }
}

/// One pass of the entity update pipeline: every bullet is updated with
/// exclusive ownership, and the collection is rebuilt from the survivors
/// alone, preserving their relative order.
pub fn update_bullets(bullets: Vec<Bullet>, dt: i64, viewport_w: i64) -> (r: Vec<Bullet>)
    requires
        forall|i: int| 0 <= i < bullets@.len() ==> bullets@[i].wf(),
        0 <= dt <= MAX_DT,
        0 < viewport_w <= MAX_COORD,
    ensures
        r@ == surviving(bullets@, dt, viewport_w),
        forall|i: int| 0 <= i < r@.len() ==> r@[i].wf() && r@[i].spec_x() <= viewport_w,
{
    let n = bullets.len();
    let mut r: Vec<Bullet> = Vec::new();
    let mut i: usize = 0;
    proof {
        assert(bullets@.subrange(0, n as int) =~= bullets@);
        assert(Seq::<Bullet>::empty() + surviving(bullets@, dt, viewport_w) =~= surviving(
            bullets@,
            dt,
            viewport_w,
        ));
    }
    while i < n
        invariant
            0 <= i <= n,
            n == bullets@.len(),
            forall|j: int| 0 <= j < bullets@.len() ==> bullets@[j].wf(),
            0 <= dt <= MAX_DT,
            0 < viewport_w <= MAX_COORD,
            surviving(bullets@, dt, viewport_w) == r@ + surviving(
                bullets@.subrange(i as int, n as int),
                dt,
                viewport_w,
            ),
            forall|j: int| 0 <= j < r@.len() ==> r@[j].wf() && r@[j].spec_x() <= viewport_w,
        decreases n - i,
    {
        let ghost tail = bullets@.subrange(i as int, n as int);
        proof {
            assert(tail.len() > 0);
            assert(tail[0] == bullets@[i as int]);
            assert(tail.drop_first() =~= bullets@.subrange(i + 1, n as int));
        }
        let b = bullets[i];
        match b.update(dt, viewport_w) {
            Some(b2) => {
                let ghost r0 = r@;
                r.push(b2);
                proof {
                    assert(r@ =~= r0 + seq![b2]);
                    assert((r0 + seq![b2]) + surviving(
                        bullets@.subrange(i + 1, n as int),
                        dt,
                        viewport_w,
                    ) =~= r0 + (seq![b2] + surviving(
                        bullets@.subrange(i + 1, n as int),
                        dt,
                        viewport_w,
                    )));
                }
            },
            None => {},
        }
        i = i + 1;
    }
    proof {
        assert(bullets@.subrange(n as int, n as int) =~= Seq::<Bullet>::empty());
        assert(r@ + Seq::<Bullet>::empty() =~= r@);
    }
    r
}

/// Three pseudo-random state steps: what one asteroid reset consumes.
pub open spec fn lcg3(s: u64) -> u64 {
    lcg_next(lcg_next(lcg_next(s)))
}

/// An animation with `dt` milliseconds accumulated, as `add_time` leaves it.
pub open spec fn sprite_added(sp: AnimatedSprite, dt: i64) -> AnimatedSprite {
    AnimatedSprite { acc_ms: ((sp.acc_ms + dt) % (sp.frames@.len() as int * 1000)) as i64, ..sp }
}

/// A single long-lived entity: an object pool of size one. It drifts left
/// across the viewport and, on crossing the left boundary, is recycled in
/// place with fresh pseudo-random parameters rather than destroyed.
#[derive(Clone, Debug, PartialEq)]
pub struct Asteroid {
    pub sprite: AnimatedSprite,
    pub rect: Rectangle,
    pub vel: i64,
}

impl Asteroid {
    pub open spec fn wf(self) -> bool {
        &&& self.sprite.wf()
        &&& self.sprite.frames@.len() == ASTEROID_TOTAL
        &&& self.rect.wf()
        &&& self.rect.w == ASTEROID_SIDE
        &&& self.rect.h == ASTEROID_SIDE
        &&& 0 <= self.vel <= MAX_SPEED
    }

    /// The recycled asteroid: animation rate drawn from [10, 30) frames per
    /// second, row drawn over the viewport's height, velocity drawn from
    /// [50, 150) pixels per second, and the rectangle placed just past the
    /// viewport's right edge. The animation's accumulator is kept.
    pub open spec fn reset_with(self, viewport_w: i64, viewport_h: i64, s: u64) -> Asteroid {
        let fps = lcg_in_range(s, 10, 30);
        let s1 = lcg_next(s);
        let y = lcg_in_range(s1, 0, (viewport_h - ASTEROID_SIDE) as i64);
        let s2 = lcg_next(s1);
        let vel = lcg_in_range(s2, 50, 150);
        Asteroid {
            sprite: AnimatedSprite { fps: fps as u32, ..self.sprite },
            rect: Rectangle { x: viewport_w, y, w: ASTEROID_SIDE, h: ASTEROID_SIDE },
            vel,
        }
    }

    /// The asteroid `dt` milliseconds later, before any recycling: drifted
    /// left at its velocity, animation time accumulated.
    pub open spec fn moved(self, dt: i64) -> Asteroid {
        Asteroid {
            sprite: sprite_added(self.sprite, dt),
            rect: Rectangle { x: (self.rect.x - self.vel * dt) as i64, ..self.rect },
            vel: self.vel,
        }
    }

    /// One full update step: drift, then recycle exactly when the rectangle
    /// has moved fully off the left edge.
    pub open spec fn stepped(self, dt: i64, viewport_w: i64, viewport_h: i64, s: u64) -> Asteroid {
        let m = self.moved(dt);
        if m.rect.x <= -ASTEROID_SIDE {
            m.reset_with(viewport_w, viewport_h, s)
        } else {
            m
        }
    }

    /// The pseudo-random state after one update step: three draws are
    /// consumed exactly when the step recycles.
    pub open spec fn stepped_rng(self, dt: i64, s: u64) -> u64 {
        if self.moved(dt).rect.x <= -ASTEROID_SIDE {
            lcg3(s)
        } else {
            s
        }
    }

    /// The asteroid animation: the sheet's cells in reading order, minus the
    /// four missing at its end.
    pub fn get_sprite(fps: u32) -> (sp: AnimatedSprite)
        requires
            fps <= MAX_FPS,
        ensures
            sp.wf(),
            sp.frames@.len() == ASTEROID_TOTAL,
            forall|j: int|
                0 <= j < ASTEROID_TOTAL ==> sp.frames@[j] == grid_cell(
                    ASTEROID_SIDE,
                    ASTEROID_SIDE,
                    ASTEROID_WIDE as int,
                    j,
                ),
            sp.fps == fps,
            sp.acc_ms == 0,
    {
        let frames = grid_regions(
            ASTEROID_SIDE,
            ASTEROID_SIDE,
            ASTEROID_WIDE,
            ASTEROID_HIGH,
            ASTEROID_TOTAL,
        );
        AnimatedSprite::with_fps(frames, fps)
    }

    /// Recycles the asteroid in place, drawing rate, row and velocity from
    /// the explicitly threaded pseudo-random source (three draws).
    pub fn reset(&mut self, viewport_w: i64, viewport_h: i64, rng: &mut Lcg)
        requires
            old(self).sprite.wf(),
            old(self).sprite.frames@.len() == ASTEROID_TOTAL,
            0 < viewport_w <= MAX_COORD,
            ASTEROID_SIDE < viewport_h <= MAX_COORD,
        ensures
            *final(self) == old(self).reset_with(viewport_w, viewport_h, old(rng).state),
            final(rng).state == lcg3(old(rng).state),
            final(self).wf(),
    {
        let fps = rng.in_range(10, 30);
        self.sprite.set_fps(fps as u32);
        let y = rng.in_range(0, viewport_h - ASTEROID_SIDE);
        self.rect = Rectangle { x: viewport_w, y, w: ASTEROID_SIDE, h: ASTEROID_SIDE };
        self.vel = rng.in_range(50, 150);
    }

    /// A fresh asteroid: built with a unit animation rate, then recycled at
    /// once, so it starts just past the right edge with drawn parameters.
    pub fn new(viewport_w: i64, viewport_h: i64, rng: &mut Lcg) -> (a: Asteroid)
        requires
            0 < viewport_w <= MAX_COORD,
            ASTEROID_SIDE < viewport_h <= MAX_COORD,
        ensures
            a.wf(),
            is_initial_asteroid(a, viewport_w, viewport_h, old(rng).state),
            final(rng).state == lcg3(old(rng).state),
    {
        let mut a = Asteroid {
            sprite: Asteroid::get_sprite(1),
            rect: Rectangle { w: 0, h: 0, x: 0, y: 0 },
            vel: 0,
        };
        a.reset(viewport_w, viewport_h, rng);
        a
    }

    /// One update step: drift left by `vel * dt`, accumulate animation
    /// time, and recycle the instant the rectangle lies fully off the left
    /// edge. Recycling consumes three pseudo-random draws; otherwise the
    /// source is untouched.
    pub fn update(&mut self, dt: i64, viewport_w: i64, viewport_h: i64, rng: &mut Lcg)
        requires
            old(self).wf(),
            0 <= dt <= MAX_DT,
            0 < viewport_w <= MAX_COORD,
            ASTEROID_SIDE < viewport_h <= MAX_COORD,
        ensures
            *final(self) == old(self).stepped(dt, viewport_w, viewport_h, old(rng).state),
            final(rng).state == old(self).stepped_rng(dt, old(rng).state),
            final(self).wf(),
    {
        proof {
            assert(0 <= self.vel * dt <= MAX_SPEED * MAX_DT) by (nonlinear_arith)
                requires
                    0 <= self.vel <= MAX_SPEED,
                    0 <= dt <= MAX_DT,
            ;
        }
        let x2: i64 = self.rect.x - self.vel * dt;
        self.rect = Rectangle { x: x2, ..self.rect };
        self.sprite.add_time(dt);
        proof {
            assert(self.sprite == sprite_added(old(self).sprite, dt));
            assert(*self == old(self).moved(dt));
        }
        if x2 <= -ASTEROID_SIDE {
            self.reset(viewport_w, viewport_h, rng);
        }
    }
}

/// The parameters an asteroid drawn by `Asteroid::new` from state `s` has.
pub open spec fn is_initial_asteroid(a: Asteroid, viewport_w: i64, viewport_h: i64, s: u64) -> bool {
    &&& a.sprite.acc_ms == 0
    &&& a.sprite.frames@.len() == ASTEROID_TOTAL
    &&& (forall|j: int|
        0 <= j < ASTEROID_TOTAL ==> a.sprite.frames@[j] == grid_cell(
            ASTEROID_SIDE,
            ASTEROID_SIDE,
            ASTEROID_WIDE as int,
            j,
        ))
    &&& a.sprite.fps == lcg_in_range(s, 10, 30) as u32
    &&& a.rect == (Rectangle {
        x: viewport_w,
        y: lcg_in_range(lcg_next(s), 0, (viewport_h - ASTEROID_SIDE) as i64),
        w: ASTEROID_SIDE,
        h: ASTEROID_SIDE,
    })
    &&& a.vel == lcg_in_range(lcg_next(lcg_next(s)), 50, 150)
}

/// One layer of the scrolling star field: a position that advances with
/// time and wraps at the layer's width.
#[derive(Clone, Copy, Debug, PartialEq, Eq, Structural)]
pub struct Background {
    pub pos: i64,
    pub vel: i64,
    pub width: i64,
}

impl Background {
    pub open spec fn wf(self) -> bool {
        &&& 0 < self.width <= MAX_COORD
        &&& 0 <= self.pos < self.width
        &&& 0 <= self.vel <= MAX_SPEED
    }

    /// The layer `dt` milliseconds later: advanced at its velocity, wrapped
    /// at its width.
    pub open spec fn scrolled(self, dt: i64) -> Background {
        Background { pos: ((self.pos + self.vel * dt) % (self.width as int)) as i64, ..self }
    }

    pub fn new(vel: i64, width: i64) -> (r: Background)
        requires
            0 < width <= MAX_COORD,
            0 <= vel <= MAX_SPEED,
        ensures
            r == (Background { pos: 0, vel, width }),
            r.wf(),
    {
        Background { pos: 0, vel, width }
    }

    /// Advances the layer by `dt` milliseconds.
    pub fn update(&mut self, dt: i64)
        requires
            old(self).wf(),
            0 <= dt <= MAX_DT,
        ensures
            *final(self) == old(self).scrolled(dt),
            final(self).wf(),
    {
        proof {
            assert(0 <= self.vel * dt <= MAX_SPEED * MAX_DT) by (nonlinear_arith)
                requires
                    0 <= self.vel <= MAX_SPEED,
                    0 <= dt <= MAX_DT,
            ;
        }
        self.pos = (self.pos + self.vel * dt) % self.width;
    }
}

/// What kind of bullet the ship's cannons produce; the sine variant carries
/// its oscillation parameters.
#[derive(Clone, Copy, Debug, PartialEq, Eq, Structural)]
pub enum CannonType {
    RectBullet,
    SineBullet { amplitude: i64, angular_vel: i64 },
}

impl CannonType {
    pub open spec fn wf(self) -> bool {
        match self {
            CannonType::RectBullet => true,
            CannonType::SineBullet { amplitude, angular_vel } => {
                &&& 0 <= amplitude <= MAX_AMPLITUDE
                &&& 0 <= angular_vel <= MAX_ANGULAR_VEL
            },
        }
    }
}

/// The different states the ship might be in. On the sprite sheet they are
/// ordered left to right, then top to bottom.
#[derive(Clone, Copy, Debug, PartialEq, Eq, Structural)]
pub enum ShipFrame {
    UpNorm,
    UpFast,
    UpSlow,
    MidNorm,
    MidFast,
    MidSlow,
    DownNorm,
    DownFast,
    DownSlow,
}

impl ShipFrame {
    /// The frame's cell index on the sprite sheet.
    pub open spec fn spec_index(self) -> int {
        match self {
            ShipFrame::UpNorm => 0,
            ShipFrame::UpFast => 1,
            ShipFrame::UpSlow => 2,
            ShipFrame::MidNorm => 3,
            ShipFrame::MidFast => 4,
            ShipFrame::MidSlow => 5,
            ShipFrame::DownNorm => 6,
            ShipFrame::DownFast => 7,
            ShipFrame::DownSlow => 8,
        }
    }

    pub fn index(self) -> (i: usize)
        ensures
            i == self.spec_index(),
    {
        match self {
            ShipFrame::UpNorm => 0,
            ShipFrame::UpFast => 1,
            ShipFrame::UpSlow => 2,
            ShipFrame::MidNorm => 3,
            ShipFrame::MidFast => 4,
            ShipFrame::MidSlow => 5,
            ShipFrame::DownNorm => 6,
            ShipFrame::DownFast => 7,
            ShipFrame::DownSlow => 8,
        }
    }
}

/// The sprite the ship shows for one frame's movement: up, middle or down
/// row by the vertical sign, slow, norm or fast column by the horizontal
/// sign.
pub open spec fn frame_for(dx: int, dy: int) -> ShipFrame {
    if dx == 0 && dy < 0 {
        ShipFrame::UpNorm
    } else if dx > 0 && dy < 0 {
        ShipFrame::UpFast
    } else if dx < 0 && dy < 0 {
        ShipFrame::UpSlow
    } else if dx == 0 && dy == 0 {
        ShipFrame::MidNorm
    } else if dx > 0 && dy == 0 {
        ShipFrame::MidFast
    } else if dx < 0 && dy == 0 {
        ShipFrame::MidSlow
    } else if dx == 0 && dy > 0 {
        ShipFrame::DownNorm
    } else if dx > 0 && dy > 0 {
        ShipFrame::DownFast
    } else {
        ShipFrame::DownSlow
    }
}

/// The player entity: bounding rectangle, the nine directional sprite
/// regions, the sprite currently shown, and the selected cannon kind.
#[derive(Clone, Debug, PartialEq)]
pub struct Ship {
    pub rect: Rectangle,
    pub sprites: Vec<Rectangle>,
    pub current: ShipFrame,
    pub cannon: CannonType,
}

/// The two bullets one volley produces: one at the tip of each cannon,
/// mounted at a fixed offset from the hull's top-left corner, both of the
/// currently selected kind, with zero initial flight time.
pub open spec fn spawn_bullets_spec(rect: Rectangle, cannon: CannonType) -> Seq<Bullet> {
    let cannons_x = (rect.x + 30000) as i64;
    let cannons1_y = (rect.y + 6000) as i64;
    let cannons2_y = (rect.y + SHIP_H - 10000) as i64;
    match cannon {
        CannonType::RectBullet => seq![
            Bullet::Rect(
                RectBullet {
                    rect: Rectangle { x: cannons_x, y: cannons1_y, w: BULLET_W, h: BULLET_H },
                },
            ),
            Bullet::Rect(
                RectBullet {
                    rect: Rectangle { x: cannons_x, y: cannons2_y, w: BULLET_W, h: BULLET_H },
                },
            ),
        ],
        CannonType::SineBullet { amplitude, angular_vel } => seq![
            Bullet::Sine(
                SineBullet {
                    pos_x: cannons_x,
                    origin_y: cannons1_y,
                    amplitude,
                    angular_vel,
                    total_time: 0,
                },
            ),
            Bullet::Sine(
                SineBullet {
                    pos_x: cannons_x,
                    origin_y: cannons2_y,
                    amplitude,
                    angular_vel,
                    total_time: 0,
                },
            ),
        ],
    }
}

impl Ship {
    pub open spec fn wf(self) -> bool {
        &&& self.rect.wf()
        &&& self.rect.w == SHIP_W
        &&& self.rect.h == SHIP_H
        &&& self.sprites@.len() == 9
        &&& self.cannon.wf()
    }

    /// A volley from the ship's current position and cannon selection: a
    /// pure function of both, always exactly two bullets.
    pub fn spawn_bullets(&self) -> (r: Vec<Bullet>)
        requires
            self.wf(),
            self.rect.x + SHIP_W <= MAX_COORD,
            self.rect.y + SHIP_H <= MAX_COORD,
            self.rect.x >= 0,
            self.rect.y >= 0,
        ensures
            r@ == spawn_bullets_spec(self.rect, self.cannon),
            r@.len() == 2,
            forall|i: int| 0 <= i < r@.len() ==> r@[i].wf(),
    {
        let cannons_x: i64 = self.rect.x + 30000;
        let cannons1_y: i64 = self.rect.y + 6000;
        let cannons2_y: i64 = self.rect.y + SHIP_H - 10000;
        let r = match self.cannon {
            CannonType::RectBullet => vec![
                Bullet::Rect(
                    RectBullet {
                        rect: Rectangle { x: cannons_x, y: cannons1_y, w: BULLET_W, h: BULLET_H },
                    },
                ),
                Bullet::Rect(
                    RectBullet {
                        rect: Rectangle { x: cannons_x, y: cannons2_y, w: BULLET_W, h: BULLET_H },
                    },
                ),
            ],
            CannonType::SineBullet { amplitude, angular_vel } => vec![
                Bullet::Sine(
                    SineBullet {
                        pos_x: cannons_x,
                        origin_y: cannons1_y,
                        amplitude,
                        angular_vel,
                        total_time: 0,
                    },
                ),
                Bullet::Sine(
                    SineBullet {
                        pos_x: cannons_x,
                        origin_y: cannons2_y,
                        amplitude,
                        angular_vel,
                        total_time: 0,
                    },
                ),
            ],
        };
        proof {
            assert(r@ =~= spawn_bullets_spec(self.rect, self.cannon));
        }
        r
    }
}

/// The cannon kind after this frame's selection keys: the second key picks
/// the sine cannon, the first the straight one, and with neither edge the
/// selection stands.
pub open spec fn cannon_after(e: Events, c: CannonType) -> CannonType {
    if e.spec_just_pressed(KeyCode::Num2) {
        CannonType::SineBullet { amplitude: 10000, angular_vel: 15000 }
    } else if e.spec_just_pressed(KeyCode::Num1) {
        CannonType::RectBullet
    } else {
        c
    }
}

/// Both an effective vertical and an effective horizontal movement are in
/// force: the step is scaled so diagonal movement is no faster.
pub open spec fn is_diagonal(e: Events) -> bool {
    (e.spec_held(KeyCode::Up) != e.spec_held(KeyCode::Down)) && (e.spec_held(KeyCode::Left)
        != e.spec_held(KeyCode::Right))
}

/// The distance the ship covers this frame, in milli-pixels: the player
/// speed over `dt`, scaled by 7071/10000 (an approximation of the inverse
/// square root of two) when moving diagonally.
pub open spec fn moved_amount(e: Events, dt: i64) -> int {
    if is_diagonal(e) {
        PLAYER_SPEED * dt * 7071 / 10000
    } else {
        PLAYER_SPEED * dt
    }
}

/// The signed horizontal step: opposite keys cancel.
pub open spec fn dx_of(e: Events, dt: i64) -> int {
    if e.spec_held(KeyCode::Left) == e.spec_held(KeyCode::Right) {
        0
    } else if e.spec_held(KeyCode::Left) {
        -moved_amount(e, dt)
    } else {
        moved_amount(e, dt)
    }
}

/// The signed vertical step: opposite keys cancel.
pub open spec fn dy_of(e: Events, dt: i64) -> int {
    if e.spec_held(KeyCode::Up) == e.spec_held(KeyCode::Down) {
        0
    } else if e.spec_held(KeyCode::Up) {
        -moved_amount(e, dt)
    } else {
        moved_amount(e, dt)
    }
}

/// The region the ship may occupy: the viewport's full height but only 70%
/// of its width, so the player cannot reach the far right where asteroids
/// spawn.
pub open spec fn movable_region(viewport_w: i64, viewport_h: i64) -> Rectangle {
    Rectangle { x: 0, y: 0, w: (viewport_w * 7 / 10) as i64, h: viewport_h }
}

/// The player after one frame: moved by the held keys, kept inside the
/// movable region, sprite chosen by the movement's signs, cannon selection
/// applied.
pub open spec fn player_after(p: Ship, e: Events, dt: i64, viewport_w: i64, viewport_h: i64) -> Ship {
    let dx = dx_of(e, dt);
    let dy = dy_of(e, dt);
    let moved = Rectangle { x: (p.rect.x + dx) as i64, y: (p.rect.y + dy) as i64, ..p.rect };
    Ship {
        rect: moved.clamped(movable_region(viewport_w, viewport_h)),
        sprites: p.sprites,
        current: frame_for(dx, dy),
        cannon: cannon_after(e, p.cannon),
    }
}

/// The bullet collection after one frame: the survivors of the update pass
/// in their original order and, when the shoot key was just pressed, the
/// fresh volley appended behind them — spawned after the pass, so a new
/// bullet is first rendered at its spawn position.
pub open spec fn bullets_after(
    bullets: Seq<Bullet>,
    e: Events,
    dt: i64,
    viewport_w: i64,
    player_rect: Rectangle,
    cannon: CannonType,
) -> Seq<Bullet> {
    let survivors = surviving(bullets, dt, viewport_w);
    if e.spec_just_pressed(KeyCode::Space) {
        survivors + spawn_bullets_spec(player_rect, cannon)
    } else {
        survivors
    }
}

/// The main gameplay view: the player's ship, its live bullets, the
/// asteroid, and three parallax star-field layers.
#[derive(Clone, Debug, PartialEq)]
pub struct ShipView {
    pub player: Ship,
    pub bullets: Vec<Bullet>,
    pub asteroid: Asteroid,
    pub bg_back: Background,
    pub bg_middle: Background,
    pub bg_front: Background,
}

/// How one frame of gameplay relates the view's state before and after:
/// the player moved and clamped, the bullet pipeline run and the volley
/// appended on a shoot edge, the asteroid stepped with pseudo-random state
/// `s`, and all three layers scrolled.
pub open spec fn steps_to(
    pre: ShipView,
    post: ShipView,
    e: Events,
    dt: i64,
    viewport_w: i64,
    viewport_h: i64,
    s: u64,
) -> bool {
    let p1 = player_after(pre.player, e, dt, viewport_w, viewport_h);
    &&& post.player == p1
    &&& post.bullets@ == bullets_after(pre.bullets@, e, dt, viewport_w, p1.rect, p1.cannon)
    &&& post.asteroid == pre.asteroid.stepped(dt, viewport_w, viewport_h, s)
    &&& post.bg_back == pre.bg_back.scrolled(dt)
    &&& post.bg_middle == pre.bg_middle.scrolled(dt)
    &&& post.bg_front == pre.bg_front.scrolled(dt)
}

impl ShipView {
    pub open spec fn wf(self) -> bool {
        &&& self.player.wf()
        &&& (forall|i: int| 0 <= i < self.bullets@.len() ==> self.bullets@[i].wf())
        &&& self.asteroid.wf()
        &&& self.bg_back.wf()
        &&& self.bg_middle.wf()
        &&& self.bg_front.wf()
    }

    /// A fresh gameplay view: the ship at (64, 64) showing its middle
    /// sprite with the straight cannon, no bullets, a freshly drawn
    /// asteroid, and the three star-field layers at rest with speeds 20,
    /// 40 and 80. The layer widths come from the loaded sheets.
    pub fn new(
        viewport_w: i64,
        viewport_h: i64,
        bg_back_w: i64,
        bg_middle_w: i64,
        bg_front_w: i64,
        rng: &mut Lcg,
    ) -> (v: ShipView)
        requires
            0 < viewport_w <= MAX_COORD,
            ASTEROID_SIDE < viewport_h <= MAX_COORD,
            0 < bg_back_w <= MAX_COORD,
            0 < bg_middle_w <= MAX_COORD,
            0 < bg_front_w <= MAX_COORD,
        ensures
            v.wf(),
            v.player.rect == (Rectangle { x: 64000, y: 64000, w: SHIP_W, h: SHIP_H }),
            v.player.current == ShipFrame::MidNorm,
            v.player.cannon == CannonType::RectBullet,
            v.player.sprites@.len() == 9,
            forall|j: int|
                0 <= j < 9 ==> v.player.sprites@[j] == grid_cell(SHIP_W, SHIP_H, 3, j),
            v.bullets@ == Seq::<Bullet>::empty(),
            is_initial_asteroid(v.asteroid, viewport_w, viewport_h, old(rng).state),
            final(rng).state == lcg3(old(rng).state),
            v.bg_back == (Background { pos: 0, vel: 20, width: bg_back_w }),
            v.bg_middle == (Background { pos: 0, vel: 40, width: bg_middle_w }),
            v.bg_front == (Background { pos: 0, vel: 80, width: bg_front_w }),
    {
        let sprites = grid_regions(SHIP_W, SHIP_H, 3, 3, 9);
        ShipView {
            player: Ship {
                rect: Rectangle { x: 64000, y: 64000, w: SHIP_W, h: SHIP_H },
                sprites,
                current: ShipFrame::MidNorm,
                cannon: CannonType::RectBullet,
            },
            bullets: Vec::new(),
            asteroid: Asteroid::new(viewport_w, viewport_h, rng),
            bg_back: Background::new(20, bg_back_w),
            bg_middle: Background::new(40, bg_middle_w),
            bg_front: Background::new(80, bg_front_w),
        }
    }

    /// One frame of gameplay logic. A pending quit request quits; a fresh
    /// escape edge hands the scheduler a newly built opening view; both
    /// leave the state untouched. Otherwise the frame relates the old and
    /// new state by `steps_to` and asks to be presented. The presentation
    /// layer draws the layers, ship, bullets and asteroid off the returned
    /// state.
    pub fn render(
        &mut self,
        events: &Events,
        elapsed: i64,
        viewport_w: i64,
        viewport_h: i64,
        rng: &mut Lcg,
    ) -> (a: ViewAction)
        requires
            old(self).wf(),
            0 <= elapsed <= MAX_DT,
            0 < viewport_w <= MAX_COORD,
            ASTEROID_SIDE < viewport_h <= MAX_COORD,
            viewport_w * 7 / 10 >= SHIP_W,
            viewport_h >= SHIP_H,
        ensures
            final(self).wf(),
            events.quit ==> a is Quit && *final(self) == *old(self) && *final(rng) == *old(rng),
            !events.quit && events.spec_just_pressed(KeyCode::Escape) ==> a == ViewAction::ChangeView(
                ViewState::Plain(crate::views::ShipView::spec_new()),
            ) && *final(self) == *old(self) && *final(rng) == *old(rng),
            !events.quit && !events.spec_just_pressed(KeyCode::Escape) ==> a is Continue
                && steps_to(
                *old(self),
                *final(self),
                *events,
                elapsed,
                viewport_w,
                viewport_h,
                old(rng).state,
            ) && final(rng).state == old(self).asteroid.stepped_rng(elapsed, old(rng).state),
    {
        if events.quit {
            return ViewAction::Quit;
        }
        if events.just_pressed(KeyCode::Escape) {
            return ViewAction::ChangeView(ViewState::Plain(crate::views::ShipView::new()));
        }
        // Cannon selection.
        if events.just_pressed(KeyCode::Num1) {
            self.player.cannon = CannonType::RectBullet;
        }
        if events.just_pressed(KeyCode::Num2) {
            self.player.cannon = CannonType::SineBullet { amplitude: 10000, angular_vel: 15000 };
        }
        // Moving logic.
        let diagonal = (events.held(KeyCode::Up) ^ events.held(KeyCode::Down)) && (events.held(
            KeyCode::Left,
        ) ^ events.held(KeyCode::Right));
        proof {
            assert(0 <= PLAYER_SPEED * elapsed <= PLAYER_SPEED * MAX_DT) by (nonlinear_arith)
                requires
                    0 <= elapsed <= MAX_DT,
            ;
            assert(0 <= PLAYER_SPEED * elapsed * 7071 <= PLAYER_SPEED * MAX_DT * 7071)
                by (nonlinear_arith)
                requires
                    0 <= PLAYER_SPEED * elapsed <= PLAYER_SPEED * MAX_DT,
            ;
        }
        let moved: i64 = if diagonal {
            PLAYER_SPEED * elapsed * 7071 / 10000
        } else {
            PLAYER_SPEED * elapsed
        };
        let dx: i64 = match (events.held(KeyCode::Left), events.held(KeyCode::Right)) {
            (true, true) | (false, false) => 0,
            (true, false) => -moved,
            (false, true) => moved,
        };
        let dy: i64 = match (events.held(KeyCode::Up), events.held(KeyCode::Down)) {
            (true, true) | (false, false) => 0,
            (true, false) => -moved,
            (false, true) => moved,
        };
        proof {
            assert(dx == dx_of(*events, elapsed));
            assert(dy == dy_of(*events, elapsed));
        }
        let moved_rect = Rectangle {
            x: self.player.rect.x + dx,
            y: self.player.rect.y + dy,
            ..self.player.rect
        };
        // The movable region spans the viewport's height and 70% of its
        // width.
        proof {
            vstd::arithmetic::div_mod::lemma_div_is_ordered(
                viewport_w * 7,
                viewport_w * 10,
                10,
            );
            assert(viewport_w * 10 == 10 * viewport_w) by (nonlinear_arith);
            vstd::arithmetic::div_mod::lemma_div_multiples_vanish(viewport_w as int, 10);
            assert(viewport_w * 7 / 10 <= viewport_w);
            assert(viewport_w * 7 >= 0) by (nonlinear_arith)
                requires
                    viewport_w > 0,
            ;
        }
        let region = Rectangle { x: 0, y: 0, w: viewport_w * 7 / 10, h: viewport_h };
        // If the player cannot fit in the region, there is a problem and
        // the game aborts promptly; the preconditions rule it out.
        let clamped = moved_rect.clamp_inside(region);
        self.player.rect = match clamped {
            Some(c) => c,
            None => vstd::pervasive::unreached(),
        };
        // Select the appropriate sprite of the ship to show.
        self.player.current = if dx == 0 && dy < 0 {
            ShipFrame::UpNorm
        } else if dx > 0 && dy < 0 {
            ShipFrame::UpFast
        } else if dx < 0 && dy < 0 {
            ShipFrame::UpSlow
        } else if dx == 0 && dy == 0 {
            ShipFrame::MidNorm
        } else if dx > 0 && dy == 0 {
            ShipFrame::MidFast
        } else if dx < 0 && dy == 0 {
            ShipFrame::MidSlow
        } else if dx == 0 && dy > 0 {
            ShipFrame::DownNorm
        } else if dx > 0 && dy > 0 {
            ShipFrame::DownFast
        } else {
            ShipFrame::DownSlow
        };
        // Update the bullets with exclusive ownership of the collection.
        let mut old_bullets: Vec<Bullet> = Vec::new();
        core::mem::swap(&mut self.bullets, &mut old_bullets);
        self.bullets = update_bullets(old_bullets, elapsed, viewport_w);
        // Update the asteroid.
        self.asteroid.update(elapsed, viewport_w, viewport_h, rng);
        // Allow the player to shoot after the bullets are updated, so that
        // a fresh volley is drawn where it spawned.
        if events.just_pressed(KeyCode::Space) {
            let mut volley = self.player.spawn_bullets();
            self.bullets.append(&mut volley);
        }
        // Scroll the star-field layers.
        self.bg_back.update(elapsed);
        self.bg_middle.update(elapsed);
        self.bg_front.update(elapsed);
        ViewAction::Continue
    }
}

/// The sum of a sequence of durations.
pub open spec fn sum_of(dts: Seq<int>) -> int
    decreases dts.len(),
{
    if dts.len() == 0 {
        0
    } else {
        sum_of(dts.drop_last()) + dts.last()
    }
}

/// The `x` position a straight bullet spawned at `x0` reaches after one
/// update per entry of `dts`.
pub open spec fn x_after(x0: int, dts: Seq<int>) -> int
    decreases dts.len(),
{
    if dts.len() == 0 {
        x0
    } else {
        x_after(x0, dts.drop_last()) + BULLET_SPEED * dts.last()
    }
}

/// Straight-bullet motion is linear and associative under summation of the
/// elapsed times: any sequence of updates whose durations sum to `t` leaves
/// the bullet exactly at `x0 + BULLET_SPEED * t`.
pub proof fn lemma_rect_bullet_linear(x0: int, dts: Seq<int>)
    ensures
        x_after(x0, dts) == x0 + BULLET_SPEED * sum_of(dts),
    decreases dts.len(),
{
    if dts.len() == 0 {
        assert(BULLET_SPEED * sum_of(dts) == 0) by (nonlinear_arith)
            requires
                sum_of(dts) == 0,
        ;
    } else {
        lemma_rect_bullet_linear(x0, dts.drop_last());
        assert(BULLET_SPEED * (sum_of(dts.drop_last()) + dts.last()) == BULLET_SPEED * sum_of(
            dts.drop_last(),
        ) + BULLET_SPEED * dts.last()) by (nonlinear_arith);
    }
}

/// One update pass removes an off-screen bullet and touches no other
/// survivor's fate: updating the collection equals updating the collection
/// with the off-screen bullet already removed, order preserved.
pub proof fn lemma_offscreen_bullet_culled(s: Seq<Bullet>, i: int, dt: i64, viewport_w: i64)
    requires
        0 <= i < s.len(),
        s[i].spec_x() >= viewport_w,
        1 <= dt,
    ensures
        surviving(s, dt, viewport_w) == surviving(s.remove(i), dt, viewport_w),
    decreases s.len(),
{
    assert(BULLET_SPEED * dt >= 240) by (nonlinear_arith)
        requires
            dt >= 1,
    ;
    if i == 0 {
        assert(s[0].updated(dt, viewport_w) is None);
        assert(s.remove(0) =~= s.drop_first());
    } else {
        let t = s.drop_first();
        lemma_offscreen_bullet_culled(t, i - 1, dt, viewport_w);
        assert(s.remove(i).drop_first() =~= t.remove(i - 1));
        assert(s.remove(i)[0] == s[0]);
        assert(s.remove(i).len() > 0);
    }
}

} // verus!
