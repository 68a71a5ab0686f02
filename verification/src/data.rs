use vstd::prelude::*;

verus! {

/// Largest magnitude, in milli-pixels, that any coordinate or size handled by
/// the core may take. Generous enough for any realistic viewport while
/// keeping every product and sum computed per frame well inside `i64`.
pub const MAX_COORD: i64 = 0x100_0000_0000;

/// Largest frame duration, in milliseconds, the update functions accept in
/// one step. Far beyond any real frame, small enough that every per-frame
/// product stays inside `i64`.
pub const MAX_DT: i64 = 0x4000_0000;

/// Largest magnitude, in pixels per second, of any linear speed the core
/// handles.
pub const MAX_SPEED: i64 = 0x10_0000;

/// An axis-aligned rectangle in milli-pixel coordinates.
///
/// `x` and `y` locate the top-left corner; `w` and `h` are the extents and
/// are never negative in a well-formed value.
#[derive(Clone, Copy, Debug, PartialEq, Eq, Structural)]
pub struct Rectangle {
    pub x: i64,
    pub y: i64,
    pub w: i64,
    pub h: i64,
}

/// Translation of one axis performed by `clamp_inside`: the interval
/// `[v, v + len]` is slid to the nearest position inside `[b0, b0 + blen]`.
pub open spec fn clamp_axis(v: i64, len: i64, b0: i64, blen: i64) -> i64 {
    if v < b0 {
        b0
    } else if v + len > b0 + blen {
        (b0 + blen - len) as i64
    } else {
        v
    }
}

impl Rectangle {
    /// Non-negative extents, and every coordinate within the fixed-point
    /// range the core works in.
    pub open spec fn wf(self) -> bool {
        &&& 0 <= self.w <= MAX_COORD
        &&& 0 <= self.h <= MAX_COORD
        &&& -MAX_COORD <= self.x <= MAX_COORD
        &&& -MAX_COORD <= self.y <= MAX_COORD
    }

    /// The rectangle translated (never resized) to lie fully inside
    /// `bounds`; meaningful when it can fit.
    pub open spec fn clamped(self, bounds: Rectangle) -> Rectangle {
        Rectangle {
            x: clamp_axis(self.x, self.w, bounds.x, bounds.w),
            y: clamp_axis(self.y, self.h, bounds.y, bounds.h),
            w: self.w,
            h: self.h,
        }
    }

    /// True when the rectangle lies fully inside `bounds`.
    pub open spec fn inside(self, bounds: Rectangle) -> bool {
        &&& bounds.x <= self.x
        &&& self.x + self.w <= bounds.x + bounds.w
        &&& bounds.y <= self.y
        &&& self.y + self.h <= bounds.y + bounds.h
    }

    /// Translates the rectangle so it lies fully within `bounds`, or returns
    /// `None` when it cannot fit. The extents are preserved; each coordinate
    /// moves only as far as containment requires, so a rectangle already
    /// inside `bounds` comes back unchanged. The rectangle may start some
    /// way outside the standard coordinate range: one frame's movement can
    /// overshoot it before the clamp pulls the ship back.
    pub fn clamp_inside(self, bounds: Rectangle) -> (r: Option<Rectangle>)
        requires
            0 <= self.w <= MAX_COORD,
            0 <= self.h <= MAX_COORD,
            -4 * MAX_COORD <= self.x <= 4 * MAX_COORD,
            -4 * MAX_COORD <= self.y <= 4 * MAX_COORD,
            bounds.wf(),
        ensures
            r is Some <==> self.w <= bounds.w && self.h <= bounds.h,
            r is Some ==> r == Some(self.clamped(bounds)),
            r matches Some(c) ==> c.w == self.w && c.h == self.h && c.inside(bounds),
            self.w <= bounds.w && self.h <= bounds.h && self.inside(bounds) ==> r == Some(self),
    {
        if self.w > bounds.w || self.h > bounds.h {
            return None;
        }
        let x: i64 = if self.x < bounds.x {
            bounds.x
        } else if self.x + self.w > bounds.x + bounds.w {
            bounds.x + bounds.w - self.w
        } else {
            self.x
        };
        let y: i64 = if self.y < bounds.y {
            bounds.y
        } else if self.y + self.h > bounds.y + bounds.h {
            bounds.y + bounds.h - self.h
        } else {
            self.y
        };
        Some(Rectangle { x, y, w: self.w, h: self.h })
    }
}

/// Clamping into bounds anchored at the origin lands the rectangle in the
/// closed box of admissible corners: for every rectangle with non-negative
/// extents that fits, the clamped corner satisfies
/// `0 <= x <= bounds.w - w` and `0 <= y <= bounds.h - h`.
pub proof fn lemma_clamp_inside_origin_bounds(r: Rectangle, bounds: Rectangle)
    requires
        bounds.x == 0,
        bounds.y == 0,
        0 <= r.w <= bounds.w,
        0 <= r.h <= bounds.h,
    ensures
        0 <= r.clamped(bounds).x <= bounds.w - r.w,
        0 <= r.clamped(bounds).y <= bounds.h - r.h,
        r.clamped(bounds).w == r.w,
        r.clamped(bounds).h == r.h,
{
}

} // verus!
