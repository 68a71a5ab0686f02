use vstd::prelude::*;
use crate::data::Rectangle;

verus! {

/// Upper bound on the frame count of one animation.
pub const MAX_FRAMES: usize = 100000;

/// Upper bound on an animation's playback rate, in frames per second.
pub const MAX_FPS: u32 = 1000;

/// Upper bound on the side of one sprite-sheet cell, in milli-pixels.
pub const MAX_CELL: i64 = 0x10_0000;

/// Upper bound on a grid's column and row count.
pub const MAX_GRID: usize = 10000;

/// The frame an accumulator of `acc` milliseconds selects at `fps` frames
/// per second out of `count` frames: `floor(acc * fps / 1000) mod count`,
/// frozen at frame 0 when the rate is zero.
pub open spec fn frame_index_of(acc: int, fps: int, count: int) -> int {
    if fps == 0 {
        0
    } else {
        ((acc * fps) / 1000) % count
    }
}

/// Cell `j` of a sprite-sheet grid `wide` cells across, counted left to
/// right, then top to bottom.
pub open spec fn grid_cell(cell_w: i64, cell_h: i64, wide: int, j: int) -> Rectangle {
    Rectangle {
        x: (cell_w * (j % wide)) as i64,
        y: (cell_h * (j / wide)) as i64,
        w: cell_w,
        h: cell_h,
    }
}

/// Slices the first `total` cells of a sprite-sheet grid `wide` cells across
/// into source regions, in reading order. A trailing partial row of the
/// sheet is skipped simply by asking for a smaller `total`.
pub fn grid_regions(cell_w: i64, cell_h: i64, wide: usize, high: usize, total: usize) -> (r: Vec<
    Rectangle,
>)
    requires
        0 < cell_w <= MAX_CELL,
        0 < cell_h <= MAX_CELL,
        0 < wide <= MAX_GRID,
        high <= MAX_GRID,
        total <= wide * high,
    ensures
        r@.len() == total,
        forall|j: int| 0 <= j < total ==> r@[j] == grid_cell(cell_w, cell_h, wide as int, j),
{
    let mut r: Vec<Rectangle> = Vec::new();
    let mut j: usize = 0;
    while j < total
        invariant
            0 <= j <= total,
            total <= wide * high,
            0 < wide <= MAX_GRID,
            high <= MAX_GRID,
            0 < cell_w <= MAX_CELL,
            0 < cell_h <= MAX_CELL,
            r@.len() == j,
            forall|k: int| 0 <= k < j ==> r@[k] == grid_cell(cell_w, cell_h, wide as int, k),
        decreases total - j,
    {
        let col: usize = j % wide;
        let row: usize = j / wide;
        assert(col < wide && row < high) by {
            assert(j < wide * high);
            assert(j % wide < wide) by (nonlinear_arith)
                requires
                    wide > 0,
            ;
            assert(j / wide < high) by (nonlinear_arith)
                requires
                    wide > 0,
                    j < wide * high,
            ;
        };
        proof {
            assert(0 <= cell_w * (col as i64) <= MAX_CELL * (MAX_GRID as i64)) by (nonlinear_arith)
                requires
                    0 < cell_w <= MAX_CELL,
                    0 <= (col as i64) < (MAX_GRID as i64),
            ;
            assert(0 <= cell_h * (row as i64) <= MAX_CELL * (MAX_GRID as i64)) by (nonlinear_arith)
                requires
                    0 < cell_h <= MAX_CELL,
                    0 <= (row as i64) < (MAX_GRID as i64),
            ;
        }
        r.push(
            Rectangle {
                x: cell_w * (col as i64),
                y: cell_h * (row as i64),
                w: cell_w,
                h: cell_h,
            },
        );
        j = j + 1;
    }
    r
}

/// A time-accumulator driven animation over an ordered list of sprite-sheet
/// regions. The accumulator is kept reduced modulo `frames.len() * 1000`
/// milliseconds, which leaves the selected frame unchanged for every whole
/// playback rate while keeping the index computation far from overflow.
#[derive(Clone, Debug, PartialEq)]
pub struct AnimatedSprite {
    pub frames: Vec<Rectangle>,
    pub fps: u32,
    pub acc_ms: i64,
}

impl AnimatedSprite {
    /// At least one frame, a bounded rate, and a reduced accumulator.
    pub open spec fn wf(self) -> bool {
        &&& 1 <= self.frames@.len() <= MAX_FRAMES
        &&& self.fps <= MAX_FPS
        &&& 0 <= self.acc_ms < self.frames@.len() * 1000
    }

    /// The index of the frame currently selected.
    pub open spec fn spec_index(self) -> int {
        frame_index_of(self.acc_ms as int, self.fps as int, self.frames@.len() as int)
    }

    /// Builds an animation over `frames` playing at `fps`, starting at the
    /// first frame.
    pub fn with_fps(frames: Vec<Rectangle>, fps: u32) -> (r: AnimatedSprite)
        requires
            1 <= frames@.len() <= MAX_FRAMES,
            fps <= MAX_FPS,
        ensures
            r.frames == frames,
            r.fps == fps,
            r.acc_ms == 0,
            r.wf(),
    {
        AnimatedSprite { frames, fps, acc_ms: 0 }
    }

    /// Changes the playback rate without resetting the accumulator, so a
    /// rate change never jumps the animation back to its first frame.
    pub fn set_fps(&mut self, fps: u32)
        requires
            fps <= MAX_FPS,
        ensures
            *final(self) == (AnimatedSprite { fps, ..*old(self) }),
    {
        self.fps = fps;
    }

    /// Advances the accumulator by `dt` milliseconds, reducing it modulo one
    /// full playback cycle. The selected frame is exactly the one an
    /// unreduced accumulator would select, whatever rate is in force now or
    /// set later.
    pub fn add_time(&mut self, dt: i64)
        requires
            old(self).wf(),
            0 <= dt <= crate::data::MAX_DT,
        ensures
            final(self).frames == old(self).frames,
            final(self).fps == old(self).fps,
            final(self).wf(),
            final(self).acc_ms == (old(self).acc_ms + dt) % (old(self).frames@.len() as int
                * 1000),
            forall|f: int|
                0 <= f ==> frame_index_of(
                    final(self).acc_ms as int,
                    f,
                    old(self).frames@.len() as int,
                ) == frame_index_of(
                    old(self).acc_ms + dt,
                    f,
                    old(self).frames@.len() as int,
                ),
    {
        let count: i64 = self.frames.len() as i64;
        let cycle: i64 = count * 1000;
        let raw: i64 = self.acc_ms + dt;
        self.acc_ms = raw % cycle;
        proof {
            let l = (old(self).frames@.len() * 1000) as int;
            let a = old(self).acc_ms + dt;
            let n = old(self).frames@.len() as int;
            vstd::arithmetic::div_mod::lemma_mod_bound(a, l);
            assert forall|f: int| 0 <= f implies frame_index_of(a % l, f, n) == frame_index_of(
                a,
                f,
                n,
            ) by {
                lemma_reduced_accumulator(a, f, n);
            }
        }
    }

    /// The index of the frame the accumulator and rate currently select,
    /// always in bounds; a zero rate freezes the animation at frame 0.
    pub fn current_frame_index(&self) -> (i: usize)
        requires
            self.wf(),
        ensures
            i == self.spec_index(),
            i < self.frames@.len(),
    {
        if self.fps == 0 {
            0
        } else {
            proof {
                assert(0 <= self.acc_ms * (self.fps as i64) <= (MAX_FRAMES as i64) * 1000 * (
                MAX_FPS as i64)) by (nonlinear_arith)
                    requires
                        0 <= self.acc_ms < self.frames@.len() * 1000,
                        self.frames@.len() <= MAX_FRAMES,
                        0 < self.fps <= MAX_FPS,
                ;
            }
            let scaled: i64 = self.acc_ms * (self.fps as i64);
            let idx: usize = ((scaled / 1000) as usize) % self.frames.len();
            idx
        }
    }

    /// The sprite-sheet region of the currently selected frame.
    pub fn current_frame(&self) -> (r: Rectangle)
        requires
            self.wf(),
        ensures
            r == self.frames@[self.spec_index()],
    {
        let i = self.current_frame_index();
        self.frames[i]
    }
}

/// Reducing a non-negative accumulator `a` modulo the cycle length
/// `n * 1000` never changes the selected frame, for any whole rate `f`.
pub proof fn lemma_reduced_accumulator(a: int, f: int, n: int)
    requires
        0 <= a,
        0 <= f,
        1 <= n,
    ensures
        frame_index_of(a % (n * 1000), f, n) == frame_index_of(a, f, n),
{
    let l = n * 1000;
    assert(l > 0) by (nonlinear_arith)
        requires
            l == n * 1000,
            n >= 1,
    ;
    if f > 0 {
        let q = a / l;
        let rem = a % l;
        vstd::arithmetic::div_mod::lemma_fundamental_div_mod(a, l);
        vstd::arithmetic::div_mod::lemma_mod_bound(a, l);
        assert(a == q * l + rem);
        assert(q >= 0) by (nonlinear_arith)
            requires
                a >= 0,
                l > 0,
                a == q * l + rem,
                0 <= rem < l,
        ;
        assert(a * f == rem * f + (q * n * f) * 1000) by (nonlinear_arith)
            requires
                a == q * l + rem,
                l == n * 1000,
        ;
        vstd::arithmetic::div_mod::lemma_hoist_over_denominator(rem * f, q * n * f, 1000);
        assert((rem * f) / 1000 + q * n * f == (rem * f + (q * n * f) * 1000) / 1000);
        assert((a * f) / 1000 == (rem * f) / 1000 + (q * f) * n) by (nonlinear_arith)
            requires
                a * f == rem * f + (q * n * f) * 1000,
                (rem * f) / 1000 + q * n * f == (rem * f + (q * n * f) * 1000) / 1000,
        ;
        vstd::arithmetic::div_mod::lemma_mod_multiples_vanish(q * f, (rem * f) / 1000, n);
        assert((n * (q * f) + (rem * f) / 1000) % n == ((rem * f) / 1000) % n);
        assert((a * f) / 1000 == n * (q * f) + (rem * f) / 1000) by (nonlinear_arith)
            requires
                (a * f) / 1000 == (rem * f) / 1000 + (q * f) * n,
        ;
    }
}

} // verus!
