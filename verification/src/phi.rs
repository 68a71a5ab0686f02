use vstd::prelude::*;
use crate::data::MAX_COORD;
use crate::data::MAX_DT;
use crate::events::Events;
use crate::events::InputEvent;
use crate::events::Keys;
use crate::events::KeyCode;
use crate::game::ASTEROID_SIDE;
use crate::game::SHIP_W;
use crate::game::SHIP_H;
use crate::game::steps_to;
use crate::rng::Lcg;

verus! {

/// The directive the active view hands back to the game loop each frame. It
/// tells the scheduler what to do before the next rendering: carry on and
/// present, stop the program, or install the carried view in place of the
/// current one.
pub enum ViewAction {
    Continue,
    Quit,
    ChangeView(ViewState),
}

/// The closed set of views the scheduler can own. A `ChangeView` directive
/// carries exclusive ownership of a newly constructed value of this type;
/// the replaced view is dropped at once.
pub enum ViewState {
    Plain(crate::views::ShipView),
    Game(crate::game::ShipView),
}

impl ViewState {
    pub open spec fn wf(self) -> bool {
        match self {
            ViewState::Plain(_) => true,
            ViewState::Game(g) => g.wf(),
        }
    }
}

/// The pacing decision for one pass of the loop: either the frame interval
/// has not elapsed yet and the loop should sleep for the remainder and
/// re-measure, or a frame runs with the measured elapsed time.
pub enum Pace {
    Wait { delay: u32 },
    Run { elapsed: u32, fps_report: Option<u16> },
}

/// Frame-rate pacing with drift correction: wall-clock ticks are measured
/// against a fixed interval, and no game time advances while the loop waits
/// out the remainder. A frame counter is reported roughly once a second.
#[derive(Clone, Copy, Debug, PartialEq, Eq, Structural)]
pub struct FrameClock {
    pub interval: u32,
    pub before: u32,
    pub last_second: u32,
    pub fps_count: u16,
}

impl FrameClock {
    pub open spec fn wf(self) -> bool {
        self.last_second <= self.before
    }

    /// A clock started at tick `now`, pacing frames `interval` milliseconds
    /// apart.
    pub fn new(interval: u32, now: u32) -> (c: FrameClock)
        ensures
            c == (FrameClock { interval, before: now, last_second: now, fps_count: 0 }),
            c.wf(),
    {
        FrameClock { interval, before: now, last_second: now, fps_count: 0 }
    }

    /// One pacing decision at tick `now` (milliseconds, monotone). If fewer
    /// than `interval` ticks have elapsed since the last frame began, the
    /// caller should wait out the difference and try again: nothing
    /// advances. Otherwise a frame runs with exactly the measured elapsed
    /// ticks, and once more than a second has passed since the last report
    /// the frame count is reported and restarted.
    pub fn tick(&mut self, now: u32) -> (p: Pace)
        requires
            old(self).wf(),
            old(self).before <= now,
        ensures
            final(self).wf(),
            final(self).interval == old(self).interval,
            now - old(self).before < old(self).interval ==> p == (Pace::Wait {
                delay: (old(self).interval - (now - old(self).before)) as u32,
            }) && *final(self) == *old(self),
            now - old(self).before >= old(self).interval ==> {
                let dt = (now - old(self).before) as u32;
                let counted = vstd::wrapping::u16_specs::wrapping_add(old(self).fps_count, 1);
                let report = now - old(self).last_second > 1000;
                &&& final(self).before == now
                &&& p == (Pace::Run {
                    elapsed: dt,
                    fps_report: if report {
                        Some(counted)
                    } else {
                        None
                    },
                })
                &&& final(self).last_second == (if report {
                    now
                } else {
                    old(self).last_second
                })
                &&& final(self).fps_count == (if report {
                    0u16
                } else {
                    counted
                })
            },
    {
        let dt: u32 = now - self.before;
        if dt < self.interval {
            return Pace::Wait { delay: self.interval - dt };
        }
        self.before = now;
        self.fps_count = self.fps_count.wrapping_add(1);
        let report: Option<u16> = if now - self.last_second > 1000 {
            let c = self.fps_count;
            self.last_second = now;
            self.fps_count = 0;
            Some(c)
        } else {
            None
        };
        Pace::Run { elapsed: dt, fps_report: report }
    }
}

/// What the scheduler does after one frame: present the frame buffer and
/// loop, loop without presenting because the view was just swapped, or stop
/// the program.
#[derive(Clone, Copy, Debug, PartialEq, Eq, Structural)]
pub enum FrameOutcome {
    Present,
    Swapped,
    Stop,
}

/// The scheduler's state: the single active view slot and the input
/// tracker it pumps exactly once per frame, before any view logic runs.
pub struct Session {
    pub view: ViewState,
    pub events: Events,
}

impl Session {
    pub open spec fn wf(self) -> bool {
        self.view.wf()
    }

    /// A session owning the caller-supplied initial view and a fresh input
    /// tracker.
    pub fn new(view: ViewState) -> (s: Session)
        ensures
            s.view == view,
            s.events == (Events {
                previous: Keys::spec_none_down(),
                current: Keys::spec_none_down(),
                quit: false,
            }),
    {
        Session { view, events: Events::new() }
    }

    /// One frame: pump the batch of input events, dispatch the active
    /// view's logic, and apply the returned directive. `Continue` presents;
    /// `Quit` stops the loop; `ChangeView` installs the carried view in the
    /// slot — the frame is not presented, the replaced view is dropped at
    /// once and is never dispatched to again, and the next frame's call
    /// goes to the carried view.
    pub fn frame(
        &mut self,
        evs: &Vec<InputEvent>,
        elapsed: i64,
        viewport_w: i64,
        viewport_h: i64,
        rng: &mut Lcg,
    ) -> (o: FrameOutcome)
        requires
            old(self).wf(),
            0 <= elapsed <= MAX_DT,
            0 < viewport_w <= MAX_COORD,
            ASTEROID_SIDE < viewport_h <= MAX_COORD,
            viewport_w * 7 / 10 >= SHIP_W,
            viewport_h >= SHIP_H,
        ensures
            final(self).wf(),
            final(self).events == old(self).events.pumped(evs@),
            ({
                let e = old(self).events.pumped(evs@);
                match old(self).view {
                    ViewState::Plain(v) => {
                        &&& *final(rng) == *old(rng)
                        &&& (e.quit || e.spec_just_pressed(KeyCode::Escape) ==> o
                            == FrameOutcome::Stop && final(self).view == old(self).view)
                        &&& (!(e.quit || e.spec_just_pressed(KeyCode::Escape)) ==> o
                            == FrameOutcome::Present && final(self).view == old(self).view)
                    },
                    ViewState::Game(g) => {
                        &&& (e.quit ==> o == FrameOutcome::Stop && final(self).view == old(
                            self,
                        ).view && *final(rng) == *old(rng))
                        &&& (!e.quit && e.spec_just_pressed(KeyCode::Escape) ==> o
                            == FrameOutcome::Swapped && final(self).view == ViewState::Plain(
                            crate::views::ShipView::spec_new(),
                        ) && *final(rng) == *old(rng))
                        &&& (!e.quit && !e.spec_just_pressed(KeyCode::Escape) ==> o
                            == FrameOutcome::Present && (final(self).view matches ViewState::Game(
                            g2,
                        ) && steps_to(g, g2, e, elapsed, viewport_w, viewport_h, old(rng).state))
                            && final(rng).state == g.asteroid.stepped_rng(
                            elapsed,
                            old(rng).state,
                        ))
                    },
                }
            }),
    {
        self.events.pump(evs);
        let action = match &mut self.view {
            ViewState::Plain(v) => v.render(&self.events),
            ViewState::Game(g) => g.render(&self.events, elapsed, viewport_w, viewport_h, rng),
        };
        match action {
            ViewAction::Continue => FrameOutcome::Present,
            ViewAction::Quit => FrameOutcome::Stop,
            ViewAction::ChangeView(v) => {
                self.view = v;
                FrameOutcome::Swapped
            },
        }
    }
}

} // verus!
