use vstd::prelude::*;
use crate::data::Rectangle;
use crate::events::Events;
use crate::events::KeyCode;
use crate::phi::ViewAction;

verus! {

/// The player entity of the opening view: a bare rectangle.
#[derive(Clone, Copy, Debug, PartialEq, Eq, Structural)]
pub struct Ship {
    pub rect: Rectangle,
}

/// The opening view: a single colored square standing in for the ship,
/// which quits on request and otherwise just asks to be presented.
#[derive(Clone, Copy, Debug, PartialEq, Eq, Structural)]
pub struct ShipView {
    pub player: Ship,
}

impl ShipView {
    /// The view's initial state: a 32 by 32 pixel square at (64, 64).
    pub open spec fn spec_new() -> ShipView {
        ShipView { player: Ship { rect: Rectangle { x: 64000, y: 64000, w: 32000, h: 32000 } } }
    }

    #[verifier::when_used_as_spec(spec_new)]
    pub fn new() -> (r: ShipView)
        ensures
            r == ShipView::spec_new(),
    {
        ShipView { player: Ship { rect: Rectangle { x: 64000, y: 64000, w: 32000, h: 32000 } } }
    }

    /// One frame of the view's logic: quit when a quit was requested or the
    /// escape key was just pressed, otherwise continue; the state never
    /// changes.
    pub fn render(&mut self, events: &Events) -> (a: ViewAction)
        ensures
            *final(self) == *old(self),
            a is Quit <==> (events.quit || events.spec_just_pressed(KeyCode::Escape)),
            !(events.quit || events.spec_just_pressed(KeyCode::Escape)) ==> a is Continue,
    {
        if events.quit || events.just_pressed(KeyCode::Escape) {
            ViewAction::Quit
        } else {
            ViewAction::Continue
        }
    }
}

} // verus!
