use vstd::prelude::*;

verus! {

/// The keys the game tracks. Any other key on the host keyboard is ignored
/// by the presentation layer before events reach the core.
#[derive(Clone, Copy, Debug, PartialEq, Eq, Structural)]
pub enum KeyCode {
    Escape,
    Up,
    Down,
    Left,
    Right,
    Space,
    Return,
    Num1,
    Num2,
    Num3,
}

/// One discrete hardware event delivered between two pumps.
#[derive(Clone, Copy, Debug, PartialEq, Eq, Structural)]
pub enum InputEvent {
    KeyDown(KeyCode),
    KeyUp(KeyCode),
    Quit,
}

/// A snapshot of the level state of every tracked key.
#[derive(Clone, Copy, Debug, PartialEq, Eq, Structural)]
pub struct Keys {
    pub key_escape: bool,
    pub key_up: bool,
    pub key_down: bool,
    pub key_left: bool,
    pub key_right: bool,
    pub key_space: bool,
    pub key_enter: bool,
    pub key_1: bool,
    pub key_2: bool,
    pub key_3: bool,
}

impl Keys {
    /// The snapshot with every key up.
    pub open spec fn spec_none_down() -> Keys {
        Keys {
            key_escape: false,
            key_up: false,
            key_down: false,
            key_left: false,
            key_right: false,
            key_space: false,
            key_enter: false,
            key_1: false,
            key_2: false,
            key_3: false,
        }
    }

    #[verifier::when_used_as_spec(spec_none_down)]
    pub fn none_down() -> (r: Keys)
        ensures
            r == Keys::spec_none_down(),
    {
        Keys {
            key_escape: false,
            key_up: false,
            key_down: false,
            key_left: false,
            key_right: false,
            key_space: false,
            key_enter: false,
            key_1: false,
            key_2: false,
            key_3: false,
        }
    }

    /// Level state of one key in this snapshot.
    pub open spec fn spec_get(self, k: KeyCode) -> bool {
        match k {
            KeyCode::Escape => self.key_escape,
            KeyCode::Up => self.key_up,
            KeyCode::Down => self.key_down,
            KeyCode::Left => self.key_left,
            KeyCode::Right => self.key_right,
            KeyCode::Space => self.key_space,
            KeyCode::Return => self.key_enter,
            KeyCode::Num1 => self.key_1,
            KeyCode::Num2 => self.key_2,
            KeyCode::Num3 => self.key_3,
        }
    }

    #[verifier::when_used_as_spec(spec_get)]
    pub fn get(self, k: KeyCode) -> (b: bool)
        ensures
            b == self.spec_get(k),
    {
        match k {
            KeyCode::Escape => self.key_escape,
            KeyCode::Up => self.key_up,
            KeyCode::Down => self.key_down,
            KeyCode::Left => self.key_left,
            KeyCode::Right => self.key_right,
            KeyCode::Space => self.key_space,
            KeyCode::Return => self.key_enter,
            KeyCode::Num1 => self.key_1,
            KeyCode::Num2 => self.key_2,
            KeyCode::Num3 => self.key_3,
        }
    }

    /// The snapshot with key `k` set to `v` and every other key unchanged.
    pub open spec fn spec_with(self, k: KeyCode, v: bool) -> Keys {
        match k {
            KeyCode::Escape => Keys { key_escape: v, ..self },
            KeyCode::Up => Keys { key_up: v, ..self },
            KeyCode::Down => Keys { key_down: v, ..self },
            KeyCode::Left => Keys { key_left: v, ..self },
            KeyCode::Right => Keys { key_right: v, ..self },
            KeyCode::Space => Keys { key_space: v, ..self },
            KeyCode::Return => Keys { key_enter: v, ..self },
            KeyCode::Num1 => Keys { key_1: v, ..self },
            KeyCode::Num2 => Keys { key_2: v, ..self },
            KeyCode::Num3 => Keys { key_3: v, ..self },
        }
    }

    fn set(&mut self, k: KeyCode, v: bool)
        ensures
            *final(self) == old(self).spec_with(k, v),
    {
        match k {
            KeyCode::Escape => self.key_escape = v,
            KeyCode::Up => self.key_up = v,
            KeyCode::Down => self.key_down = v,
            KeyCode::Left => self.key_left = v,
            KeyCode::Right => self.key_right = v,
            KeyCode::Space => self.key_space = v,
            KeyCode::Return => self.key_enter = v,
            KeyCode::Num1 => self.key_1 = v,
            KeyCode::Num2 => self.key_2 = v,
            KeyCode::Num3 => self.key_3 = v,
        }
    }
}

/// A key-down event lowers the key's level state to down, a key-up raises it
/// back; the quit request touches no key.
pub open spec fn apply_event(keys: Keys, ev: InputEvent) -> Keys {
    match ev {
        InputEvent::KeyDown(k) => keys.spec_with(k, true),
        InputEvent::KeyUp(k) => keys.spec_with(k, false),
        InputEvent::Quit => keys,
    }
}

/// The key snapshot after the whole batch of events of one pump, applied in
/// order of delivery. Keys named by no event keep their prior level state.
pub open spec fn apply_events(keys: Keys, evs: Seq<InputEvent>) -> Keys
    decreases evs.len(),
{
    if evs.len() == 0 {
        keys
    } else {
        apply_event(apply_events(keys, evs.drop_last()), evs.last())
    }
}

/// True when the batch contains a quit request.
pub open spec fn quit_in(evs: Seq<InputEvent>) -> bool
    decreases evs.len(),
{
    if evs.len() == 0 {
        false
    } else {
        quit_in(evs.drop_last()) || evs.last() is Quit
    }
}

/// Double-buffered input tracker: the key snapshot of the frame being built
/// (`current`), the snapshot of the previous frame (`previous`), and a quit
/// flag that stays raised once a quit request has been observed.
#[derive(Clone, Copy, Debug, PartialEq, Eq, Structural)]
pub struct Events {
    pub previous: Keys,
    pub current: Keys,
    pub quit: bool,
}

impl Events {
    /// The whole tracker state one pump with batch `evs` produces.
    pub open spec fn pumped(self, evs: Seq<InputEvent>) -> Events {
        Events {
            previous: self.current,
            current: apply_events(self.current, evs),
            quit: self.quit || quit_in(evs),
        }
    }

    /// Level view: the key is down on the current frame.
    pub open spec fn spec_held(&self, k: KeyCode) -> bool {
        self.current.spec_get(k)
    }

    /// Edge view: the key is down on the current frame and was up on the
    /// previous one.
    pub open spec fn spec_just_pressed(&self, k: KeyCode) -> bool {
        self.current.spec_get(k) && !self.previous.spec_get(k)
    }

    /// A fresh tracker: no key down on either frame, no quit requested.
    pub fn new() -> (r: Events)
        ensures
            r.previous == Keys::spec_none_down(),
            r.current == Keys::spec_none_down(),
            !r.quit,
    {
        Events { previous: Keys::none_down(), current: Keys::none_down(), quit: false }
    }

    /// One per-frame pump: the prior `current` becomes `previous`, the batch
    /// of events since the last pump is folded into `current` in order, and
    /// the quit flag is raised if the batch holds a quit request. An empty
    /// batch changes no key.
    pub fn pump(&mut self, evs: &Vec<InputEvent>)
        ensures
            *final(self) == old(self).pumped(evs@),
    {
        self.previous = self.current;
        let ghost start = self.current;
        let mut i: usize = 0;
        while i < evs.len()
            invariant
                0 <= i <= evs.len(),
                self.previous == old(self).current,
                self.current == apply_events(start, evs@.take(i as int)),
                self.quit == (old(self).quit || quit_in(evs@.take(i as int))),
                start == old(self).current,
            decreases evs.len() - i,
        {
            let ev = evs[i];
            proof {
                assert(evs@.take(i + 1).drop_last() =~= evs@.take(i as int));
                assert(evs@.take(i + 1).last() == evs@[i as int]);
            }
            match ev {
                InputEvent::KeyDown(k) => self.current.set(k, true),
                InputEvent::KeyUp(k) => self.current.set(k, false),
                InputEvent::Quit => self.quit = true,
            }
            i = i + 1;
        }
        proof {
            assert(evs@.take(evs@.len() as int) =~= evs@);
        }
    }

    #[verifier::when_used_as_spec(spec_held)]
    pub fn held(&self, k: KeyCode) -> (b: bool)
        ensures
            b == self.spec_held(k),
    {
        self.current.get(k)
    }

    #[verifier::when_used_as_spec(spec_just_pressed)]
    pub fn just_pressed(&self, k: KeyCode) -> (b: bool)
        ensures
            b == self.spec_just_pressed(k),
    {
        self.current.get(k) && !self.previous.get(k)
    }
}

/// Edge detection across two pumps. A pump delivering exactly one key-down
/// for a key that was up leaves the key both held and just-pressed; the next
/// pump with an empty batch leaves it held but no longer just-pressed.
pub proof fn lemma_key_down_edge(e: Events, k: KeyCode)
    requires
        !e.spec_held(k),
    ensures
        e.pumped(seq![InputEvent::KeyDown(k)]).spec_held(k),
        e.pumped(seq![InputEvent::KeyDown(k)]).spec_just_pressed(k),
        e.pumped(seq![InputEvent::KeyDown(k)]).pumped(Seq::empty()).spec_held(k),
        !e.pumped(seq![InputEvent::KeyDown(k)]).pumped(Seq::empty()).spec_just_pressed(k),
{
    let batch = seq![InputEvent::KeyDown(k)];
    assert(batch.drop_last() =~= Seq::<InputEvent>::empty());
    assert(apply_events(e.current, batch.drop_last()) == e.current);
    assert(batch.last() == InputEvent::KeyDown(k));
    assert(apply_events(e.current, batch) == e.current.spec_with(k, true));
    assert(apply_events(e.current.spec_with(k, true), Seq::empty()) == e.current.spec_with(
        k,
        true,
    ));
}

} // verus!
