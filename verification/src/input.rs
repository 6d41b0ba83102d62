//! The keyboard as the game sees it: one latch per logical key, which turns
//! the state of the key at two successive ticks into pressed and released edges.

use vstd::prelude::*;

verus! {

/// Mathematical model of a [`Latch`]: the level at the previous tick and now.
pub struct LatchView {
    pub prev: bool,
    pub curr: bool,
}

impl LatchView {
    pub open spec fn fresh() -> LatchView {
        LatchView { prev: false, curr: false }
    }

    pub open spec fn set(self, value: bool) -> LatchView {
        LatchView { prev: self.prev, curr: value }
    }

    pub open spec fn tick(self) -> LatchView {
        LatchView { prev: self.curr, curr: self.curr }
    }

    /// The level rose since the previous tick.
    pub open spec fn is_front_edge(self) -> bool {
        self.curr && !self.prev
    }

    /// The level fell since the previous tick.
    pub open spec fn is_back_edge(self) -> bool {
        self.prev && !self.curr
    }
}

/// Remembers the level of one key at the previous tick and the current one.
pub struct Latch {
    prev: bool,
    curr: bool,
}

impl View for Latch {
    type V = LatchView;

    closed spec fn view(&self) -> LatchView {
        LatchView { prev: self.prev, curr: self.curr }
    }
}

impl Latch {
    pub fn new() -> (latch: Latch)
        ensures
            latch@ == LatchView::fresh(),
    {
        Latch { prev: false, curr: false }
    }

    /// Records the current level of the key.
    pub fn set(&mut self, value: bool)
        ensures
            final(self)@ == old(self)@.set(value),
    {
        self.curr = value;
    }

    pub fn is_front_edge(&self) -> (b: bool)
        ensures
            b == self@.is_front_edge(),
    {
        self.curr && !self.prev
    }

    pub fn is_back_edge(&self) -> (b: bool)
        ensures
            b == self@.is_back_edge(),
    {
        self.prev && !self.curr
    }

    /// Ends the tick: the current level becomes the previous one.
    pub fn tick(&mut self)
        ensures
            final(self)@ == old(self)@.tick(),
    {
        self.prev = self.curr;
    }
}

/// The logical keys.
#[derive(Clone, Copy, Debug, PartialEq, Eq, Structural)]
pub enum Key {
    Up,
    Down,
    Left,
    Right,
    Escape,
    Return,
    Space,
    A,
    B,
    C,
    D,
    E,
    F,
    G,
    H,
    I,
    J,
    K,
    L,
    M,
    N,
    O,
    P,
    Q,
    R,
    S,
    T,
    U,
    V,
    W,
    X,
    Y,
    Z,
    Num1,
    Num2,
    Num3,
    Num4,
    Num5,
    Num6,
    Num7,
    Num8,
    Num9,
    Num0,
    Minus,
    Equals,
}

/// Number of logical keys.
pub const KEY_COUNT: usize = 45;

impl Key {
    /// Position of the key in the order of declaration.
    pub open spec fn ordinal(self) -> int {
        match self {
            Key::Up => 0,
            Key::Down => 1,
            Key::Left => 2,
            Key::Right => 3,
            Key::Escape => 4,
            Key::Return => 5,
            Key::Space => 6,
            Key::A => 7,
            Key::B => 8,
            Key::C => 9,
            Key::D => 10,
            Key::E => 11,
            Key::F => 12,
            Key::G => 13,
            Key::H => 14,
            Key::I => 15,
            Key::J => 16,
            Key::K => 17,
            Key::L => 18,
            Key::M => 19,
            Key::N => 20,
            Key::O => 21,
            Key::P => 22,
            Key::Q => 23,
            Key::R => 24,
            Key::S => 25,
            Key::T => 26,
            Key::U => 27,
            Key::V => 28,
            Key::W => 29,
            Key::X => 30,
            Key::Y => 31,
            Key::Z => 32,
            Key::Num1 => 33,
            Key::Num2 => 34,
            Key::Num3 => 35,
            Key::Num4 => 36,
            Key::Num5 => 37,
            Key::Num6 => 38,
            Key::Num7 => 39,
            Key::Num8 => 40,
            Key::Num9 => 41,
            Key::Num0 => 42,
            Key::Minus => 43,
            Key::Equals => 44,
        }
    }

    /// Every key has a position of its own below the number of keys.
    pub proof fn lemma_ordinal(self, other: Key)
        ensures
            0 <= self.ordinal() < KEY_COUNT,
            self.ordinal() == other.ordinal() ==> self == other,
    {
    }

    /// Computes the position of the key.
    pub fn index(self) -> (i: usize)
        ensures
            i == self.ordinal(),
            i < KEY_COUNT,
    {
        match self {
            Key::Up => 0,
            Key::Down => 1,
            Key::Left => 2,
            Key::Right => 3,
            Key::Escape => 4,
            Key::Return => 5,
            Key::Space => 6,
            Key::A => 7,
            Key::B => 8,
            Key::C => 9,
            Key::D => 10,
            Key::E => 11,
            Key::F => 12,
            Key::G => 13,
            Key::H => 14,
            Key::I => 15,
            Key::J => 16,
            Key::K => 17,
            Key::L => 18,
            Key::M => 19,
            Key::N => 20,
            Key::O => 21,
            Key::P => 22,
            Key::Q => 23,
            Key::R => 24,
            Key::S => 25,
            Key::T => 26,
            Key::U => 27,
            Key::V => 28,
            Key::W => 29,
            Key::X => 30,
            Key::Y => 31,
            Key::Z => 32,
            Key::Num1 => 33,
            Key::Num2 => 34,
            Key::Num3 => 35,
            Key::Num4 => 36,
            Key::Num5 => 37,
            Key::Num6 => 38,
            Key::Num7 => 39,
            Key::Num8 => 40,
            Key::Num9 => 41,
            Key::Num0 => 42,
            Key::Minus => 43,
            Key::Equals => 44,
        }
    }
}

/// What the keyboard reports: a logical key went down or up, or something
/// that no latch follows.
#[derive(Clone, Copy, Debug, PartialEq, Eq, Structural)]
pub enum KeyEvent {
    Pressed(Key),
    Released(Key),
    Other,
}

/// Mathematical model of an [`Input`]: the latches in the order of the keys.
pub struct InputView {
    pub latches: Seq<LatchView>,
}

impl InputView {
    pub open spec fn wf(self) -> bool {
        self.latches.len() == KEY_COUNT
    }

    /// No key has been touched.
    pub open spec fn fresh() -> InputView {
        InputView { latches: Seq::new(KEY_COUNT as nat, |i: int| LatchView::fresh()) }
    }

    pub open spec fn latch(self, key: Key) -> LatchView {
        self.latches[key.ordinal()]
    }

    /// The level of `key` is recorded; the other latches stay.
    pub open spec fn set(self, key: Key, value: bool) -> InputView {
        InputView { latches: self.latches.update(key.ordinal(), self.latch(key).set(value)) }
    }

    pub open spec fn on_event(self, event: KeyEvent) -> InputView {
        match event {
            KeyEvent::Pressed(key) => self.set(key, true),
            KeyEvent::Released(key) => self.set(key, false),
            KeyEvent::Other => self,
        }
    }

    /// Every latch ends its tick.
    pub open spec fn tick(self) -> InputView {
        InputView { latches: Seq::new(self.latches.len(), |i: int| self.latches[i].tick()) }
    }

    /// `key` became pressed this tick.
    pub open spec fn is_front_edge(self, key: Key) -> bool {
        self.latch(key).is_front_edge()
    }

    /// `key` became released this tick.
    pub open spec fn is_back_edge(self, key: Key) -> bool {
        self.latch(key).is_back_edge()
    }
}

/// The latches of all logical keys.
pub struct Input {
    keys: Vec<Latch>,
}

impl View for Input {
    type V = InputView;

    closed spec fn view(&self) -> InputView {
        InputView { latches: Seq::new(self.keys@.len(), |i: int| self.keys@[i]@) }
    }
}

impl Input {
    /// Creates the latches, one per key, all at rest.
    pub fn new() -> (input: Input)
        ensures
            input@ == InputView::fresh(),
            input@.wf(),
    {
        let mut keys: Vec<Latch> = Vec::new();
        let mut i: usize = 0;
        while i < KEY_COUNT
            invariant
                i <= KEY_COUNT,
                keys@.len() == i,
                forall|k: int| 0 <= k < i ==> (#[trigger] keys@[k])@ == LatchView::fresh(),
            decreases KEY_COUNT - i,
        {
            keys.push(Latch::new());
            i += 1;
        }
        let input = Input { keys };
        assert(input@.latches =~= InputView::fresh().latches);
        input
    }

    /// Follows one report of the keyboard.
    pub fn on_event(&mut self, event: KeyEvent)
        requires
            old(self)@.wf(),
        ensures
            final(self)@ == old(self)@.on_event(event),
            final(self)@.wf(),
    {
        match event {
            KeyEvent::Pressed(key) => {
                self.keys[key.index()].set(true);
            },
            KeyEvent::Released(key) => {
                self.keys[key.index()].set(false);
            },
            KeyEvent::Other => {},
        }
        assert(self@.latches =~= old(self)@.on_event(event).latches);
    }

    /// Ends the tick for every key: edges seen so far are forgotten.
    pub fn tick(&mut self)
        requires
            old(self)@.wf(),
        ensures
            final(self)@ == old(self)@.tick(),
            final(self)@.wf(),
    {
        let mut i: usize = 0;
        while i < KEY_COUNT
            invariant
                i <= KEY_COUNT,
                self.keys@.len() == KEY_COUNT,
                old(self).keys@.len() == KEY_COUNT,
                forall|k: int| 0 <= k < i ==> (#[trigger] self.keys@[k])@ == old(self).keys@[k]@.tick(),
                forall|k: int| i <= k < KEY_COUNT ==> (#[trigger] self.keys@[k])@ == old(self).keys@[k]@,
            decreases KEY_COUNT - i,
        {
            self.keys[i].tick();
            i += 1;
        }
        assert(self@.latches =~= old(self)@.tick().latches);
    }

    /// Whether `key` became pressed this tick.
    pub fn is_front_edge(&self, key: Key) -> (b: bool)
        requires
            self@.wf(),
        ensures
            b == self@.is_front_edge(key),
    {
        self.keys[key.index()].is_front_edge()
    }

    /// Whether `key` became released this tick.
    pub fn is_back_edge(&self, key: Key) -> (b: bool)
        requires
            self@.wf(),
        ensures
            b == self@.is_back_edge(key),
    {
        self.keys[key.index()].is_back_edge()
    }
}

} // verus!
