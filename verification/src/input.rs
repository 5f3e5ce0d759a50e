use vstd::prelude::*;

verus! {

/// The logical buttons of the game.
#[derive(Debug, Copy, Clone, PartialEq, Eq, Structural)]
pub enum ButtonType {
    Jump,
    Switch,
    Ability,
    SwitchAndAbility,
    Left,
    Right,
    Up,
    Down,
    Pause,
    Confirm,
}

/// Number of logical buttons.
pub const BUTTON_COUNT: usize = 10;

impl ButtonType {
    /// Position of the button in the declaration order.
    pub open spec fn spec_index(self) -> int {
        match self {
            ButtonType::Jump => 0,
            ButtonType::Switch => 1,
            ButtonType::Ability => 2,
            ButtonType::SwitchAndAbility => 3,
            ButtonType::Left => 4,
            ButtonType::Right => 5,
            ButtonType::Up => 6,
            ButtonType::Down => 7,
            ButtonType::Pause => 8,
            ButtonType::Confirm => 9,
        }
    }

    pub fn index(self) -> (i: usize)
        ensures
            i == self.spec_index(),
            i < BUTTON_COUNT,
    {
        match self {
            ButtonType::Jump => 0,
            ButtonType::Switch => 1,
            ButtonType::Ability => 2,
            ButtonType::SwitchAndAbility => 3,
            ButtonType::Left => 4,
            ButtonType::Right => 5,
            ButtonType::Up => 6,
            ButtonType::Down => 7,
            ButtonType::Pause => 8,
            ButtonType::Confirm => 9,
        }
    }

    /// The button at a position of the declaration order, if there is one.
    pub fn from_usize(i: usize) -> (res: Option<ButtonType>)
        ensures
            i < BUTTON_COUNT <==> res is Some,
            res matches Some(typ) ==> typ.spec_index() == i,
    {
        match i {
            0 => Some(ButtonType::Jump),
            1 => Some(ButtonType::Switch),
            2 => Some(ButtonType::Ability),
            3 => Some(ButtonType::SwitchAndAbility),
            4 => Some(ButtonType::Left),
            5 => Some(ButtonType::Right),
            6 => Some(ButtonType::Up),
            7 => Some(ButtonType::Down),
            8 => Some(ButtonType::Pause),
            9 => Some(ButtonType::Confirm),
            _ => None,
        }
    }

    /// Distinct buttons have distinct positions, all below [`BUTTON_COUNT`].
    pub proof fn lemma_index_injective(self, other: ButtonType)
        ensures
            0 <= self.spec_index() < BUTTON_COUNT,
            self.spec_index() == other.spec_index() ==> self == other,
    {
    }
}

/// State of one button: released, or held for a number of ticks.
#[derive(Debug, Copy, Clone, PartialEq, Eq, Structural)]
pub struct Button {
    pressed_ticks: Option<i32>,
}

impl View for Button {
    type V = Option<i32>;

    /// `None` while released; `Some(n)` once the press has been seen by `n`
    /// ticks.
    closed spec fn view(&self) -> Option<i32> {
        self.pressed_ticks
    }
}

impl Button {
    /// A released button.
    pub fn new() -> (b: Button)
        ensures
            b@ is None,
    {
        Button { pressed_ticks: None }
    }

    /// Whether the button is held.
    pub fn pressed(&self) -> (res: bool)
        ensures
            res == (self@ is Some),
    {
        self.pressed_ticks.is_some()
    }

    /// Whether this is the first tick that sees the press.
    pub fn pressed_first_frame(&self) -> (res: bool)
        ensures
            res == (self@ == Some(1i32)),
    {
        match self.pressed_ticks {
            Some(t) => t == 1,
            None => false,
        }
    }

    /// Number of ticks that have seen the press, if the button is held.
    pub fn pressed_ticks(&self) -> (res: Option<i32>)
        ensures
            res == self@,
    {
        self.pressed_ticks
    }
}

/// What one more tick makes of a button: a held button has been held one
/// tick longer, a released one stays released.
pub open spec fn aged(b: Option<i32>) -> Option<i32> {
    match b {
        Some(t) => Some((t + 1) as i32),
        None => None,
    }
}

/// The per-tick snapshot of all buttons.
#[derive(Debug)]
pub struct Input {
    buttons: [Button; 10],
}

impl View for Input {
    type V = Seq<Option<i32>>;

    /// The state of every button, by [`ButtonType::spec_index`].
    closed spec fn view(&self) -> Seq<Option<i32>> {
        Seq::new(BUTTON_COUNT as nat, |i: int| self.buttons@[i]@)
    }
}

impl Input {
    /// The state of one button.
    pub open spec fn button(&self, typ: ButtonType) -> Option<i32> {
        self@[typ.spec_index()]
    }

    /// Left and right cancel each other: -1 for left, 1 for right, else 0.
    pub open spec fn spec_horizontal(&self) -> int {
        (if self.button(ButtonType::Right) is Some { 1int } else { 0int })
            - (if self.button(ButtonType::Left) is Some { 1int } else { 0int })
    }

    /// Up and down cancel each other: -1 for up, 1 for down, else 0.
    pub open spec fn spec_vertical(&self) -> int {
        (if self.button(ButtonType::Down) is Some { 1int } else { 0int })
            - (if self.button(ButtonType::Up) is Some { 1int } else { 0int })
    }

    /// Whether one of the two ability buttons is held.
    pub open spec fn spec_ability_button_pressed(&self) -> bool {
        self.button(ButtonType::Ability) is Some || self.button(ButtonType::SwitchAndAbility) is Some
    }

    /// Whether the press of one of the two ability buttons began this tick.
    pub open spec fn spec_ability_button_pressed_first_frame(&self) -> bool {
        self.button(ButtonType::Ability) == Some(1i32) || self.button(
            ButtonType::SwitchAndAbility,
        ) == Some(1i32)
    }

    /// No held button has reached the largest count a tick can still raise.
    pub open spec fn can_tick(&self) -> bool {
        forall|i: int| 0 <= i < BUTTON_COUNT ==> (#[trigger] self@[i] matches Some(t) ==> t < i32::MAX)
    }

    /// All buttons released.
    pub fn new() -> (input: Input)
        ensures
            input@.len() == BUTTON_COUNT,
            forall|i: int| 0 <= i < BUTTON_COUNT ==> input@[i] is None,
    {
        Input { buttons: [Button::new(); 10] }
    }

    /// Whether [`Input::tick`] may be called: no held button has reached the
    /// largest count.
    pub fn ready_to_tick(&self) -> (res: bool)
        ensures
            res == self.can_tick(),
    {
        let mut i: usize = 0;
        while i < 10
            invariant
                i <= 10,
                forall|j: int| 0 <= j < i ==> (#[trigger] self@[j] matches Some(t) ==> t < i32::MAX),
            decreases 10 - i,
        {
            match self.buttons[i].pressed_ticks {
                Some(t) => {
                    if t == i32::MAX {
                        assert(self@[i as int] == Some(t));
                        return false;
                    }
                },
                None => {},
            }
            assert(self@[i as int] == self.buttons@[i as int]@);
            i += 1;
        }
        true
    }

    /// Ages every held button by one tick.
    pub fn tick(&mut self)
        requires
            old(self).can_tick(),
        ensures
            final(self)@.len() == BUTTON_COUNT,
            forall|i: int| 0 <= i < BUTTON_COUNT ==> final(self)@[i] == aged(old(self)@[i]),
            forall|typ: ButtonType| #[trigger] final(self).button(typ) == aged(old(self).button(typ)),
    {
        let mut i: usize = 0;
        while i < 10
            invariant
                i <= 10,
                old(self).can_tick(),
                self@.len() == 10,
                forall|j: int| 0 <= j < i ==> #[trigger] self@[j] == aged(old(self)@[j]),
                forall|j: int| i <= j < 10 ==> #[trigger] self@[j] == old(self)@[j],
            decreases 10 - i,
        {
            let ghost before = self@;
            assert(before[i as int] == old(self)@[i as int]);
            match self.buttons[i].pressed_ticks {
                Some(t) => {
                    assert(before[i as int] == Some(t));
                    self.buttons[i] = Button { pressed_ticks: Some(t + 1) };
                    assert(self@[i as int] == Some((t + 1) as i32));
                },
                None => {
                    assert(before[i as int] is None);
                },
            }
            assert(self@[i as int] == aged(before[i as int]));
            assert(forall|j: int| 0 <= j < 10 && j != i ==> #[trigger] self@[j] == before[j]);
            i += 1;
        }
    }

    /// Registers a press. The next tick is the first to see it. A button
    /// that is already held keeps its count, and no other button changes.
    pub fn set_button_pressed(&mut self, typ: ButtonType)
        ensures
            final(self)@.len() == BUTTON_COUNT,
            final(self).button(typ) == if old(self).button(typ) is Some {
                old(self).button(typ)
            } else {
                Some(0i32)
            },
            forall|other: ButtonType|
                other != typ ==> #[trigger] final(self).button(other) == old(self).button(other),
            final(self)@ == old(self)@.update(
                typ.spec_index(),
                if old(self).button(typ) is Some {
                    old(self).button(typ)
                } else {
                    Some(0i32)
                },
            ),
    {
        let i = typ.index();
        if !self.buttons[i].pressed_ticks.is_some() {
            self.buttons[i] = Button { pressed_ticks: Some(0) };
        }
        assert(self@ =~= old(self)@.update(
            typ.spec_index(),
            if old(self).button(typ) is Some {
                old(self).button(typ)
            } else {
                Some(0i32)
            },
        ));
        assert forall|other: ButtonType| other != typ implies #[trigger] self.button(other)
            == old(self).button(other) by {
            typ.lemma_index_injective(other);
            other.lemma_index_injective(typ);
        }
    }

    /// Registers a release. No other button changes.
    pub fn set_button_released(&mut self, typ: ButtonType)
        ensures
            final(self)@.len() == BUTTON_COUNT,
            final(self).button(typ) is None,
            forall|other: ButtonType|
                other != typ ==> #[trigger] final(self).button(other) == old(self).button(other),
            final(self)@ == old(self)@.update(typ.spec_index(), None),
    {
        let i = typ.index();
        self.buttons[i] = Button { pressed_ticks: None };
        assert(self@ =~= old(self)@.update(typ.spec_index(), None));
        assert forall|other: ButtonType| other != typ implies #[trigger] self.button(other)
            == old(self).button(other) by {
            typ.lemma_index_injective(other);
            other.lemma_index_injective(typ);
        }
    }

    /// A snapshot holds one entry for each button.
    pub proof fn lemma_len(&self)
        ensures
            self@.len() == BUTTON_COUNT,
    {
    }

    /// The state of one button.
    pub fn get_button(&self, typ: ButtonType) -> (b: &Button)
        ensures
            b@ == self.button(typ),
    {
        &self.buttons[typ.index()]
    }

    /// Left and right cancel each other: -1 for left, 1 for right, else 0.
    pub fn horizontal(&self) -> (h: i32)
        ensures
            h == self.spec_horizontal(),
            -1 <= h <= 1,
    {
        let right: i32 = if self.get_button(ButtonType::Right).pressed() { 1 } else { 0 };
        let left: i32 = if self.get_button(ButtonType::Left).pressed() { 1 } else { 0 };
        right - left
    }

    /// Up and down cancel each other: -1 for up, 1 for down, else 0.
    pub fn vertical(&self) -> (v: i32)
        ensures
            v == self.spec_vertical(),
            -1 <= v <= 1,
    {
        let down: i32 = if self.get_button(ButtonType::Down).pressed() { 1 } else { 0 };
        let up: i32 = if self.get_button(ButtonType::Up).pressed() { 1 } else { 0 };
        down - up
    }

    /// Whether the press of one of the two ability buttons began this tick.
    pub fn ability_button_pressed_first_frame(&self) -> (res: bool)
        ensures
            res == self.spec_ability_button_pressed_first_frame(),
    {
        self.get_button(ButtonType::Ability).pressed_first_frame() || self.get_button(
            ButtonType::SwitchAndAbility,
        ).pressed_first_frame()
    }

    /// Whether one of the two ability buttons is held.
    pub fn ability_button_pressed(&self) -> (res: bool)
        ensures
            res == self.spec_ability_button_pressed(),
    {
        self.get_button(ButtonType::Ability).pressed() || self.get_button(
            ButtonType::SwitchAndAbility,
        ).pressed()
    }

    /// A held button counts one tick more with every tick, so that exactly
    /// the first tick after the press sees the press as fresh; a released
    /// button stays released.
    pub proof fn lemma_first_frame(ticks: i32)
        requires
            0 <= ticks < i32::MAX,
        ensures
            aged(Some(ticks)) == Some((ticks + 1) as i32),
            aged(Some(ticks)) == Some(1i32) <==> ticks == 0,
            aged(None) is None,
    {
    }
}

} // verus!
