use vstd::prelude::*;

verus! {

/// Level and edge of one button or key. Exactly one variant holds at a time.
#[derive(Copy, Clone, Eq, PartialEq, Debug, Structural)]
pub enum Action {
    /// Became active during the current frame.
    Pressed,
    /// Active, and was already active before the current frame.
    Down,
    /// Became inactive during the current frame.
    Released,
    /// Inactive, and was already inactive before the current frame.
    Up,
}

/// A raw edge that the backend reports for one button or key.
#[derive(Copy, Clone, Eq, PartialEq, Debug, Structural)]
pub enum RawAction {
    Press,
    Release,
    /// Key repeat: leaves the slot as it is.
    Repeat,
}

impl Action {
    /// The slot one frame later when no event arrives: edges become levels.
    pub open spec fn aged(self) -> Action {
        match self {
            Action::Pressed => Action::Down,
            Action::Released => Action::Up,
            Action::Down => Action::Down,
            Action::Up => Action::Up,
        }
    }

    /// The slot after a raw event: a press or a release overwrites whatever
    /// was there.
    pub open spec fn after(self, raw: RawAction) -> Action {
        match raw {
            RawAction::Press => Action::Pressed,
            RawAction::Release => Action::Released,
            RawAction::Repeat => self,
        }
    }

    /// Whether the slot is a level, which aging leaves alone.
    pub open spec fn is_level(self) -> bool {
        self == Action::Down || self == Action::Up
    }

    pub fn age(self) -> (r: Action)
        ensures
            r == self.aged(),
    {
        match self {
            Action::Pressed => Action::Down,
            Action::Released => Action::Up,
            Action::Down => Action::Down,
            Action::Up => Action::Up,
        }
    }

    pub fn apply(self, raw: RawAction) -> (r: Action)
        ensures
            r == self.after(raw),
    {
        match raw {
            RawAction::Press => Action::Pressed,
            RawAction::Release => Action::Released,
            RawAction::Repeat => self,
        }
    }

    pub fn is_pressed(&self) -> (r: bool)
        ensures
            r == (*self == Action::Pressed),
    {
        matches!(self, Action::Pressed)
    }

    pub fn is_down(&self) -> (r: bool)
        ensures
            r == (*self == Action::Down),
    {
        matches!(self, Action::Down)
    }

    pub fn is_released(&self) -> (r: bool)
        ensures
            r == (*self == Action::Released),
    {
        matches!(self, Action::Released)
    }

    pub fn is_up(&self) -> (r: bool)
        ensures
            r == (*self == Action::Up),
    {
        matches!(self, Action::Up)
    }

    pub fn is_pressed_or_down(&self) -> (r: bool)
        ensures
            r == (*self == Action::Pressed || *self == Action::Down),
    {
        matches!(self, Action::Pressed | Action::Down)
    }

    pub fn is_pressed_or_released(&self) -> (r: bool)
        ensures
            r == (*self == Action::Pressed || *self == Action::Released),
    {
        matches!(self, Action::Pressed | Action::Released)
    }

    pub fn is_pressed_or_up(&self) -> (r: bool)
        ensures
            r == (*self == Action::Pressed || *self == Action::Up),
    {
        matches!(self, Action::Pressed | Action::Up)
    }

    pub fn is_down_or_released(&self) -> (r: bool)
        ensures
            r == (*self == Action::Down || *self == Action::Released),
    {
        matches!(self, Action::Down | Action::Released)
    }

    pub fn is_down_or_up(&self) -> (r: bool)
        ensures
            r == (*self == Action::Down || *self == Action::Up),
    {
        matches!(self, Action::Down | Action::Up)
    }

    pub fn is_released_or_up(&self) -> (r: bool)
        ensures
            r == (*self == Action::Released || *self == Action::Up),
    {
        matches!(self, Action::Released | Action::Up)
    }
}

impl Default for Action {
    fn default() -> (r: Self)
        ensures
            r == Action::Up,
    {
        Action::Up
    }
}

/// Aging turns every slot into a level, and a level stays what it is: after
/// one frame without events a slot never changes again until an event comes.
pub proof fn lemma_aging_settles(a: Action)
    ensures
        a.aged().is_level(),
        a.aged().aged() == a.aged(),
        a.is_level() ==> a.aged() == a,
        a == Action::Pressed ==> a.aged() == Action::Down,
        a == Action::Released ==> a.aged() == Action::Up,
{
}

/// Of several raw events on one slot only the last press or release counts.
pub proof fn lemma_last_event_wins(a: Action, first: RawAction, second: RawAction)
    requires
        second != RawAction::Repeat,
    ensures
        a.after(first).after(second) == a.after(second),
{
}

} // verus!
