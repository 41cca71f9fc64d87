use vstd::prelude::*;
use std::collections::VecDeque;
use std::path::PathBuf;
use crate::action::{Action, RawAction};
use crate::event::{all_wf, copy_path, WindowEvent, KEY_COUNT, MOUSE_BUTTON_COUNT};

verus! {

/// Whether the binary64 number with these bits is greater than zero.
pub open spec fn scalar_is_positive(bits: u64) -> bool {
    0 < bits <= 0x7FF0_0000_0000_0000
}

/// Whether the binary64 number with these bits is less than zero.
pub open spec fn scalar_is_negative(bits: u64) -> bool {
    0x8000_0000_0000_0000 < bits <= 0xFFF0_0000_0000_0000
}

/// Whether the binary64 number with these bits differs from zero (a NaN
/// does).
pub open spec fn scalar_is_nonzero(bits: u64) -> bool {
    bits != 0 && bits != 0x8000_0000_0000_0000
}

/// Every slot aged by one frame.
pub open spec fn aged_slots(slots: Seq<Action>) -> Seq<Action> {
    Seq::new(slots.len(), |i: int| slots[i].aged())
}

/// What a mouse holds.
pub struct MouseView {
    pub x: u64,
    pub y: u64,
    pub last_x: u64,
    pub last_y: u64,
    pub cursor_in: bool,
    pub scroll_x: u64,
    pub scroll_y: u64,
    pub buttons: Seq<Action>,
}

impl MouseView {
    /// The mouse at the start of the next frame: the position becomes the
    /// previous position, the scroll falls back to zero, the buttons age,
    /// and the cursor flag stays.
    pub open spec fn aged(self) -> MouseView {
        MouseView {
            x: self.x,
            y: self.y,
            last_x: self.x,
            last_y: self.y,
            cursor_in: self.cursor_in,
            scroll_x: 0,
            scroll_y: 0,
            buttons: aged_slots(self.buttons),
        }
    }

    pub open spec fn after(self, event: WindowEvent) -> MouseView {
        match event {
            WindowEvent::MouseButton(code, raw) => if raw == RawAction::Repeat {
                self
            } else {
                MouseView {
                    buttons: self.buttons.update(code as int, self.buttons[code as int].after(raw)),
                    ..self
                }
            },
            WindowEvent::CursorPos(x, y) => MouseView { x: x, y: y, ..self },
            WindowEvent::CursorEnter(inside) => MouseView { cursor_in: inside, ..self },
            WindowEvent::Scroll(x, y) => MouseView { scroll_x: x, scroll_y: y, ..self },
            _ => self,
        }
    }
}

/// Mouse position, wheel and buttons. Scalars are binary64 bit patterns.
pub struct Mouse {
    x: u64,
    y: u64,
    last_x: u64,
    last_y: u64,
    cursor_in: bool,
    scroll_x: u64,
    scroll_y: u64,
    buttons: [Action; MOUSE_BUTTON_COUNT],
}

impl View for Mouse {
    type V = MouseView;

    closed spec fn view(&self) -> MouseView {
        MouseView {
            x: self.x,
            y: self.y,
            last_x: self.last_x,
            last_y: self.last_y,
            cursor_in: self.cursor_in,
            scroll_x: self.scroll_x,
            scroll_y: self.scroll_y,
            buttons: self.buttons@,
        }
    }
}

impl Mouse {
    /// A mouse always has one slot for each legal button code.
    pub proof fn lemma_slots(&self)
        ensures
            self@.buttons.len() == MOUSE_BUTTON_COUNT,
    {
    }

    /// A mouse at the origin, outside the window, with every button `Up`.
    pub fn new() -> (r: Mouse)
        ensures
            r@.x == 0 && r@.y == 0 && r@.last_x == 0 && r@.last_y == 0,
            r@.scroll_x == 0 && r@.scroll_y == 0,
            !r@.cursor_in,
            r@.buttons.len() == MOUSE_BUTTON_COUNT,
            forall|code: int| 0 <= code < MOUSE_BUTTON_COUNT ==> r@.buttons[code] == Action::Up,
    {
        Mouse {
            x: 0,
            y: 0,
            last_x: 0,
            last_y: 0,
            cursor_in: false,
            scroll_x: 0,
            scroll_y: 0,
            buttons: [Action::Up;MOUSE_BUTTON_COUNT],
        }
    }

    /// Start of a frame.
    pub fn update(&mut self)
        ensures
            final(self)@ == old(self)@.aged(),
    {
        self.last_x = self.x;
        self.last_y = self.y;
        self.scroll_x = 0;
        self.scroll_y = 0;
        let ghost before = self.buttons@;
        let mut i: usize = 0;
        while i < MOUSE_BUTTON_COUNT
            invariant
                i <= MOUSE_BUTTON_COUNT,
                self.x == old(self).x,
                self.y == old(self).y,
                self.last_x == old(self).x,
                self.last_y == old(self).y,
                self.cursor_in == old(self).cursor_in,
                self.scroll_x == 0,
                self.scroll_y == 0,
                before == old(self).buttons@,
                forall|j: int| 0 <= j < i ==> self.buttons@[j] == before[j].aged(),
                forall|j: int| i <= j < MOUSE_BUTTON_COUNT ==> self.buttons@[j] == before[j],
            decreases MOUSE_BUTTON_COUNT - i,
        {
            let slot = self.buttons[i];
            self.buttons[i] = slot.age();
            i += 1;
        }
        assert(self.buttons@ =~= aged_slots(before));
    }

    /// Applies one backend event; events that do not concern the mouse
    /// change nothing.
    pub fn apply(&mut self, event: &WindowEvent)
        requires
            event.wf(),
        ensures
            final(self)@ == old(self)@.after(*event),
    {
        match event {
            WindowEvent::MouseButton(code, raw) => {
                if !matches!(raw, RawAction::Repeat) {
                    let slot = self.buttons[*code];
                    self.buttons[*code] = slot.apply(*raw);
                }
            },
            WindowEvent::CursorPos(x, y) => {
                self.x = *x;
                self.y = *y;
            },
            WindowEvent::CursorEnter(inside) => {
                self.cursor_in = *inside;
            },
            WindowEvent::Scroll(x, y) => {
                self.scroll_x = *x;
                self.scroll_y = *y;
            },
            _ => {},
        }
    }

    pub fn get_x(&self) -> (r: u64)
        ensures
            r == self@.x,
    {
        self.x
    }

    pub fn get_y(&self) -> (r: u64)
        ensures
            r == self@.y,
    {
        self.y
    }

    pub fn get_last_x(&self) -> (r: u64)
        ensures
            r == self@.last_x,
    {
        self.last_x
    }

    pub fn get_last_y(&self) -> (r: u64)
        ensures
            r == self@.last_y,
    {
        self.last_y
    }

    pub fn is_cursor_in(&self) -> (r: bool)
        ensures
            r == self@.cursor_in,
    {
        self.cursor_in
    }

    pub fn get_scroll_x(&self) -> (r: u64)
        ensures
            r == self@.scroll_x,
    {
        self.scroll_x
    }

    pub fn is_scroll_left(&self) -> (r: bool)
        ensures
            r == scalar_is_positive(self@.scroll_x),
    {
        0 < self.scroll_x && self.scroll_x <= 0x7FF0_0000_0000_0000
    }

    pub fn is_scroll_right(&self) -> (r: bool)
        ensures
            r == scalar_is_negative(self@.scroll_x),
    {
        0x8000_0000_0000_0000 < self.scroll_x && self.scroll_x <= 0xFFF0_0000_0000_0000
    }

    pub fn is_scroll_x(&self) -> (r: bool)
        ensures
            r == scalar_is_nonzero(self@.scroll_x),
    {
        self.scroll_x != 0 && self.scroll_x != 0x8000_0000_0000_0000
    }

    pub fn get_scroll_y(&self) -> (r: u64)
        ensures
            r == self@.scroll_y,
    {
        self.scroll_y
    }

    pub fn is_scroll_up(&self) -> (r: bool)
        ensures
            r == scalar_is_positive(self@.scroll_y),
    {
        0 < self.scroll_y && self.scroll_y <= 0x7FF0_0000_0000_0000
    }

    pub fn is_scroll_down(&self) -> (r: bool)
        ensures
            r == scalar_is_negative(self@.scroll_y),
    {
        0x8000_0000_0000_0000 < self.scroll_y && self.scroll_y <= 0xFFF0_0000_0000_0000
    }

    pub fn is_scroll_y(&self) -> (r: bool)
        ensures
            r == scalar_is_nonzero(self@.scroll_y),
    {
        self.scroll_y != 0 && self.scroll_y != 0x8000_0000_0000_0000
    }

    /// The state of the button with the given code.
    pub fn get_button(&self, button: usize) -> (r: Action)
        requires
            button < MOUSE_BUTTON_COUNT,
        ensures
            r == self@.buttons[button as int],
    {
        self.buttons[button]
    }
}

/// What a keyboard holds. The typed characters stand most recent first.
pub struct KeyboardView {
    pub keys: Seq<Action>,
    pub chars: Seq<char>,
}

impl KeyboardView {
    /// The keyboard at the start of the next frame: the keys age and the
    /// typed characters are gone.
    pub open spec fn aged(self) -> KeyboardView {
        KeyboardView { keys: aged_slots(self.keys), chars: Seq::empty() }
    }

    pub open spec fn after(self, event: WindowEvent) -> KeyboardView {
        match event {
            WindowEvent::Key(code, raw) => if raw == RawAction::Repeat {
                self
            } else {
                KeyboardView {
                    keys: self.keys.update(code as int, self.keys[code as int].after(raw)),
                    ..self
                }
            },
            WindowEvent::Char(c) => KeyboardView { chars: seq![c] + self.chars, ..self },
            _ => self,
        }
    }
}

/// Keys and the characters typed during the current frame.
pub struct Keyboard {
    keys: [Action; KEY_COUNT],
    chars: VecDeque<char>,
}

impl View for Keyboard {
    type V = KeyboardView;

    closed spec fn view(&self) -> KeyboardView {
        KeyboardView { keys: self.keys@, chars: self.chars@ }
    }
}

impl Keyboard {
    /// A keyboard always has one slot for each legal key code.
    pub proof fn lemma_slots(&self)
        ensures
            self@.keys.len() == KEY_COUNT,
    {
    }

    /// A keyboard with every key `Up` and nothing typed.
    pub fn new() -> (r: Keyboard)
        ensures
            r@.chars == Seq::<char>::empty(),
            r@.keys.len() == KEY_COUNT,
            forall|code: int| 0 <= code < KEY_COUNT ==> r@.keys[code] == Action::Up,
    {
        Keyboard { keys: [Action::Up;KEY_COUNT], chars: VecDeque::new() }
    }

    /// Start of a frame.
    pub fn update(&mut self)
        ensures
            final(self)@ == old(self)@.aged(),
    {
        self.chars.clear();
        let ghost before = self.keys@;
        let mut i: usize = 0;
        while i < KEY_COUNT
            invariant
                i <= KEY_COUNT,
                self.chars@ == Seq::<char>::empty(),
                before == old(self).keys@,
                forall|j: int| 0 <= j < i ==> self.keys@[j] == before[j].aged(),
                forall|j: int| i <= j < KEY_COUNT ==> self.keys@[j] == before[j],
            decreases KEY_COUNT - i,
        {
            let slot = self.keys[i];
            self.keys[i] = slot.age();
            i += 1;
        }
        assert(self.keys@ =~= aged_slots(before));
    }

    /// Applies one backend event; events that do not concern the keyboard
    /// change nothing.
    pub fn apply(&mut self, event: &WindowEvent)
        requires
            event.wf(),
        ensures
            final(self)@ == old(self)@.after(*event),
    {
        match event {
            WindowEvent::Key(code, raw) => {
                if !matches!(raw, RawAction::Repeat) {
                    let slot = self.keys[*code];
                    self.keys[*code] = slot.apply(*raw);
                }
            },
            WindowEvent::Char(c) => {
                self.chars.push_front(*c);
            },
            _ => {},
        }
    }

    /// The state of the key with the given code.
    pub fn get_key(&self, key: usize) -> (r: Action)
        requires
            key < KEY_COUNT,
        ensures
            r == self@.keys[key as int],
    {
        self.keys[key]
    }

    /// A copy of the characters typed during the current frame, most recent
    /// first.
    pub fn get_chars(&self) -> (r: VecDeque<char>)
        ensures
            r@ == self@.chars,
    {
        let r = self.chars.clone();
        assert(r@ =~= self.chars@);
        r
    }
}

/// What the input aggregator holds.
pub struct InputView {
    pub mouse: MouseView,
    pub keyboard: KeyboardView,
    pub dropped_files: Seq<PathBuf>,
}

impl InputView {
    /// There is one slot for each legal code.
    pub open spec fn wf(self) -> bool {
        &&& self.mouse.buttons.len() == MOUSE_BUTTON_COUNT
        &&& self.keyboard.keys.len() == KEY_COUNT
    }

    /// The aggregator at the start of the next frame, before any event.
    pub open spec fn aged(self) -> InputView {
        InputView {
            mouse: self.mouse.aged(),
            keyboard: self.keyboard.aged(),
            dropped_files: Seq::empty(),
        }
    }

    pub open spec fn after(self, event: WindowEvent) -> InputView {
        InputView {
            mouse: self.mouse.after(event),
            keyboard: self.keyboard.after(event),
            dropped_files: match event {
                WindowEvent::FileDrop(files) => self.dropped_files + files@,
                _ => self.dropped_files,
            },
        }
    }

    /// The aggregator after the events, applied in the order given.
    pub open spec fn after_all(self, events: Seq<WindowEvent>) -> InputView
        decreases events.len(),
    {
        if events.len() == 0 {
            self
        } else {
            self.after_all(events.drop_last()).after(events.last())
        }
    }

    /// The aggregator after one whole frame: aging and resets first, then
    /// the events of the frame.
    pub open spec fn after_frame(self, events: Seq<WindowEvent>) -> InputView {
        self.aged().after_all(events)
    }

    /// The aggregator after several frames, one after the other.
    pub open spec fn after_frames(self, frames: Seq<Seq<WindowEvent>>) -> InputView
        decreases frames.len(),
    {
        if frames.len() == 0 {
            self
        } else {
            self.after_frames(frames.drop_last()).after_frame(frames.last())
        }
    }
}

/// The input aggregator: mouse, keyboard and the files dropped during the
/// current frame.
pub struct Input {
    mouse: Mouse,
    keyboard: Keyboard,
    dropped_files: Vec<PathBuf>,
}

impl View for Input {
    type V = InputView;

    closed spec fn view(&self) -> InputView {
        InputView {
            mouse: self.mouse@,
            keyboard: self.keyboard@,
            dropped_files: self.dropped_files@,
        }
    }
}

impl Input {
    /// An aggregator always has one slot for each legal code.
    pub proof fn lemma_slots(&self)
        ensures
            self@.wf(),
    {
    }

    /// An aggregator on which nothing has happened: every button and key is
    /// `Up`.
    pub fn new() -> (r: Input)
        ensures
            r@.wf(),
            forall|code: int|
                0 <= code < MOUSE_BUTTON_COUNT ==> r@.mouse.buttons[code] == Action::Up,
            forall|code: int| 0 <= code < KEY_COUNT ==> r@.keyboard.keys[code] == Action::Up,
            r@.keyboard.chars == Seq::<char>::empty(),
            r@.dropped_files == Seq::<PathBuf>::empty(),
            r@.mouse.scroll_x == 0 && r@.mouse.scroll_y == 0,
            r@.mouse.x == 0 && r@.mouse.y == 0 && r@.mouse.last_x == 0 && r@.mouse.last_y == 0,
            !r@.mouse.cursor_in,
    {
        let r = Input { mouse: Mouse::new(), keyboard: Keyboard::new(), dropped_files: Vec::new() };
        assert(r@.dropped_files =~= Seq::<PathBuf>::empty());
        r
    }

    /// Start of a frame: ages the slots and drops what lasts one frame only.
    pub fn update(&mut self)
        ensures
            final(self)@ == old(self)@.aged(),
    {
        self.dropped_files.clear();
        self.mouse.update();
        self.keyboard.update();
        assert(self@.dropped_files =~= Seq::<PathBuf>::empty());
    }

    /// Applies one backend event.
    pub fn apply(&mut self, event: &WindowEvent)
        requires
            event.wf(),
        ensures
            final(self)@ == old(self)@.after(*event),
    {
        self.mouse.apply(event);
        self.keyboard.apply(event);
        match event {
            WindowEvent::FileDrop(files) => {
                let ghost before = self.dropped_files@;
                let mut i: usize = 0;
                while i < files.len()
                    invariant
                        i <= files.len(),
                        self.mouse@ == old(self).mouse@.after(*event),
                        self.keyboard@ == old(self).keyboard@.after(*event),
                        before == old(self).dropped_files@,
                        self.dropped_files@.len() == before.len() + i,
                        forall|j: int| 0 <= j < before.len() ==> self.dropped_files@[j] == before[j],
                        forall|j: int|
                            0 <= j < i ==> self.dropped_files@[before.len() + j] == files@[j],
                    decreases files.len() - i,
                {
                    let file = copy_path(&files[i]);
                    self.dropped_files.push(file);
                    i += 1;
                }
                assert(self.dropped_files@ =~= before + files@);
            },
            _ => {},
        }
    }

    pub fn mouse(&self) -> (r: &Mouse)
        ensures
            r@ == self@.mouse,
    {
        &self.mouse
    }

    pub fn keyboard(&self) -> (r: &Keyboard)
        ensures
            r@ == self@.keyboard,
    {
        &self.keyboard
    }

    /// A copy of the paths dropped during the current frame, in the order in
    /// which they came.
    pub fn get_dropped_files(&self) -> (r: Vec<PathBuf>)
        ensures
            r@ == self@.dropped_files,
    {
        let mut r: Vec<PathBuf> = Vec::new();
        let mut i: usize = 0;
        while i < self.dropped_files.len()
            invariant
                i <= self.dropped_files.len(),
                r@.len() == i,
                forall|j: int| 0 <= j < i ==> r@[j] == self.dropped_files@[j],
            decreases self.dropped_files.len() - i,
        {
            let file = copy_path(&self.dropped_files[i]);
            r.push(file);
            i += 1;
        }
        assert(r@ =~= self.dropped_files@);
        r
    }
}

/// The events are legal and none of them presses or releases the key `code`.
pub open spec fn leave_key(events: Seq<WindowEvent>, code: int) -> bool {
    forall|i: int| 0 <= i < events.len() ==> (#[trigger] events[i]).wf() && !events[i].touches_key(code)
}

/// The events are legal and none of them presses or releases the mouse
/// button `code`.
pub open spec fn leave_button(events: Seq<WindowEvent>, code: int) -> bool {
    forall|i: int|
        0 <= i < events.len() ==> (#[trigger] events[i]).wf() && !events[i].touches_button(code)
}

proof fn lemma_key_kept(start: InputView, events: Seq<WindowEvent>, code: int)
    requires
        start.wf(),
        0 <= code < KEY_COUNT,
        leave_key(events, code),
    ensures
        start.after_all(events).wf(),
        start.after_all(events).keyboard.keys[code] == start.keyboard.keys[code],
    decreases events.len(),
{
    if events.len() > 0 {
        let front = events.drop_last();
        assert forall|i: int| 0 <= i < front.len() implies (#[trigger] front[i]).wf()
            && !front[i].touches_key(code) by {
            assert(front[i] == events[i]);
        }
        lemma_key_kept(start, front, code);
        assert(events.last() == events[events.len() - 1]);
    }
}

proof fn lemma_button_kept(start: InputView, events: Seq<WindowEvent>, code: int)
    requires
        start.wf(),
        0 <= code < MOUSE_BUTTON_COUNT,
        leave_button(events, code),
    ensures
        start.after_all(events).wf(),
        start.after_all(events).mouse.buttons[code] == start.mouse.buttons[code],
    decreases events.len(),
{
    if events.len() > 0 {
        let front = events.drop_last();
        assert forall|i: int| 0 <= i < front.len() implies (#[trigger] front[i]).wf()
            && !front[i].touches_button(code) by {
            assert(front[i] == events[i]);
        }
        lemma_button_kept(start, front, code);
        assert(events.last() == events[events.len() - 1]);
    }
}

proof fn lemma_transients_kept(start: InputView, events: Seq<WindowEvent>)
    ensures
        (forall|i: int| 0 <= i < events.len() ==> !(#[trigger] events[i]).is_scroll()) ==> {
            &&& start.after_all(events).mouse.scroll_x == start.mouse.scroll_x
            &&& start.after_all(events).mouse.scroll_y == start.mouse.scroll_y
        },
        (forall|i: int| 0 <= i < events.len() ==> !(#[trigger] events[i]).is_char())
            ==> start.after_all(events).keyboard.chars == start.keyboard.chars,
        (forall|i: int| 0 <= i < events.len() ==> !(#[trigger] events[i]).is_file_drop())
            ==> start.after_all(events).dropped_files == start.dropped_files,
    decreases events.len(),
{
    if events.len() > 0 {
        let front = events.drop_last();
        lemma_transients_kept(start, front);
        assert(events.last() == events[events.len() - 1]);
        assert(forall|i: int| 0 <= i < front.len() ==> front[i] == events[i]);
    }
}

/// A key that no event of a frame presses or releases ages during that
/// frame: `Pressed` becomes `Down`, `Released` becomes `Up`, and a level
/// stays what it is.
pub proof fn lemma_untouched_key_ages(input: InputView, events: Seq<WindowEvent>, code: int)
    requires
        input.wf(),
        0 <= code < KEY_COUNT,
        leave_key(events, code),
    ensures
        input.after_frame(events).wf(),
        input.after_frame(events).keyboard.keys[code] == input.keyboard.keys[code].aged(),
        input.keyboard.keys[code].is_level() ==> input.after_frame(events).keyboard.keys[code]
            == input.keyboard.keys[code],
{
    lemma_key_kept(input.aged(), events, code);
}

/// A mouse button that no event of a frame presses or releases ages during
/// that frame.
pub proof fn lemma_untouched_button_ages(input: InputView, events: Seq<WindowEvent>, code: int)
    requires
        input.wf(),
        0 <= code < MOUSE_BUTTON_COUNT,
        leave_button(events, code),
    ensures
        input.after_frame(events).wf(),
        input.after_frame(events).mouse.buttons[code] == input.mouse.buttons[code].aged(),
        input.mouse.buttons[code].is_level() ==> input.after_frame(events).mouse.buttons[code]
            == input.mouse.buttons[code],
{
    lemma_button_kept(input.aged(), events, code);
}

/// Over any run of frames, at least one, that all leave a key alone, the
/// key ends as the level that the first of them aged it to: `Down` from
/// `Pressed` or `Down`, `Up` from `Released` or `Up`.
pub proof fn lemma_untouched_key_settles(
    input: InputView,
    frames: Seq<Seq<WindowEvent>>,
    code: int,
)
    requires
        input.wf(),
        0 <= code < KEY_COUNT,
        frames.len() >= 1,
        forall|i: int| 0 <= i < frames.len() ==> leave_key(#[trigger] frames[i], code),
    ensures
        input.after_frames(frames).wf(),
        input.after_frames(frames).keyboard.keys[code] == input.keyboard.keys[code].aged(),
        input.after_frames(frames).keyboard.keys[code].is_level(),
    decreases frames.len(),
{
    let front = frames.drop_last();
    assert(leave_key(frames.last(), code)) by {
        assert(frames.last() == frames[frames.len() - 1]);
    }
    assert(input.after_frames(frames) == input.after_frames(front).after_frame(frames.last()));
    if front.len() == 0 {
        assert(input.after_frames(front) == input);
        lemma_untouched_key_ages(input, frames.last(), code);
    } else {
        assert forall|i: int| 0 <= i < front.len() implies leave_key(#[trigger] front[i], code) by {
            assert(front[i] == frames[i]);
        }
        lemma_untouched_key_settles(input, front, code);
        lemma_untouched_key_ages(input.after_frames(front), frames.last(), code);
    }
}

/// Over any run of frames, at least one, that all leave a mouse button
/// alone, the button ends as the level that the first of them aged it to.
pub proof fn lemma_untouched_button_settles(
    input: InputView,
    frames: Seq<Seq<WindowEvent>>,
    code: int,
)
    requires
        input.wf(),
        0 <= code < MOUSE_BUTTON_COUNT,
        frames.len() >= 1,
        forall|i: int| 0 <= i < frames.len() ==> leave_button(#[trigger] frames[i], code),
    ensures
        input.after_frames(frames).wf(),
        input.after_frames(frames).mouse.buttons[code] == input.mouse.buttons[code].aged(),
        input.after_frames(frames).mouse.buttons[code].is_level(),
    decreases frames.len(),
{
    let front = frames.drop_last();
    assert(leave_button(frames.last(), code)) by {
        assert(frames.last() == frames[frames.len() - 1]);
    }
    assert(input.after_frames(frames) == input.after_frames(front).after_frame(frames.last()));
    if front.len() == 0 {
        assert(input.after_frames(front) == input);
        lemma_untouched_button_ages(input, frames.last(), code);
    } else {
        assert forall|i: int| 0 <= i < front.len() implies leave_button(
            #[trigger] front[i],
            code,
        ) by {
            assert(front[i] == frames[i]);
        }
        lemma_untouched_button_settles(input, front, code);
        lemma_untouched_button_ages(input.after_frames(front), frames.last(), code);
    }
}

/// What lasts one frame only does not stick: after a frame without scroll
/// events both scroll values are zero, after a frame without typed
/// characters the character queue is empty, and after a frame without
/// dropped files the list of dropped files is empty, whatever the
/// aggregator held before.
pub proof fn lemma_quiet_frame_resets(input: InputView, events: Seq<WindowEvent>)
    ensures
        (forall|i: int| 0 <= i < events.len() ==> !(#[trigger] events[i]).is_scroll()) ==> {
            &&& input.after_frame(events).mouse.scroll_x == 0
            &&& input.after_frame(events).mouse.scroll_y == 0
        },
        (forall|i: int| 0 <= i < events.len() ==> !(#[trigger] events[i]).is_char())
            ==> input.after_frame(events).keyboard.chars == Seq::<char>::empty(),
        (forall|i: int| 0 <= i < events.len() ==> !(#[trigger] events[i]).is_file_drop())
            ==> input.after_frame(events).dropped_files == Seq::<PathBuf>::empty(),
{
    lemma_transients_kept(input.aged(), events);
}

/// Events apply one after the other: the aggregator after a list of events
/// and one more is the aggregator after the list with the last one applied,
/// and no events change nothing.
pub proof fn lemma_after_all_push(start: InputView, events: Seq<WindowEvent>, event: WindowEvent)
    ensures
        start.after_all(events.push(event)) == start.after_all(events).after(event),
        start.after_all(Seq::empty()) == start,
{
    let all = events.push(event);
    assert(all.drop_last() =~= events);
    assert(all.last() == event);
}

/// Where the last event of a frame is a press or a release of a key, the
/// key is `Pressed` or `Released` after the frame, whatever the earlier
/// events of the frame did to it.
pub proof fn lemma_last_key_event_wins(
    input: InputView,
    events: Seq<WindowEvent>,
    code: int,
    raw: RawAction,
)
    requires
        input.wf(),
        0 <= code < KEY_COUNT,
        all_wf(events),
        raw != RawAction::Repeat,
    ensures
        input.after_frame(events.push(WindowEvent::Key(code as usize, raw))).keyboard.keys[code]
            == (if raw == RawAction::Press {
            Action::Pressed
        } else {
            Action::Released
        }),
{
    lemma_after_all_push(input.aged(), events, WindowEvent::Key(code as usize, raw));
    lemma_all_wf(input.aged(), events);
}

/// Where the last event of a frame is a press or a release of a mouse
/// button, the button is `Pressed` or `Released` after the frame.
pub proof fn lemma_last_button_event_wins(
    input: InputView,
    events: Seq<WindowEvent>,
    code: int,
    raw: RawAction,
)
    requires
        input.wf(),
        0 <= code < MOUSE_BUTTON_COUNT,
        all_wf(events),
        raw != RawAction::Repeat,
    ensures
        input.after_frame(events.push(WindowEvent::MouseButton(code as usize, raw))).mouse.buttons[code]
            == (if raw == RawAction::Press {
            Action::Pressed
        } else {
            Action::Released
        }),
{
    lemma_after_all_push(input.aged(), events, WindowEvent::MouseButton(code as usize, raw));
    lemma_all_wf(input.aged(), events);
}

proof fn lemma_all_wf(start: InputView, events: Seq<WindowEvent>)
    requires
        start.wf(),
        all_wf(events),
    ensures
        start.after_all(events).wf(),
    decreases events.len(),
{
    if events.len() > 0 {
        let front = events.drop_last();
        assert forall|i: int| 0 <= i < front.len() implies (#[trigger] front[i]).wf() by {
            assert(front[i] == events[i]);
        }
        lemma_all_wf(start, front);
        assert(events.last() == events[events.len() - 1]);
    }
}

} // verus!
