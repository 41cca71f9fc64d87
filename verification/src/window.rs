use vstd::prelude::*;
use crate::config::WindowConfig;
use crate::event::{all_wf, WindowEvent};
use crate::input::Input;

verus! {

/// How often the main loop runs a frame.
#[derive(Copy, Clone, Eq, PartialEq, Debug, Structural)]
pub enum UpdateCap {
    /// The presentation backend paces the loop.
    Vsync,
    /// No pacing.
    Unlimited,
    /// At most this many frames per second.
    Cap(u32),
}

impl UpdateCap {
    /// A capped rate is positive.
    pub open spec fn wf(self) -> bool {
        match self {
            UpdateCap::Cap(n) => n > 0,
            _ => true,
        }
    }

    /// The swap interval that goes with the policy: 1 under `Vsync`, which
    /// waits for one vertical blank, and 0 otherwise.
    pub open spec fn interval(self) -> u32 {
        match self {
            UpdateCap::Vsync => 1,
            _ => 0,
        }
    }

    pub fn swap_interval(&self) -> (r: u32)
        ensures
            r == self.interval(),
    {
        match self {
            UpdateCap::Vsync => 1,
            _ => 0,
        }
    }
}

/// What the window record holds.
pub struct WindowView {
    pub width: u32,
    pub height: u32,
    pub x: i32,
    pub y: i32,
    pub update_cap: UpdateCap,
    pub min_width: Option<u32>,
    pub min_height: Option<u32>,
    pub max_width: Option<u32>,
    pub max_height: Option<u32>,
    pub focused: bool,
    pub resized: bool,
    pub moved: bool,
}

impl WindowView {
    /// The record at the start of a frame: the two event flags are lowered.
    pub open spec fn aged(self) -> WindowView {
        WindowView { resized: false, moved: false, ..self }
    }

    pub open spec fn after(self, event: WindowEvent) -> WindowView {
        match event {
            WindowEvent::Pos(x, y) => WindowView { x: x, y: y, moved: true, ..self },
            WindowEvent::Focus(focused) => WindowView { focused: focused, ..self },
            WindowEvent::FramebufferSize(width, height) => WindowView {
                width: width as u32,
                height: height as u32,
                resized: true,
                ..self
            },
            _ => self,
        }
    }

    /// The record after the events, applied in the order given.
    pub open spec fn after_all(self, events: Seq<WindowEvent>) -> WindowView
        decreases events.len(),
    {
        if events.len() == 0 {
            self
        } else {
            self.after_all(events.drop_last()).after(events.last())
        }
    }

    /// The record after one whole frame.
    pub open spec fn after_frame(self, events: Seq<WindowEvent>) -> WindowView {
        self.aged().after_all(events)
    }
}

/// The engine's record of its window: geometry, pacing policy, size limits,
/// focus, and the two flags that tell whether the last frame resized or
/// moved it.
pub struct Window {
    width: u32,
    height: u32,
    x: i32,
    y: i32,
    update_cap: UpdateCap,
    min_width: Option<u32>,
    min_height: Option<u32>,
    max_width: Option<u32>,
    max_height: Option<u32>,
    focused: bool,
    resized: bool,
    moved: bool,
}

impl View for Window {
    type V = WindowView;

    closed spec fn view(&self) -> WindowView {
        WindowView {
            width: self.width,
            height: self.height,
            x: self.x,
            y: self.y,
            update_cap: self.update_cap,
            min_width: self.min_width,
            min_height: self.min_height,
            max_width: self.max_width,
            max_height: self.max_height,
            focused: self.focused,
            resized: self.resized,
            moved: self.moved,
        }
    }
}

impl Window {
    /// The record of a window just created from `config`: at the origin,
    /// without focus, neither resized nor moved.
    pub fn new(config: &WindowConfig) -> (r: Window)
        ensures
            r@ == (WindowView {
                width: config.width,
                height: config.height,
                x: 0,
                y: 0,
                update_cap: config.update_cap,
                min_width: config.min_width,
                min_height: config.min_height,
                max_width: config.max_width,
                max_height: config.max_height,
                focused: false,
                resized: false,
                moved: false,
            }),
    {
        Window {
            width: config.width,
            height: config.height,
            x: 0,
            y: 0,
            update_cap: config.update_cap,
            min_width: config.min_width,
            min_height: config.min_height,
            max_width: config.max_width,
            max_height: config.max_height,
            focused: false,
            resized: false,
            moved: false,
        }
    }

    /// Applies one backend event; events that do not concern the window
    /// change nothing.
    pub fn apply(&mut self, event: &WindowEvent)
        ensures
            final(self)@ == old(self)@.after(*event),
    {
        match event {
            WindowEvent::Pos(x, y) => {
                self.x = *x;
                self.y = *y;
                self.moved = true;
            },
            WindowEvent::Focus(focused) => {
                self.focused = *focused;
            },
            WindowEvent::FramebufferSize(width, height) => {
                self.width = #[verifier::truncate]
                (*width as u32);
                self.height = #[verifier::truncate]
                (*height as u32);
                self.resized = true;
            },
            _ => {},
        }
    }

    /// One frame of the event pump: lowers the event flags, starts a new
    /// input frame, then applies the events that the backend queued since
    /// the last frame, in their order.
    pub fn process_events(&mut self, input: &mut Input, events: &Vec<WindowEvent>)
        requires
            all_wf(events@),
        ensures
            final(self)@ == old(self)@.after_frame(events@),
            final(input)@ == old(input)@.after_frame(events@),
    {
        self.resized = false;
        self.moved = false;
        input.update();
        let mut i: usize = 0;
        while i < events.len()
            invariant
                i <= events.len(),
                all_wf(events@),
                self@ == old(self)@.aged().after_all(events@.take(i as int)),
                input@ == old(input)@.aged().after_all(events@.take(i as int)),
            decreases events.len() - i,
        {
            let event = &events[i];
            self.apply(event);
            input.apply(event);
            proof {
                let upto = events@.take(i + 1);
                assert(upto.drop_last() =~= events@.take(i as int));
                assert(upto.last() == events@[i as int]);
            }
            i += 1;
        }
        assert(events@.take(events@.len() as int) =~= events@);
    }

    pub fn get_width(&self) -> (r: u32)
        ensures
            r == self@.width,
    {
        self.width
    }

    pub fn get_height(&self) -> (r: u32)
        ensures
            r == self@.height,
    {
        self.height
    }

    pub fn get_x(&self) -> (r: i32)
        ensures
            r == self@.x,
    {
        self.x
    }

    pub fn get_y(&self) -> (r: i32)
        ensures
            r == self@.y,
    {
        self.y
    }

    pub fn get_min_width(&self) -> (r: Option<u32>)
        ensures
            r == self@.min_width,
    {
        self.min_width
    }

    pub fn get_min_height(&self) -> (r: Option<u32>)
        ensures
            r == self@.min_height,
    {
        self.min_height
    }

    pub fn get_max_width(&self) -> (r: Option<u32>)
        ensures
            r == self@.max_width,
    {
        self.max_width
    }

    pub fn get_max_height(&self) -> (r: Option<u32>)
        ensures
            r == self@.max_height,
    {
        self.max_height
    }

    pub fn get_update_cap(&self) -> (r: UpdateCap)
        ensures
            r == self@.update_cap,
    {
        self.update_cap
    }

    pub fn is_focused(&self) -> (r: bool)
        ensures
            r == self@.focused,
    {
        self.focused
    }

    /// Whether the last frame resized the window.
    pub fn resized(&self) -> (r: bool)
        ensures
            r == self@.resized,
    {
        self.resized
    }

    /// Whether the last frame moved the window.
    pub fn moved(&self) -> (r: bool)
        ensures
            r == self@.moved,
    {
        self.moved
    }

    pub fn set_size(&mut self, width: u32, height: u32)
        ensures
            final(self)@ == (WindowView { width: width, height: height, ..old(self)@ }),
    {
        self.width = width;
        self.height = height;
    }

    pub fn set_width(&mut self, width: u32)
        ensures
            final(self)@ == (WindowView { width: width, ..old(self)@ }),
    {
        let height = self.height;
        self.set_size(width, height);
    }

    pub fn set_height(&mut self, height: u32)
        ensures
            final(self)@ == (WindowView { height: height, ..old(self)@ }),
    {
        let width = self.width;
        self.set_size(width, height);
    }

    pub fn set_pos(&mut self, x: i32, y: i32)
        ensures
            final(self)@ == (WindowView { x: x, y: y, ..old(self)@ }),
    {
        self.x = x;
        self.y = y;
    }

    pub fn set_x(&mut self, x: i32)
        ensures
            final(self)@ == (WindowView { x: x, ..old(self)@ }),
    {
        let y = self.y;
        self.set_pos(x, y);
    }

    pub fn set_y(&mut self, y: i32)
        ensures
            final(self)@ == (WindowView { y: y, ..old(self)@ }),
    {
        let x = self.x;
        self.set_pos(x, y);
    }

    /// Records the new policy and returns the swap interval to hand to the
    /// presentation backend.
    pub fn set_update_cap(&mut self, update_cap: UpdateCap) -> (r: u32)
        ensures
            final(self)@ == (WindowView { update_cap: update_cap, ..old(self)@ }),
            r == update_cap.interval(),
    {
        self.update_cap = update_cap;
        update_cap.swap_interval()
    }

    pub fn set_size_limits(
        &mut self,
        min_width: Option<u32>,
        min_height: Option<u32>,
        max_width: Option<u32>,
        max_height: Option<u32>,
    )
        ensures
            final(self)@ == (WindowView {
                min_width: min_width,
                min_height: min_height,
                max_width: max_width,
                max_height: max_height,
                ..old(self)@
            }),
    {
        self.min_width = min_width;
        self.min_height = min_height;
        self.max_width = max_width;
        self.max_height = max_height;
    }

    pub fn set_min_size(&mut self, min_width: Option<u32>, min_height: Option<u32>)
        ensures
            final(self)@ == (WindowView {
                min_width: min_width,
                min_height: min_height,
                ..old(self)@
            }),
    {
        let max_width = self.max_width;
        let max_height = self.max_height;
        self.set_size_limits(min_width, min_height, max_width, max_height);
    }

    pub fn set_min_width(&mut self, min_width: Option<u32>)
        ensures
            final(self)@ == (WindowView { min_width: min_width, ..old(self)@ }),
    {
        let min_height = self.min_height;
        self.set_min_size(min_width, min_height);
    }

    pub fn set_min_height(&mut self, min_height: Option<u32>)
        ensures
            final(self)@ == (WindowView { min_height: min_height, ..old(self)@ }),
    {
        let min_width = self.min_width;
        self.set_min_size(min_width, min_height);
    }

    pub fn set_max_size(&mut self, max_width: Option<u32>, max_height: Option<u32>)
        ensures
            final(self)@ == (WindowView {
                max_width: max_width,
                max_height: max_height,
                ..old(self)@
            }),
    {
        let min_width = self.min_width;
        let min_height = self.min_height;
        self.set_size_limits(min_width, min_height, max_width, max_height);
    }

    pub fn set_max_width(&mut self, max_width: Option<u32>)
        ensures
            final(self)@ == (WindowView { max_width: max_width, ..old(self)@ }),
    {
        let max_height = self.max_height;
        self.set_max_size(max_width, max_height);
    }

    pub fn set_max_height(&mut self, max_height: Option<u32>)
        ensures
            final(self)@ == (WindowView { max_height: max_height, ..old(self)@ }),
    {
        let max_width = self.max_width;
        self.set_max_size(max_width, max_height);
    }
}

proof fn lemma_flags_kept(start: WindowView, events: Seq<WindowEvent>)
    ensures
        (forall|i: int| 0 <= i < events.len() ==> !(#[trigger] events[i]).is_pos())
            ==> start.after_all(events).moved == start.moved && start.after_all(events).x
            == start.x && start.after_all(events).y == start.y,
        (forall|i: int| 0 <= i < events.len() ==> !(#[trigger] events[i]).is_framebuffer_size())
            ==> start.after_all(events).resized == start.resized && start.after_all(events).width
            == start.width && start.after_all(events).height == start.height,
        start.after_all(events).update_cap == start.update_cap,
        start.after_all(events).min_width == start.min_width,
        start.after_all(events).min_height == start.min_height,
        start.after_all(events).max_width == start.max_width,
        start.after_all(events).max_height == start.max_height,
    decreases events.len(),
{
    if events.len() > 0 {
        let front = events.drop_last();
        lemma_flags_kept(start, front);
        assert(events.last() == events[events.len() - 1]);
        assert(forall|i: int| 0 <= i < front.len() ==> front[i] == events[i]);
    }
}

/// The two event flags last one frame: after a frame that did not move the
/// window `moved` is lowered and the position is what it was, and after a
/// frame that did not resize it `resized` is lowered and the size is what it
/// was. No event touches the pacing policy or the size limits.
pub proof fn lemma_quiet_frame_lowers_flags(window: WindowView, events: Seq<WindowEvent>)
    ensures
        (forall|i: int| 0 <= i < events.len() ==> !(#[trigger] events[i]).is_pos()) ==> {
            &&& !window.after_frame(events).moved
            &&& window.after_frame(events).x == window.x
            &&& window.after_frame(events).y == window.y
        },
        (forall|i: int| 0 <= i < events.len() ==> !(#[trigger] events[i]).is_framebuffer_size())
            ==> {
            &&& !window.after_frame(events).resized
            &&& window.after_frame(events).width == window.width
            &&& window.after_frame(events).height == window.height
        },
        window.after_frame(events).update_cap == window.update_cap,
        window.after_frame(events).min_width == window.min_width,
        window.after_frame(events).min_height == window.min_height,
        window.after_frame(events).max_width == window.max_width,
        window.after_frame(events).max_height == window.max_height,
{
    lemma_flags_kept(window.aged(), events);
}

} // verus!
