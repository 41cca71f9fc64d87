use vstd::prelude::*;
use std::path::PathBuf;
use crate::action::RawAction;

verus! {

/// Number of mouse button codes that the backend can report.
pub const MOUSE_BUTTON_COUNT: usize = 8;

/// Code of the left mouse button.
pub const MOUSE_BUTTON_LEFT: usize = 0;

/// Code of the right mouse button.
pub const MOUSE_BUTTON_RIGHT: usize = 1;

/// Code of the middle mouse button.
pub const MOUSE_BUTTON_MIDDLE: usize = 2;

/// Number of key codes that the backend can report.
pub const KEY_COUNT: usize = 349;

/// A path of the file system, as std holds it. Nothing is known of what is
/// inside; the library carries dropped paths through as they come.
#[verifier::external_type_specification]
#[verifier::external_body]
pub struct ExPathBuf(PathBuf);

/// Calls `PathBuf::clone`, which gives a path equal to the one it is called
/// on.
#[verifier::external_body]
pub(crate) fn copy_path(path: &PathBuf) -> (r: PathBuf)
    ensures
        r == *path,
{
    path.clone()
}

/// One event of the window backend, in plain values.
///
/// Cursor and scroll scalars are binary64 numbers, carried by their bit
/// patterns. Buttons and keys are carried by their codes.
pub enum WindowEvent {
    /// The window moved to a new position.
    Pos(i32, i32),
    /// The window gained or lost the focus.
    Focus(bool),
    /// The framebuffer changed its width and height.
    FramebufferSize(i32, i32),
    /// A raw edge on a mouse button.
    MouseButton(usize, RawAction),
    /// The cursor moved.
    CursorPos(u64, u64),
    /// The cursor entered or left the window.
    CursorEnter(bool),
    /// The wheel turned.
    Scroll(u64, u64),
    /// A raw edge on a key.
    Key(usize, RawAction),
    /// A character was typed.
    Char(char),
    /// Files were dropped on the window.
    FileDrop(Vec<PathBuf>),
    /// Anything else: it changes nothing.
    Other,
}

impl WindowEvent {
    /// A press or a release names a legal code. A repeat touches no slot,
    /// so it may name any code.
    pub open spec fn wf(self) -> bool {
        match self {
            WindowEvent::MouseButton(code, raw) => raw == RawAction::Repeat || code
                < MOUSE_BUTTON_COUNT,
            WindowEvent::Key(code, raw) => raw == RawAction::Repeat || code < KEY_COUNT,
            _ => true,
        }
    }

    /// Whether the event is a raw press or release on the mouse button `code`.
    pub open spec fn touches_button(self, code: int) -> bool {
        match self {
            WindowEvent::MouseButton(c, raw) => c == code && raw != RawAction::Repeat,
            _ => false,
        }
    }

    /// Whether the event is a raw press or release on the key `code`.
    pub open spec fn touches_key(self, code: int) -> bool {
        match self {
            WindowEvent::Key(c, raw) => c == code && raw != RawAction::Repeat,
            _ => false,
        }
    }

    /// Whether the event moves the window.
    pub open spec fn is_pos(self) -> bool {
        self is Pos
    }

    /// Whether the event resizes the framebuffer.
    pub open spec fn is_framebuffer_size(self) -> bool {
        self is FramebufferSize
    }

    /// Whether the event sets the scroll values.
    pub open spec fn is_scroll(self) -> bool {
        self is Scroll
    }

    /// Whether the event adds a typed character.
    pub open spec fn is_char(self) -> bool {
        self is Char
    }

    /// Whether the event adds dropped files.
    pub open spec fn is_file_drop(self) -> bool {
        self is FileDrop
    }

    pub fn is_well_formed(&self) -> (r: bool)
        ensures
            r == self.wf(),
    {
        match self {
            WindowEvent::MouseButton(code, raw) => matches!(raw, RawAction::Repeat) || *code
                < MOUSE_BUTTON_COUNT,
            WindowEvent::Key(code, raw) => matches!(raw, RawAction::Repeat) || *code < KEY_COUNT,
            _ => true,
        }
    }
}

/// Every event is legal.
pub open spec fn all_wf(events: Seq<WindowEvent>) -> bool {
    forall|i: int| 0 <= i < events.len() ==> (#[trigger] events[i]).wf()
}

/// Tests whether every event of a batch is legal.
pub fn events_well_formed(events: &Vec<WindowEvent>) -> (r: bool)
    ensures
        r == all_wf(events@),
{
    let mut i: usize = 0;
    while i < events.len()
        invariant
            i <= events.len(),
            forall|j: int| 0 <= j < i ==> (#[trigger] events@[j]).wf(),
        decreases events.len() - i,
    {
        if !events[i].is_well_formed() {
            return false;
        }
        i += 1;
    }
    true
}

} // verus!
