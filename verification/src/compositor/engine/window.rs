//! Client windows.

use crate::input::event::{InputEvent, KeyState};
use vstd::prelude::*;

verus! {

/// Key code of the key that, with ctrl, asks a window to close.
pub const KEY_CLOSE: u32 = 88;

/// Key code of the key that asks a window to toggle fullscreen.
pub const KEY_FULLSCREEN: u32 = 70;

/// Width and height given to a window that asks for none.
pub const DEFAULT_EXTENT: u32 = 100;

/// How a window is arranged.
#[derive(Debug, Clone, Copy, PartialEq, Eq, Structural)]
pub enum WindowState {
    /// Placed freely.
    Floating,
    /// Placed by the tiling layout.
    Tiled,
    /// Hidden in minimized form.
    Minimized,
}

/// What a window does in answer to an input event.
#[derive(Debug, Clone, Copy, PartialEq, Eq, Structural)]
pub enum WindowAction {
    Close,
    ToggleFullscreen,
}

/// The action that `event` asks of the window that receives it, if any:
/// a press of [`KEY_CLOSE`] with ctrl closes, a press of [`KEY_FULLSCREEN`]
/// toggles fullscreen.
pub open spec fn requested_action(event: InputEvent) -> Option<WindowAction> {
    match event {
        InputEvent::Keyboard { key_code, state: KeyState::Pressed, modifiers } => {
            if key_code == KEY_CLOSE && modifiers.ctrl {
                Some(WindowAction::Close)
            } else if key_code == KEY_FULLSCREEN {
                Some(WindowAction::ToggleFullscreen)
            } else {
                None
            }
        },
        _ => None,
    }
}

/// The action that `event` asks of the window that receives it, if any.
pub fn action_for_event(event: &InputEvent) -> (action: Option<WindowAction>)
    ensures
        action == requested_action(*event),
{
    match event {
        InputEvent::Keyboard { key_code, state, modifiers } => {
            if *state == KeyState::Pressed {
                if *key_code == KEY_CLOSE && modifiers.ctrl {
                    Some(WindowAction::Close)
                } else if *key_code == KEY_FULLSCREEN {
                    Some(WindowAction::ToggleFullscreen)
                } else {
                    None
                }
            } else {
                None
            }
        },
        _ => None,
    }
}

/// A window of a client.
///
/// A window that is not mapped is neither shown nor given input. It keeps its
/// record, and mapping it again brings it back.
#[derive(Debug, Clone, PartialEq)]
pub struct Window {
    pub id: u32,
    /// The client that owns the window.
    pub client_id: u32,
    pub title: String,
    /// Width in pixels.
    pub width: u32,
    /// Height in pixels.
    pub height: u32,
    /// Left edge in the global coordinate space.
    pub x: i32,
    /// Top edge in the global coordinate space.
    pub y: i32,
    pub state: WindowState,
    /// Application identifier, where the client gave one.
    pub app_id: Option<String>,
    /// Whether the window holds the focus.
    pub focused: bool,
    /// Whether the window is visible and takes input.
    pub is_mapped: bool,
    /// Input events waiting for the window, oldest first.
    pub event_queue: Vec<InputEvent>,
}

/// The mathematical value of a [`Window`].
pub struct WindowView {
    pub id: u32,
    pub client_id: u32,
    pub title: Seq<char>,
    pub width: u32,
    pub height: u32,
    pub x: i32,
    pub y: i32,
    pub state: WindowState,
    pub app_id: Option<Seq<char>>,
    pub focused: bool,
    pub is_mapped: bool,
    pub event_queue: Seq<InputEvent>,
}

impl View for Window {
    type V = WindowView;

    open spec fn view(&self) -> WindowView {
        WindowView {
            id: self.id,
            client_id: self.client_id,
            title: self.title@,
            width: self.width,
            height: self.height,
            x: self.x,
            y: self.y,
            state: self.state,
            app_id: match self.app_id {
                Some(s) => Some(s@),
                None => None,
            },
            focused: self.focused,
            is_mapped: self.is_mapped,
            event_queue: self.event_queue@,
        }
    }
}

impl WindowView {
    /// A fresh window: floating, unmapped, unfocused, with an empty queue,
    /// and with [`DEFAULT_EXTENT`] in place of a zero width or height.
    pub open spec fn fresh(
        id: u32,
        client_id: u32,
        title: Seq<char>,
        width: u32,
        height: u32,
        x: i32,
        y: i32,
    ) -> WindowView {
        WindowView {
            id,
            client_id,
            title,
            width: if width == 0 {
                DEFAULT_EXTENT
            } else {
                width
            },
            height: if height == 0 {
                DEFAULT_EXTENT
            } else {
                height
            },
            x,
            y,
            state: WindowState::Floating,
            app_id: None,
            focused: false,
            is_mapped: false,
            event_queue: Seq::empty(),
        }
    }

    /// The window with `event` at the end of its queue.
    pub open spec fn with_event(self, event: InputEvent) -> WindowView {
        WindowView { event_queue: self.event_queue.push(event), ..self }
    }

    /// The window with an empty queue.
    pub open spec fn drained(self) -> WindowView {
        WindowView { event_queue: Seq::empty(), ..self }
    }

    /// The window, mapped.
    pub open spec fn mapped(self) -> WindowView {
        WindowView { is_mapped: true, ..self }
    }

    /// The window, unmapped and therefore without focus.
    pub open spec fn unmapped(self) -> WindowView {
        if self.is_mapped {
            WindowView { is_mapped: false, focused: false, ..self }
        } else {
            self
        }
    }

    /// The window with its focus flag set to `focused`.
    pub open spec fn with_focus(self, focused: bool) -> WindowView {
        WindowView { focused, ..self }
    }

    /// The window with the given size.
    pub open spec fn resized(self, width: u32, height: u32) -> WindowView {
        WindowView { width, height, ..self }
    }

    /// The window with its top-left corner at the given point.
    pub open spec fn moved(self, x: i32, y: i32) -> WindowView {
        WindowView { x, y, ..self }
    }

    /// The window as the tiling layout leaves it: at the given place, with
    /// the given size, marked as tiled.
    pub open spec fn tiled_at(self, x: i32, y: i32, width: u32, height: u32) -> WindowView {
        WindowView { x, y, width, height, state: WindowState::Tiled, ..self }
    }
}

impl Window {
    /// A new window of client `client_id`.
    ///
    /// It starts floating, unmapped and unfocused. A requested width or
    /// height of zero is replaced by [`DEFAULT_EXTENT`].
    pub fn new(
        id: u32,
        client_id: u32,
        title: String,
        width: u32,
        height: u32,
        x: i32,
        y: i32,
    ) -> (window: Window)
        ensures
            window@ == WindowView::fresh(id, client_id, title@, width, height, x, y),
    {
        Window {
            id,
            client_id,
            title,
            width: if width == 0 {
                DEFAULT_EXTENT
            } else {
                width
            },
            height: if height == 0 {
                DEFAULT_EXTENT
            } else {
                height
            },
            x,
            y,
            state: WindowState::Floating,
            app_id: None,
            focused: false,
            is_mapped: false,
            event_queue: Vec::new(),
        }
    }

    /// Appends `event` to the window's queue.
    pub fn queue_event(&mut self, event: InputEvent)
        ensures
            final(self)@ == old(self)@.with_event(event),
    {
        self.event_queue.push(event);
    }

    /// Takes every waiting event out of the queue and hands them back in
    /// the order in which they were queued.
    ///
    /// [`action_for_event`] says what each of them asks of the window.
    pub fn process_event_queue(&mut self) -> (processed: Vec<InputEvent>)
        ensures
            processed@ == old(self)@.event_queue,
            final(self)@ == old(self)@.drained(),
    {
        let mut processed: Vec<InputEvent> = Vec::new();
        core::mem::swap(&mut self.event_queue, &mut processed);
        processed
    }

    /// Makes the window visible and able to take input.
    pub fn map(&mut self)
        ensures
            final(self)@ == old(self)@.mapped(),
    {
        if !self.is_mapped {
            self.is_mapped = true;
        }
    }

    /// Hides the window. A window that was mapped also gives up its focus
    /// flag.
    pub fn unmap(&mut self)
        ensures
            final(self)@ == old(self)@.unmapped(),
    {
        if self.is_mapped {
            self.is_mapped = false;
            self.focused = false;
        }
    }
}

} // verus!
