pub mod editor;

use vstd::prelude::*;

use crate::window::editor::{Editor, EditorView};

verus! {

/// A window of the session: a closed set of window kinds dispatched through
/// a shared capability surface of identity, position, size and rendering.
/// The editor is the only kind in scope.
pub enum Window {
    Editor(Editor),
}

impl View for Window {
    type V = EditorView;

    open spec fn view(&self) -> EditorView {
        match self {
            Window::Editor(e) => e@,
        }
    }
}

impl Window {
    /// The identifier of the window, stable for its lifetime.
    pub fn get_id(&self) -> (r: usize)
        ensures
            r as int == self@.id,
    {
        match self {
            Window::Editor(e) => e.get_id(),
        }
    }

    /// The position of the window's upper-left corner.
    pub fn get_pos(&self) -> (r: (u16, u16))
        ensures
            r == self@.pos,
    {
        match self {
            Window::Editor(e) => e.get_pos(),
        }
    }

    /// The size of the window in columns and rows.
    pub fn get_size(&self) -> (r: (u16, u16))
        ensures
            r == self@.size,
    {
        match self {
            Window::Editor(e) => e.get_size(),
        }
    }

    /// Moves the window.
    pub fn set_pos(&mut self, pos: (u16, u16))
        ensures
            final(self)@ == (EditorView { pos, ..old(self)@ }),
    {
        match self {
            Window::Editor(e) => e.set_pos(pos),
        }
    }

    /// Resizes the window.
    pub fn set_size(&mut self, size: (u16, u16))
        ensures
            final(self)@ == (EditorView { size, ..old(self)@ }),
    {
        match self {
            Window::Editor(e) => e.set_size(size),
        }
    }
}

} // verus!
