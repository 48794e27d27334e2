use vstd::prelude::*;

use crate::window::editor::{new_editor_view, Editor};
use crate::window::Window;

verus! {

/// The window identifier allocator: hands out process-wide identifiers,
/// monotonically increasing and never reused. Its view is the next
/// identifier it will hand out.
pub struct IdAlloc {
    next: usize,
}

impl View for IdAlloc {
    type V = int;

    closed spec fn view(&self) -> int {
        self.next as int
    }
}

impl IdAlloc {
    /// An allocator that has handed out no identifier yet.
    pub fn new() -> (r: IdAlloc)
        ensures
            r@ == 0,
    {
        IdAlloc { next: 0 }
    }

    /// The identifier the allocator will hand out next.
    pub fn peek(&self) -> (r: usize)
        ensures
            r as int == self@,
    {
        self.next
    }
}

/// Creates a new editor window under a fresh identifier, sized to the
/// screen. The allocator moves past the identifier and never hands it out
/// again.
pub fn new_window(ids: &mut IdAlloc, screen_size: (u16, u16)) -> (w: Window)
    requires
        old(ids)@ < usize::MAX,
    ensures
        w@ == new_editor_view(old(ids)@, screen_size),
        final(ids)@ == old(ids)@ + 1,
{
    let id = ids.next;
    ids.next = ids.next + 1;
    Window::Editor(Editor::new(id, screen_size))
}

} // verus!
