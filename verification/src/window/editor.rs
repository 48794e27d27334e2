use vstd::prelude::*;

use crate::buffer::{new_buffer_view, Buffer, BufferView};

verus! {

/// The mathematical contents of an editor window.
pub struct EditorView {
    pub id: int,
    pub pos: (u16, u16),
    pub size: (u16, u16),
    pub buffers: Seq<BufferView>,
}

/// How many of the buffers hold the focus.
pub open spec fn focused_count(bufs: Seq<BufferView>) -> int
    decreases bufs.len(),
{
    if bufs.len() == 0 {
        0
    } else {
        focused_count(bufs.drop_last()) + if bufs.last().focused {
            1int
        } else {
            0int
        }
    }
}

/// A well-formed editor window: at most one of its buffers holds the focus.
pub open spec fn editor_wf(e: EditorView) -> bool {
    focused_count(e.buffers) <= 1
}

/// The view of a freshly created editor window: at the origin, filling the
/// given screen, holding exactly one default buffer, which has the focus.
pub open spec fn new_editor_view(id: int, screen_size: (u16, u16)) -> EditorView {
    EditorView { id, pos: (0, 0), size: screen_size, buffers: seq![new_buffer_view()] }
}

/// An editor window: an identified, positioned, sized window that owns an
/// ordered sequence of buffers, of which at most one holds the focus.
pub struct Editor {
    id: usize,
    pos: (u16, u16),
    size: (u16, u16),
    buffers: Vec<Buffer>,
}

impl View for Editor {
    type V = EditorView;

    closed spec fn view(&self) -> EditorView {
        EditorView {
            id: self.id as int,
            pos: self.pos,
            size: self.size,
            buffers: self.buffers@.map_values(|b: Buffer| b@),
        }
    }
}

impl Editor {
    /// Creates an editor window under the given identifier, sized to the
    /// screen, holding one freshly created, focused buffer.
    pub fn new(id: usize, screen_size: (u16, u16)) -> (r: Editor)
        ensures
            r@ == new_editor_view(id as int, screen_size),
            editor_wf(r@),
    {
        let mut res = Editor { id, pos: (0, 0), size: screen_size, buffers: Vec::new() };
        res.buffers.push(Buffer::new());
        proof {
            assert(res@.buffers =~= seq![new_buffer_view()]);
            assert(res@.buffers.drop_last() =~= Seq::<BufferView>::empty());
            assert(focused_count(Seq::<BufferView>::empty()) == 0);
            assert(res@.buffers.last() == new_buffer_view());
            assert(focused_count(res@.buffers) == 1);
        }
        res
    }

    /// The identifier of the window, stable for its lifetime.
    pub fn get_id(&self) -> (r: usize)
        ensures
            r as int == self@.id,
    {
        self.id
    }

    /// The position of the window's upper-left corner.
    pub fn get_pos(&self) -> (r: (u16, u16))
        ensures
            r == self@.pos,
    {
        self.pos
    }

    /// The size of the window in columns and rows.
    pub fn get_size(&self) -> (r: (u16, u16))
        ensures
            r == self@.size,
    {
        self.size
    }

    /// Moves the window.
    pub fn set_pos(&mut self, pos: (u16, u16))
        ensures
            final(self)@ == (EditorView { pos, ..old(self)@ }),
    {
        self.pos = pos;
    }

    /// Resizes the window.
    pub fn set_size(&mut self, size: (u16, u16))
        ensures
            final(self)@ == (EditorView { size, ..old(self)@ }),
    {
        self.size = size;
    }
}

} // verus!
