use vstd::prelude::*;

verus! {

/// The mathematical contents of a buffer.
pub struct BufferView {
    pub name: Seq<char>,
    pub path: Seq<char>,
    pub content: Seq<Seq<char>>,
    pub cursor_pos: (u16, u16),
    pub focused: bool,
}

/// A text buffer held by an editor window: a named, optionally file-backed
/// ordered sequence of lines with a cursor position, which may hold the
/// window's focus.
pub struct Buffer {
    name: String,
    path: String,
    content: Vec<String>,
    cursor_pos: (u16, u16),
    focused: bool,
}

impl View for Buffer {
    type V = BufferView;

    closed spec fn view(&self) -> BufferView {
        BufferView {
            name: self.name@,
            path: self.path@,
            content: self.content@.map_values(|l: String| l@),
            cursor_pos: self.cursor_pos,
            focused: self.focused,
        }
    }
}

/// The view of a freshly created buffer: carrying the default title, not
/// backed by any file, without content, with the cursor at the origin, and
/// holding the focus.
pub open spec fn new_buffer_view() -> BufferView {
    BufferView {
        name: "New Buffer"@,
        path: Seq::empty(),
        content: Seq::empty(),
        cursor_pos: (0, 0),
        focused: true,
    }
}

impl Buffer {
    /// Creates the default buffer, as `new_buffer_view` describes it.
    pub fn new() -> (r: Buffer)
        ensures
            r@ == new_buffer_view(),
    {
        let r = Buffer {
            name: String::from_str("New Buffer"),
            path: String::new(),
            content: Vec::new(),
            cursor_pos: (0, 0),
            focused: true,
        };
        proof {
            assert(r@.content =~= Seq::<Seq<char>>::empty());
            assert(r@.path =~= Seq::<char>::empty());
        }
        r
    }

    /// Gives this buffer the focus.
    pub fn focuse(&mut self)
        ensures
            final(self)@ == (BufferView { focused: true, ..old(self)@ }),
    {
        self.focused = true;
    }

    /// Takes the focus away from this buffer.
    pub fn disfocuse(&mut self)
        ensures
            final(self)@ == (BufferView { focused: false, ..old(self)@ }),
    {
        self.focused = false;
    }

    /// Whether this buffer holds the focus.
    pub fn is_focused(&self) -> (r: bool)
        ensures
            r == self@.focused,
    {
        self.focused
    }
}

} // verus!
