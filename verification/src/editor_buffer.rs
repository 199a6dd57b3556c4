//! The multi-line text buffer behind the value editor and the new-key
//! prompt. The editing itself (what each key does to the text and cursor) is
//! done by the `tui_textarea` crate; this module pins down only what the
//! buffer's lines are after construction and how they are read back.

use vstd::prelude::*;

verus! {

use tui_textarea::{Input, TextArea};

/// An editable text buffer holding one line or more.
#[verifier::external_body]
pub struct EditBuffer {
    inner: TextArea<'static>,
}

/// The lines the buffer holds.
pub uninterp spec fn buffer_text(b: EditBuffer) -> Seq<Seq<char>>;

impl EditBuffer {
    /// Relies on `tui_textarea::TextArea::new`: the given lines become the
    /// buffer's lines, with one empty line in place of an empty vector.
    #[verifier::external_body]
    pub fn with_lines(lines: Vec<String>) -> (b: EditBuffer)
        ensures
            buffer_text(b) == if lines@.len() == 0 {
                seq![Seq::<char>::empty()]
            } else {
                lines.deep_view()
            },
    {
        EditBuffer { inner: TextArea::new(lines) }
    }

    /// Relies on `tui_textarea::TextArea::lines`: it returns exactly the
    /// buffer's lines.
    #[verifier::external_body]
    pub fn lines(&self) -> (r: Vec<String>)
        ensures
            r.deep_view() == buffer_text(*self),
    {
        self.inner.lines().to_vec()
    }

    /// Relies on `tui_textarea::TextArea::input`: it applies one key with
    /// the default key mappings. What the text becomes is left open.
    #[verifier::external_body]
    pub fn input(&mut self, event: &Input) {
        self.inner.input(event.clone());
    }
}

} // verus!
