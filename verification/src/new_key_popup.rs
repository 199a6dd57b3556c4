//! A modal prompt for the name of a new key: a single-line buffer that
//! resolves to the entered name on Enter (if any was typed) and to a cancel
//! on Escape.

use vstd::prelude::*;

verus! {

use tui_textarea::{Input, Key};

use crate::components::Component;
use crate::editor_buffer::{buffer_text, EditBuffer};
use crate::events::KeyEventState;
use crate::shared_state::{SharedState, StoreError};

#[derive(Clone, Debug)]
pub enum NewKeyResult {
    Cancel,
    Done(String),
}

impl NewKeyResult {
    /// The entered name, if the prompt was not cancelled.
    pub fn as_done(self) -> (r: Option<String>)
        ensures
            self is Done ==> r == Some(self->Done_0),
            self is Cancel ==> r is None,
    {
        match self {
            NewKeyResult::Done(v) => Some(v),
            NewKeyResult::Cancel => None,
        }
    }
}

pub struct NewKeyPopup {
    textarea: EditBuffer,
    result: Option<NewKeyResult>,
    is_visible: bool,
}

impl NewKeyPopup {
    pub closed spec fn buffer(&self) -> EditBuffer {
        self.textarea
    }

    pub closed spec fn result_spec(&self) -> Option<NewKeyResult> {
        self.result
    }

    pub closed spec fn visible(&self) -> bool {
        self.is_visible
    }

    /// The typed name: the buffer's first line.
    pub open spec fn entered_name(&self) -> Seq<char> {
        if buffer_text(self.buffer()).len() > 0 {
            buffer_text(self.buffer())[0]
        } else {
            Seq::empty()
        }
    }

    pub fn new() -> (r: NewKeyPopup)
        ensures
            buffer_text(r.buffer()) == seq![Seq::<char>::empty()],
            r.result_spec() is None,
            !r.visible(),
    {
        NewKeyPopup { textarea: EditBuffer::with_lines(Vec::new()), result: None, is_visible: false }
    }

    fn set_done(&mut self)
        ensures
            final(self).buffer() == old(self).buffer(),
            final(self).visible() == old(self).visible(),
            buffer_text(old(self).buffer()).len() > 0 && old(self).entered_name().len() > 0 ==> (
            final(self).result_spec() matches Some(NewKeyResult::Done(name)) && name@ == old(self).entered_name()),
            !(buffer_text(old(self).buffer()).len() > 0 && old(self).entered_name().len() > 0)
                ==> final(self).result_spec() == old(self).result_spec(),
    {
        let mut lines = self.textarea.lines();
        if lines.len() > 0 {
            let first = lines.remove(0);
            if first.unicode_len() > 0 {
                self.result = Some(NewKeyResult::Done(first));
            }
        }
    }

    /// The resolution, once Enter or Escape arrived.
    pub fn status(&self) -> (r: Option<NewKeyResult>)
        ensures
            r == self.result_spec(),
    {
        match &self.result {
            None => None,
            Some(NewKeyResult::Cancel) => Some(NewKeyResult::Cancel),
            Some(NewKeyResult::Done(s)) => Some(NewKeyResult::Done(s.clone())),
        }
    }
}

impl Component for NewKeyPopup {
    open spec fn inv(&self) -> bool {
        true
    }

    /// While visible, every key is consumed: Escape cancels, Enter resolves
    /// to the typed name if one was typed, and any other key goes verbatim
    /// to the buffer.
    fn handle_key_event(&mut self, event: &Input, ctx: &mut SharedState) -> (r: KeyEventState)
        ensures
            SharedState::unchanged(old(ctx), final(ctx)),
            !old(self).visible() ==> r is NotConsumed && *final(self) == *old(self),
            old(self).visible() ==> r is Consumed && final(self).visible(),
            old(self).visible() && event.key == Key::Esc ==> (final(self).result_spec() matches
                Some(NewKeyResult::Cancel)) && final(self).buffer() == old(self).buffer(),
            old(self).visible() && event.key == Key::Enter ==> {
                &&& final(self).buffer() == old(self).buffer()
                &&& (buffer_text(old(self).buffer()).len() > 0 && old(self).entered_name().len()
                    > 0 ==> (final(self).result_spec() matches Some(NewKeyResult::Done(name))
                    && name@ == old(self).entered_name()))
                &&& (!(buffer_text(old(self).buffer()).len() > 0 && old(self).entered_name().len() > 0) ==> final(self).result_spec() == old(self).result_spec())
            },
            old(self).visible() && event.key != Key::Esc && event.key != Key::Enter ==> final(self).result_spec() == old(self).result_spec(),
    {
        if self.is_visible {
            match event.key {
                Key::Esc => {
                    self.result = Some(NewKeyResult::Cancel);
                },
                Key::Enter => {
                    self.set_done();
                },
                _ => {
                    self.textarea.input(event);
                },
            }
            KeyEventState::Consumed
        } else {
            KeyEventState::NotConsumed
        }
    }

    fn update(&mut self, ctx: &mut SharedState) -> (r: Result<(), StoreError>)
        ensures
            r is Ok,
            *final(self) == *old(self),
            SharedState::unchanged(old(ctx), final(ctx)),
    {
        Ok(())
    }

    fn set_visibility(&mut self, value: bool)
        ensures
            final(self).visible() == value,
            final(self).result_spec() == old(self).result_spec(),
            final(self).buffer() == old(self).buffer(),
    {
        self.is_visible = value;
    }

    fn is_visible(&self) -> (r: bool)
        ensures
            r == self.visible(),
    {
        self.is_visible
    }

    fn context_help(&self) -> (r: Vec<String>)
        ensures
            self.visible() ==> r.deep_view() == seq!["(Enter) done"@, "(Esc) cancel"@],
            !self.visible() ==> r.deep_view() == Seq::<Seq<char>>::empty(),
    {
        if self.is_visible {
            let r: Vec<String> = vec!["(Enter) done".to_owned(), "(Esc) cancel".to_owned()];
            proof {
                assert(r.deep_view() =~= seq!["(Enter) done"@, "(Esc) cancel"@]);
            }
            r
        } else {
            let r: Vec<String> = Vec::new();
            proof {
                assert(r.deep_view() =~= Seq::<Seq<char>>::empty());
            }
            r
        }
    }

    fn show(&mut self, ctx: &mut SharedState)
        ensures
            final(self).visible(),
            final(self).result_spec() == old(self).result_spec(),
            final(self).buffer() == old(self).buffer(),
            SharedState::unchanged(old(ctx), final(ctx)),
    {
        self.set_visibility(true);
    }

    fn conceal(&mut self)
        ensures
            !final(self).visible(),
            final(self).result_spec() == old(self).result_spec(),
            final(self).buffer() == old(self).buffer(),
    {
        self.set_visibility(false);
    }
}

} // verus!
