//! The tri-state yes/no/cancel modal. Created hidden, shown by its owner,
//! resolved by `y`, `n` or Escape, then read through `status` and discarded
//! by the owner.

use vstd::prelude::*;

verus! {

use tui_textarea::{Input, Key};

use crate::components::Component;
use crate::events::KeyEventState;
use crate::shared_state::{SharedState, StoreError};

#[derive(Clone, Copy, Debug, PartialEq, Eq, Structural)]
pub enum ConfirmationResult {
    Yes,
    No,
    Cancel,
}

/// How one key resolves the popup: `y` means yes, `n` means no, Escape
/// cancels, whatever the modifiers; any other key leaves it pending.
pub open spec fn key_confirmation(key: Key) -> Option<ConfirmationResult> {
    if key == Key::Char('y') {
        Some(ConfirmationResult::Yes)
    } else if key == Key::Char('n') {
        Some(ConfirmationResult::No)
    } else if key == Key::Esc {
        Some(ConfirmationResult::Cancel)
    } else {
        None
    }
}

pub struct ConfirmationPopup {
    description: String,
    result: Option<ConfirmationResult>,
    is_visible: bool,
}

impl ConfirmationPopup {
    pub closed spec fn description_view(&self) -> Seq<char> {
        self.description@
    }

    pub closed spec fn result_spec(&self) -> Option<ConfirmationResult> {
        self.result
    }

    pub closed spec fn visible(&self) -> bool {
        self.is_visible
    }

    pub fn new(description: String) -> (r: ConfirmationPopup)
        ensures
            r.description_view() == description@,
            r.result_spec() is None,
            !r.visible(),
    {
        ConfirmationPopup { description, result: None, is_visible: false }
    }

    fn set_result(&mut self, result: ConfirmationResult, ctx: &mut SharedState)
        ensures
            final(self).result_spec() == Some(result),
            final(self).description_view() == old(self).description_view(),
            final(self).visible() == old(self).visible(),
            SharedState::emitted(old(ctx), final(ctx), crate::events::Event::Tick),
    {
        self.result = Some(result);
        ctx.tick();
    }

    /// The resolution, once one of the three keys arrived.
    pub fn status(&self) -> (r: Option<ConfirmationResult>)
        ensures
            r == self.result_spec(),
    {
        self.result
    }

    /// The question to render.
    pub fn description(&self) -> (r: &String)
        ensures
            r@ == self.description_view(),
    {
        &self.description
    }
}

impl Component for ConfirmationPopup {
    open spec fn inv(&self) -> bool {
        true
    }

    fn handle_key_event(&mut self, event: &Input, ctx: &mut SharedState) -> (r: KeyEventState)
        ensures
            !old(self).visible() ==> r is NotConsumed && *final(self) == *old(self)
                && SharedState::unchanged(old(ctx), final(ctx)),
            old(self).visible() ==> r is Consumed,
            old(self).visible() && key_confirmation(event.key) is Some ==> {
                &&& final(self).result_spec() == key_confirmation(event.key)
                &&& SharedState::emitted(old(ctx), final(ctx), crate::events::Event::Tick)
            },
            old(self).visible() && key_confirmation(event.key) is None ==> *final(self) == *old(
                self,
            ) && SharedState::unchanged(old(ctx), final(ctx)),
            final(self).visible() == old(self).visible(),
            final(self).description_view() == old(self).description_view(),
    {
        if self.is_visible {
            match event.key {
                Key::Char(c) => {
                    if c == 'y' {
                        self.set_result(ConfirmationResult::Yes, ctx);
                    } else if c == 'n' {
                        self.set_result(ConfirmationResult::No, ctx);
                    }
                },
                Key::Esc => {
                    self.set_result(ConfirmationResult::Cancel, ctx);
                },
                _ => {},
            }
            KeyEventState::Consumed
        } else {
            KeyEventState::NotConsumed
        }
    }

    fn update(&mut self, ctx: &mut SharedState) -> (r: Result<(), StoreError>)
        ensures
            r is Ok,
            *final(self) == *old(self),
            SharedState::unchanged(old(ctx), final(ctx)),
    {
        Ok(())
    }

    fn set_visibility(&mut self, value: bool)
        ensures
            final(self).visible() == value,
            final(self).result_spec() == old(self).result_spec(),
            final(self).description_view() == old(self).description_view(),
    {
        self.is_visible = value;
    }

    fn is_visible(&self) -> (r: bool)
        ensures
            r == self.visible(),
    {
        self.is_visible
    }

    fn context_help(&self) -> (r: Vec<String>)
        ensures
            self.visible() ==> r.deep_view() == seq!["(y) yes"@, "(n) no"@, "(Esc) cancel"@],
            !self.visible() ==> r.deep_view() == Seq::<Seq<char>>::empty(),
    {
        if self.is_visible {
            let r: Vec<String> = vec![
                "(y) yes".to_owned(),
                "(n) no".to_owned(),
                "(Esc) cancel".to_owned(),
            ];
            proof {
                assert(r.deep_view() =~= seq!["(y) yes"@, "(n) no"@, "(Esc) cancel"@]);
            }
            r
        } else {
            let r: Vec<String> = Vec::new();
            proof {
                assert(r.deep_view() =~= Seq::<Seq<char>>::empty());
            }
            r
        }
    }

    fn show(&mut self, ctx: &mut SharedState)
        ensures
            final(self).visible(),
            final(self).result_spec() == old(self).result_spec(),
            final(self).description_view() == old(self).description_view(),
            SharedState::unchanged(old(ctx), final(ctx)),
    {
        self.set_visibility(true);
    }

    fn conceal(&mut self)
        ensures
            !final(self).visible(),
            final(self).result_spec() == old(self).result_spec(),
            final(self).description_view() == old(self).description_view(),
    {
        self.set_visibility(false);
    }
}

} // verus!
