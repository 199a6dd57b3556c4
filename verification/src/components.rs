//! The capability set every interactive unit implements. A composite offers
//! a key event to its nested components most-modal first and stops at the
//! first one that consumed it; only when all of them passed does it interpret
//! the key itself. Visibility is the sole gate for receiving input.

use vstd::prelude::*;

verus! {

use tui_textarea::Input;

use crate::events::KeyEventState;
use crate::shared_state::{SharedState, StoreError};

pub trait Component {
    /// The component's internal invariant: established by its constructor,
    /// preserved by every operation.
    spec fn inv(&self) -> bool;

    /// Reacts to one key press. Must report `Consumed` whenever the
    /// component is visible, even if the key had no effect, so that a
    /// visible modal fully hides the components behind it.
    fn handle_key_event(&mut self, event: &Input, ctx: &mut SharedState) -> (r: KeyEventState)
        requires
            old(self).inv(),
        ensures
            final(self).inv(),
    ;

    /// Drains completed background work and applies its effects; does
    /// nothing when there is nothing to drain.
    fn update(&mut self, ctx: &mut SharedState) -> (r: Result<(), StoreError>)
        requires
            old(self).inv(),
        ensures
            final(self).inv(),
    ;

    fn set_visibility(&mut self, value: bool)
        requires
            old(self).inv(),
        ensures
            final(self).inv(),
    ;

    fn is_visible(&self) -> bool;

    /// The key bindings honored right now, for the hint bar.
    fn context_help(&self) -> Vec<String>;

    fn show(&mut self, ctx: &mut SharedState)
        requires
            old(self).inv(),
        ensures
            final(self).inv(),
    ;

    fn conceal(&mut self)
        requires
            old(self).inv(),
        ensures
            final(self).inv(),
    ;
}

} // verus!
