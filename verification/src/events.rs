//! Events that drive the interactive loop, and the input-consumption signal
//! that components bubble back to their owners.

use vstd::prelude::*;

verus! {

use tui_textarea::{Input, Key};

use crate::shared_state::StoreError;

/// Declares tui_textarea's backend-agnostic key kind, so that the library
/// can match on the pressed key directly.
#[verifier::external_type_specification]
pub struct ExKey(Key);

/// Declares tui_textarea's key input record (key kind plus modifiers), the
/// library's own key-event type.
#[verifier::external_type_specification]
pub struct ExInput(Input);

/// Whether a component swallowed a key event (so that nobody behind a
/// visible modal ever sees it) or left it for the next component in line.
pub enum KeyEventState {
    Consumed,
    NotConsumed,
}

/// One event per loop iteration: a periodic tick, a key press, another
/// terminal signal, one of the two scene-transition handoffs, or a request
/// to stop the loop with the given outcome.
pub enum Event {
    Tick,
    Keyboard(Input),
    Tui,
    KeyLoaded { key: String, value: String },
    KeyEditDone,
    Quit(Result<(), StoreError>),
}

} // verus!
