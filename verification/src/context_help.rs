//! The hint bar: a passive component that shows whatever key bindings the
//! shell collected from the visible components.

use vstd::prelude::*;

verus! {

use tui_textarea::Input;

use crate::components::Component;
use crate::events::KeyEventState;
use crate::shared_state::{SharedState, StoreError};

pub struct ContextHelp {
    help: Vec<String>,
}

impl ContextHelp {
    pub closed spec fn help_view(&self) -> Seq<Seq<char>> {
        self.help.deep_view()
    }

    pub fn new() -> (r: ContextHelp)
        ensures
            r.help_view() == Seq::<Seq<char>>::empty(),
    {
        let help: Vec<String> = Vec::new();
        proof {
            assert(help.deep_view() =~= Seq::<Seq<char>>::empty());
        }
        ContextHelp { help }
    }

    pub fn set_help(&mut self, help: Vec<String>)
        ensures
            final(self).help_view() == help.deep_view(),
    {
        self.help = help;
    }

    /// The hints to render.
    pub fn help(&self) -> (r: &Vec<String>)
        ensures
            r.deep_view() == self.help_view(),
    {
        &self.help
    }
}

impl Component for ContextHelp {
    open spec fn inv(&self) -> bool {
        true
    }

    fn handle_key_event(&mut self, event: &Input, ctx: &mut SharedState) -> (r: KeyEventState)
        ensures
            r is NotConsumed,
            *final(self) == *old(self),
            SharedState::unchanged(old(ctx), final(ctx)),
    {
        KeyEventState::NotConsumed
    }

    fn update(&mut self, ctx: &mut SharedState) -> (r: Result<(), StoreError>)
        ensures
            r is Ok,
            *final(self) == *old(self),
            SharedState::unchanged(old(ctx), final(ctx)),
    {
        Ok(())
    }

    fn set_visibility(&mut self, value: bool)
        ensures
            *final(self) == *old(self),
    {
    }

    /// The hint bar is always visible.
    fn is_visible(&self) -> (r: bool)
        ensures
            r,
    {
        true
    }

    fn context_help(&self) -> (r: Vec<String>)
        ensures
            r.deep_view() == Seq::<Seq<char>>::empty(),
    {
        let r: Vec<String> = Vec::new();
        proof {
            assert(r.deep_view() =~= Seq::<Seq<char>>::empty());
        }
        r
    }

    fn show(&mut self, ctx: &mut SharedState)
        ensures
            *final(self) == *old(self),
            SharedState::unchanged(old(ctx), final(ctx)),
    {
    }

    fn conceal(&mut self)
        ensures
            *final(self) == *old(self),
    {
    }
}

} // verus!
