//! A task slot with modal presentation: while its operation is pending it is
//! visible, blocks every key from the components behind it, and offers
//! Escape to cancel. Being visible *is* being active; visibility cannot be
//! forced on, only derived from the task.

use vstd::prelude::*;

verus! {

use tui_textarea::{Input, Key};

use crate::components::Component;
use crate::events::KeyEventState;
use crate::shared_state::{SharedState, StoreError};
use crate::utils::AsyncTask;

pub struct ForegroundTask<T> {
    description: String,
    task: AsyncTask<T>,
}

impl<T> ForegroundTask<T> {
    pub closed spec fn description_spec(&self) -> String {
        self.description
    }

    pub open spec fn description_view(&self) -> Seq<char> {
        self.description_spec()@
    }

    pub closed spec fn task_spec(&self) -> AsyncTask<T> {
        self.task
    }

    pub open spec fn active(&self) -> bool {
        self.task_spec().is_active_spec()
    }

    pub fn new(description: String) -> (r: ForegroundTask<T>)
        ensures
            r.description_view() == description@,
            r.task_spec().is_idle(),
            !r.task_spec().is_running(),
            !r.task_spec().is_done(),
            !r.active(),
    {
        ForegroundTask { description, task: AsyncTask::new() }
    }

    /// The blocking dialog's text.
    pub fn description(&self) -> (r: &String)
        ensures
            r@ == self.description_view(),
    {
        &self.description
    }

    pub fn start(&mut self) -> (ticket: u64)
        ensures
            AsyncTask::started(&old(self).task_spec(), &final(self).task_spec()),
            ticket == final(self).task_spec().ticket(),
            final(self).description_spec() == old(self).description_spec(),
    {
        self.task.start()
    }

    pub fn is_active(&self) -> (r: bool)
        ensures
            r == self.active(),
    {
        self.task.is_active()
    }

    pub fn complete(&mut self, ticket: u64, value: T)
        ensures
            AsyncTask::delivered(
                &old(self).task_spec(),
                &final(self).task_spec(),
                ticket,
                value,
            ),
            final(self).description_spec() == old(self).description_spec(),
    {
        self.task.complete(ticket, value)
    }

    pub fn try_ready(&mut self) -> (r: Option<T>)
        ensures
            AsyncTask::polled(&old(self).task_spec(), &final(self).task_spec(), r),
            final(self).description_spec() == old(self).description_spec(),
    {
        self.task.try_ready()
    }

    pub fn abort(&mut self) -> (r: bool)
        ensures
            AsyncTask::aborted(&old(self).task_spec(), &final(self).task_spec(), r),
            final(self).description_spec() == old(self).description_spec(),
    {
        self.task.abort()
    }
}

impl<T> Component for ForegroundTask<T> {
    open spec fn inv(&self) -> bool {
        true
    }

    /// While visible, every key is consumed; Escape additionally aborts the
    /// pending operation. While invisible, no key is touched.
    fn handle_key_event(&mut self, event: &Input, ctx: &mut SharedState) -> (r: KeyEventState)
        ensures
            SharedState::unchanged(old(ctx), final(ctx)),
            final(self).description_spec() == old(self).description_spec(),
            !old(self).active() ==> r is NotConsumed && *final(self) == *old(self),
            old(self).active() ==> r is Consumed,
            old(self).active() && event.key == Key::Esc ==> AsyncTask::aborted(
                &old(self).task_spec(),
                &final(self).task_spec(),
                true,
            ),
            old(self).active() && event.key != Key::Esc ==> *final(self) == *old(self),
    {
        if self.is_active() {
            match event.key {
                Key::Esc => {
                    let _ = self.abort();
                },
                _ => {},
            }
            KeyEventState::Consumed
        } else {
            KeyEventState::NotConsumed
        }
    }

    fn update(&mut self, ctx: &mut SharedState) -> (r: Result<(), StoreError>)
        ensures
            r is Ok,
            *final(self) == *old(self),
            SharedState::unchanged(old(ctx), final(ctx)),
    {
        Ok(())
    }

    /// Visibility is derived from the task, so it can be turned off (which
    /// aborts the pending operation) but never forced on.
    fn set_visibility(&mut self, value: bool)
        ensures
            final(self).description_spec() == old(self).description_spec(),
            !value ==> AsyncTask::aborted(
                &old(self).task_spec(),
                &final(self).task_spec(),
                old(self).active(),
            ),
            value ==> *final(self) == *old(self),
    {
        if !value {
            let _ = self.task.abort();
        }
    }

    fn is_visible(&self) -> (r: bool)
        ensures
            r == self.active(),
    {
        self.task.is_active()
    }

    fn context_help(&self) -> (r: Vec<String>)
        ensures
            self.active() ==> r.deep_view() == seq!["(Esc) cancel"@],
            !self.active() ==> r.deep_view() == Seq::<Seq<char>>::empty(),
    {
        if self.task.is_active() {
            let r: Vec<String> = vec!["(Esc) cancel".to_owned()];
            proof {
                assert(r.deep_view() =~= seq!["(Esc) cancel"@]);
            }
            r
        } else {
            let r: Vec<String> = Vec::new();
            proof {
                assert(r.deep_view() =~= Seq::<Seq<char>>::empty());
            }
            r
        }
    }

    fn show(&mut self, ctx: &mut SharedState)
        ensures
            *final(self) == *old(self),
            SharedState::unchanged(old(ctx), final(ctx)),
    {
        self.set_visibility(true);
    }

    fn conceal(&mut self)
        ensures
            AsyncTask::aborted(
                &old(self).task_spec(),
                &final(self).task_spec(),
                old(self).active(),
            ),
            final(self).description_spec() == old(self).description_spec(),
    {
        self.set_visibility(false);
    }
}

} // verus!
