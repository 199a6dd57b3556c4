//! The application shell: both scenes (exactly one of them visible), the
//! hint bar, and the recorded outcome that ends the loop. The shell routes
//! each event: key presses go to the visible scene, the two handoff events
//! switch scenes, a tick or another terminal signal drains background work,
//! and a quit records the outcome.

use vstd::prelude::*;

verus! {

use tui_textarea::Input;

use crate::components::Component;
use crate::context_help::ContextHelp;
use crate::events::{Event, KeyEventState};
use crate::key_selector::KeySelector;
use crate::shared_state::{SharedState, SlotId, StoreError, StoreReply, StoreRequest, StoreOp};
use crate::utils::AsyncTask;
use crate::value_editor::ValueEditor;

pub struct App {
    key_selector: KeySelector,
    value_editor: ValueEditor,
    context_help: ContextHelp,
    app_result: Option<Result<(), StoreError>>,
}

impl App {
    pub closed spec fn selector(&self) -> KeySelector {
        self.key_selector
    }

    pub closed spec fn editor(&self) -> ValueEditor {
        self.value_editor
    }

    pub closed spec fn help_comp(&self) -> ContextHelp {
        self.context_help
    }

    pub closed spec fn result_spec(&self) -> Option<Result<(), StoreError>> {
        self.app_result
    }

    /// Both scenes are well formed and never visible at the same time.
    pub open spec fn wf(&self) -> bool {
        &&& self.selector().wf()
        &&& self.editor().wf()
        &&& !(self.selector().visible() && self.editor().visible())
    }

    /// Starting the shell shows the browse scene, which asks for the key
    /// list at once.
    pub fn new(ctx: &mut SharedState) -> (r: App)
        ensures
            r.wf(),
            r.selector().visible(),
            !r.editor().visible(),
            r.result_spec() is None,
            r.selector().list_task().task_spec().is_running(),
            SharedState::requested(
                old(ctx),
                final(ctx),
                (StoreRequest {
                    slot: SlotId::SelectorList,
                    ticket: r.selector().list_task().task_spec().ticket(),
                    op: StoreOp::ListKeys,
                }),
            ),
    {
        let mut key_selector = KeySelector::new();
        key_selector.show(ctx);
        App {
            key_selector,
            value_editor: ValueEditor::new(),
            context_help: ContextHelp::new(),
            app_result: None,
        }
    }

    pub fn should_quit(&self) -> (r: bool)
        ensures
            r == (self.result_spec() is Some),
    {
        match &self.app_result {
            Some(_) => true,
            None => false,
        }
    }

    /// The recorded outcome; to be read once the loop has stopped.
    pub fn take_result(self) -> (r: Result<(), StoreError>)
        requires
            self.result_spec() is Some,
        ensures
            r == self.result_spec()->0,
    {
        match self.app_result {
            Some(result) => result,
            None => Err(StoreError::NotFound),
        }
    }

    /// Records the outcome that will end the loop.
    pub fn quit(&mut self, result: Result<(), StoreError>)
        ensures
            final(self).result_spec() == Some(result),
            final(self).selector() == old(self).selector(),
            final(self).editor() == old(self).editor(),
            final(self).help_comp() == old(self).help_comp(),
    {
        self.app_result = Some(result);
    }

    /// The hint bar component, for the renderer to fill and draw.
    pub fn hint_bar(&mut self) -> (r: &mut ContextHelp)
        ensures
            *r == old(self).help_comp(),
            final(self).help_comp() == *final(r),
            final(self).selector() == old(self).selector(),
            final(self).editor() == old(self).editor(),
            final(self).result_spec() == old(self).result_spec(),
    {
        &mut self.context_help
    }

    /// The browse scene, for the renderer.
    pub fn key_selector(&self) -> (r: &KeySelector)
        ensures
            *r == self.selector(),
    {
        &self.key_selector
    }

    /// The edit scene, for the renderer.
    pub fn value_editor(&self) -> (r: &ValueEditor)
        ensures
            *r == self.editor(),
    {
        &self.value_editor
    }

    /// Routes one event: a key press to the scenes, `Quit` into the
    /// recorded outcome, the two handoffs into a scene switch, and a tick
    /// or other terminal signal into one drain pass; a drain failure is
    /// returned for the runtime to turn into a `Quit`.
    pub fn handle_event(&mut self, event: Event, ctx: &mut SharedState) -> (r: Result<
        (),
        StoreError,
    >)
        requires
            old(self).wf(),
        ensures
            final(self).wf(),
            final(self).help_comp() == old(self).help_comp(),
            event matches Event::Quit(x) ==> {
                &&& final(self).result_spec() == Some(x)
                &&& final(self).selector() == old(self).selector()
                &&& final(self).editor() == old(self).editor()
                &&& SharedState::unchanged(old(ctx), final(ctx))
                &&& r is Ok
            },
            !(event is Quit) ==> final(self).result_spec() == old(self).result_spec(),
            event is KeyEditDone ==> {
                &&& final(self).selector().visible()
                &&& !final(self).editor().visible()
                &&& final(self).editor().editing() == old(self).editor().editing()
                &&& final(self).editor().buffer() == old(self).editor().buffer()
                &&& (old(self).selector().list_task().active() ==> final(self).selector().list_task()
                    == old(self).selector().list_task() && SharedState::unchanged(
                    old(ctx),
                    final(ctx),
                ))
                &&& (!old(self).selector().list_task().active() ==> AsyncTask::started(
                    &old(self).selector().list_task().task_spec(),
                    &final(self).selector().list_task().task_spec(),
                ) && SharedState::requested(
                    old(ctx),
                    final(ctx),
                    (StoreRequest {
                        slot: SlotId::SelectorList,
                        ticket: final(self).selector().list_task().task_spec().ticket(),
                        op: StoreOp::ListKeys,
                    }),
                ))
                &&& r is Ok
            },
            event matches Event::KeyLoaded { key, value } ==> {
                &&& !final(self).selector().visible()
                &&& final(self).editor().visible()
                &&& !final(self).editor().editing()
                &&& final(self).editor().key_spec() == key
                &&& crate::editor_buffer::buffer_text(final(self).editor().buffer())
                    == crate::text::key_lines(value@)
                &&& !final(self).editor().changed_spec()
                &&& SharedState::unchanged(old(ctx), final(ctx))
                &&& r is Ok
            },
            event matches Event::Keyboard(kb) ==> {
                &&& (!old(self).selector().visible() && !old(self).editor().visible() ==> *final(self) == *old(self) && SharedState::unchanged(old(ctx), final(ctx)) && r is Ok)
                &&& (old(self).selector().visible() ==> KeySelector::key_step(
                    &old(self).selector(),
                    &final(self).selector(),
                    old(ctx),
                    final(ctx),
                    kb,
                    KeyEventState::Consumed,
                ) && final(self).editor() == old(self).editor() && r is Ok)
                &&& (old(self).editor().visible() ==> ValueEditor::key_step(
                    &old(self).editor(),
                    &final(self).editor(),
                    old(ctx),
                    final(ctx),
                    kb,
                    KeyEventState::Consumed,
                ) && final(self).selector() == old(self).selector() && r is Ok)
            },
            event is Tick || event is Tui ==> exists|mid: SharedState, r_sel: Result<
                (),
                StoreError,
            >|
                {
                    &&& #[trigger] KeySelector::update_step(
                        &old(self).selector(),
                        &final(self).selector(),
                        old(ctx),
                        &mid,
                        r_sel,
                    )
                    &&& (r_sel is Err ==> final(self).editor() == old(self).editor()
                        && SharedState::unchanged(&mid, final(ctx)) && r == r_sel)
                    &&& (r_sel is Ok ==> ValueEditor::update_step(
                        &old(self).editor(),
                        &final(self).editor(),
                        &mid,
                        final(ctx),
                        r,
                    ))
                },
    {
        match event {
            Event::Keyboard(kb) => {
                let r1 = self.key_selector.handle_key_event(&kb, ctx);
                let r2 = self.value_editor.handle_key_event(&kb, ctx);
                let _ = r1;
                let _ = r2;
                Ok(())
            },
            Event::Quit(x) => {
                self.app_result = Some(x);
                Ok(())
            },
            Event::KeyEditDone => {
                self.key_selector.show(ctx);
                self.value_editor.conceal();
                Ok(())
            },
            Event::KeyLoaded { key, value } => {
                self.key_selector.conceal();
                self.value_editor.open_key(key, value);
                Ok(())
            },
            Event::Tui | Event::Tick => self.update_components(ctx),
        }
    }

    /// One drain pass over both scenes: the browse scene first, then the
    /// edit scene; the first failure stops the pass.
    fn update_components(&mut self, ctx: &mut SharedState) -> (r: Result<(), StoreError>)
        requires
            old(self).wf(),
        ensures
            final(self).wf(),
            final(self).help_comp() == old(self).help_comp(),
            final(self).result_spec() == old(self).result_spec(),
            exists|mid: SharedState, r_sel: Result<(), StoreError>|
                {
                    &&& #[trigger] KeySelector::update_step(
                        &old(self).selector(),
                        &final(self).selector(),
                        old(ctx),
                        &mid,
                        r_sel,
                    )
                    &&& (r_sel is Err ==> final(self).editor() == old(self).editor()
                        && SharedState::unchanged(&mid, final(ctx)) && r == r_sel)
                    &&& (r_sel is Ok ==> ValueEditor::update_step(
                        &old(self).editor(),
                        &final(self).editor(),
                        &mid,
                        final(ctx),
                        r,
                    ))
                },
    {
        let r_sel = self.key_selector.update(ctx);
        let ghost mid: SharedState = *ctx;
        match r_sel {
            Err(e) => {
                proof {
                    assert(KeySelector::update_step(
                        &old(self).selector(),
                        &self.selector(),
                        old(ctx),
                        &mid,
                        Err(e),
                    ));
                }
                Err(e)
            },
            Ok(_) => {
                let r = self.value_editor.update(ctx);
                proof {
                    assert(KeySelector::update_step(
                        &old(self).selector(),
                        &self.selector(),
                        old(ctx),
                        &mid,
                        Ok(()),
                    ));
                }
                r
            },
        }
    }

    /// Hands a finished store operation to the task slot it was issued
    /// for; a reply that does not fit the slot is discarded.
    pub fn deliver(&mut self, slot: SlotId, ticket: u64, reply: StoreReply)
        ensures
            final(self).help_comp() == old(self).help_comp(),
            final(self).result_spec() == old(self).result_spec(),
            reply matches StoreReply::Keys(ks) ==> slot == SlotId::SelectorList ==> {
                &&& KeySelector::only_list_touched(&old(self).selector(), &final(self).selector())
                &&& AsyncTask::delivered(
                    &old(self).selector().list_task().task_spec(),
                    &final(self).selector().list_task().task_spec(),
                    ticket,
                    ks,
                )
                &&& final(self).editor() == old(self).editor()
            },
            reply matches StoreReply::Value(kv) ==> slot == SlotId::SelectorGet ==> {
                &&& KeySelector::only_get_touched(&old(self).selector(), &final(self).selector())
                &&& AsyncTask::delivered(
                    &old(self).selector().get_task().task_spec(),
                    &final(self).selector().get_task().task_spec(),
                    ticket,
                    kv,
                )
                &&& final(self).editor() == old(self).editor()
            },
            reply matches StoreReply::Done(d) ==> slot == SlotId::SelectorDelete ==> {
                &&& KeySelector::only_del_touched(&old(self).selector(), &final(self).selector())
                &&& AsyncTask::delivered(
                    &old(self).selector().del_task().task_spec(),
                    &final(self).selector().del_task().task_spec(),
                    ticket,
                    d,
                )
                &&& final(self).editor() == old(self).editor()
            },
            reply matches StoreReply::Done(d) ==> slot == SlotId::EditorSave ==> {
                &&& ValueEditor::only_save_touched(&old(self).editor(), &final(self).editor())
                &&& AsyncTask::delivered(
                    &old(self).editor().save_task().task_spec(),
                    &final(self).editor().save_task().task_spec(),
                    ticket,
                    d,
                )
                &&& final(self).selector() == old(self).selector()
            },
            !((slot == SlotId::SelectorList && reply is Keys) || (slot == SlotId::SelectorGet
                && reply is Value) || (slot == SlotId::SelectorDelete && reply is Done) || (slot
                == SlotId::EditorSave && reply is Done)) ==> *final(self) == *old(self),
    {
        match (slot, reply) {
            (SlotId::SelectorList, StoreReply::Keys(ks)) => {
                self.key_selector.deliver_keys(ticket, ks);
            },
            (SlotId::SelectorGet, StoreReply::Value(kv)) => {
                self.key_selector.deliver_value(ticket, kv);
            },
            (SlotId::SelectorDelete, StoreReply::Done(d)) => {
                self.key_selector.deliver_deleted(ticket, d);
            },
            (SlotId::EditorSave, StoreReply::Done(d)) => {
                self.value_editor.deliver_saved(ticket, d);
            },
            _ => {},
        }
    }
}

impl Component for App {
    open spec fn inv(&self) -> bool {
        self.wf()
    }

    /// The shell offers a key press to both scenes in order; the invisible
    /// one never touches it.
    fn handle_key_event(&mut self, event: &Input, ctx: &mut SharedState) -> (r: KeyEventState)
        ensures
            final(self).help_comp() == old(self).help_comp(),
            final(self).result_spec() == old(self).result_spec(),
            !old(self).selector().visible() && !old(self).editor().visible() ==> *final(self)
                == *old(self) && SharedState::unchanged(old(ctx), final(ctx)) && r
                is NotConsumed,
            old(self).selector().visible() ==> KeySelector::key_step(
                &old(self).selector(),
                &final(self).selector(),
                old(ctx),
                final(ctx),
                *event,
                r,
            ) && final(self).editor() == old(self).editor() && r is Consumed,
            old(self).editor().visible() ==> ValueEditor::key_step(
                &old(self).editor(),
                &final(self).editor(),
                old(ctx),
                final(ctx),
                *event,
                r,
            ) && final(self).selector() == old(self).selector() && r is Consumed,
    {
        let r1 = self.key_selector.handle_key_event(event, ctx);
        let r2 = self.value_editor.handle_key_event(event, ctx);
        match (r1, r2) {
            (KeyEventState::NotConsumed, KeyEventState::NotConsumed) => {
                KeyEventState::NotConsumed
            },
            _ => KeyEventState::Consumed,
        }
    }

    fn update(&mut self, ctx: &mut SharedState) -> (r: Result<(), StoreError>)
        ensures
            final(self).help_comp() == old(self).help_comp(),
            final(self).result_spec() == old(self).result_spec(),
            exists|mid: SharedState, r_sel: Result<(), StoreError>|
                {
                    &&& #[trigger] KeySelector::update_step(
                        &old(self).selector(),
                        &final(self).selector(),
                        old(ctx),
                        &mid,
                        r_sel,
                    )
                    &&& (r_sel is Err ==> final(self).editor() == old(self).editor()
                        && SharedState::unchanged(&mid, final(ctx)) && r == r_sel)
                    &&& (r_sel is Ok ==> ValueEditor::update_step(
                        &old(self).editor(),
                        &final(self).editor(),
                        &mid,
                        final(ctx),
                        r,
                    ))
                },
    {
        self.update_components(ctx)
    }

    /// The shell itself is always visible and cannot be hidden.
    fn set_visibility(&mut self, value: bool)
        ensures
            *final(self) == *old(self),
    {
    }

    fn is_visible(&self) -> (r: bool)
        ensures
            r,
    {
        true
    }

    /// The hints of both scenes, the browse scene's first.
    fn context_help(&self) -> (r: Vec<String>)
        ensures
            r.deep_view() == self.selector().context_help_view() + self.editor().context_help_view(),
    {
        let mut helps = self.key_selector.context_help();
        let mut editor_helps = self.value_editor.context_help();
        let ghost first = helps.deep_view();
        let ghost second = editor_helps.deep_view();
        helps.append(&mut editor_helps);
        proof {
            assert(helps.deep_view() =~~= first + second);
        }
        helps
    }

    fn show(&mut self, ctx: &mut SharedState)
        ensures
            *final(self) == *old(self),
            SharedState::unchanged(old(ctx), final(ctx)),
    {
    }

    fn conceal(&mut self)
        ensures
            *final(self) == *old(self),
    {
    }
}

} // verus!
