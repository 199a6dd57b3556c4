//! The edit scene: one key's value in a text buffer, toggling between a
//! viewing and an editing mode, with a dirty flag derived from the snapshot
//! taken when the key was opened, a save task slot, and a confirmation popup
//! for unsaved changes.

use vstd::prelude::*;

verus! {

use tui_textarea::{Input, Key};

use crate::components::Component;
use crate::confirmation_popup::{key_confirmation, ConfirmationPopup, ConfirmationResult};
use crate::editor_buffer::{buffer_text, EditBuffer};
use crate::events::{Event, KeyEventState};
use crate::foreground_task::ForegroundTask;
use crate::shared_state::{SharedState, SlotId, StoreError, StoreOp, StoreRequest};
use crate::text::{chars_vec, join_lines, join_text_lines, key_lines, lines_to_strings,
    split_value_lines, lemma_lines_from_at_least_one};
use crate::utils::AsyncTask;

/// Law: declining the save confirmation leaves the editor without writing
/// anything. If the popup was resolved with `No` and the save slot holds no
/// unobserved result, the next drain pass succeeds, emits exactly one
/// `KeyEditDone`, asks the store for nothing, and discards the popup.
pub proof fn lemma_declined_save_writes_nothing(
    e0: ValueEditor,
    e1: ValueEditor,
    c0: SharedState,
    c1: SharedState,
    r: Result<(), StoreError>,
)
    requires
        e0.update_discards(),
        !e0.save_task().task_spec().is_done(),
        ValueEditor::update_step(&e0, &e1, &c0, &c1, r),
    ensures
        c1.events() == c0.events().push(Event::KeyEditDone),
        c1.requests() == c0.requests(),
        e1.popup_spec() is None,
        r is Ok,
{
    assert(c1.events() =~= c0.events().push(Event::KeyEditDone));
}

pub struct ValueEditor {
    is_visible: bool,
    is_in_editing_mode: bool,
    editor_textarea: EditBuffer,
    key: String,
    original_key_value: String,
    confirmation_popup: Option<ConfirmationPopup>,
    put_key_task: ForegroundTask<Result<(), StoreError>>,
}

impl ValueEditor {
    pub closed spec fn visible(&self) -> bool {
        self.is_visible
    }

    pub closed spec fn editing(&self) -> bool {
        self.is_in_editing_mode
    }

    pub closed spec fn buffer(&self) -> EditBuffer {
        self.editor_textarea
    }

    pub closed spec fn key_spec(&self) -> String {
        self.key
    }

    pub closed spec fn original_spec(&self) -> String {
        self.original_key_value
    }

    pub closed spec fn popup_spec(&self) -> Option<ConfirmationPopup> {
        self.confirmation_popup
    }

    pub closed spec fn save_task(&self) -> ForegroundTask<Result<(), StoreError>> {
        self.put_key_task
    }

    /// The buffer's text, lines joined by LF: what a save would write.
    pub open spec fn content_view(&self) -> Seq<char> {
        join_lines(buffer_text(self.buffer()))
    }

    /// Dirty: the buffer no longer matches the snapshot taken at open time.
    pub open spec fn changed_spec(&self) -> bool {
        self.content_view() != self.original_spec()@
    }

    /// An owned popup is always visible.
    pub open spec fn wf(&self) -> bool {
        self.popup_spec() matches Some(p) ==> p.visible()
    }

    /// Everything equal but the save task's slot.
    pub open spec fn only_save_touched(pre: &Self, post: &Self) -> bool {
        &&& post.visible() == pre.visible()
        &&& post.editing() == pre.editing()
        &&& post.buffer() == pre.buffer()
        &&& post.key_spec() == pre.key_spec()
        &&& post.original_spec() == pre.original_spec()
        &&& post.popup_spec() == pre.popup_spec()
        &&& post.save_task().description_spec() == pre.save_task().description_spec()
    }

    /// Everything equal but the popup.
    pub open spec fn only_popup_touched(pre: &Self, post: &Self) -> bool {
        &&& post.visible() == pre.visible()
        &&& post.editing() == pre.editing()
        &&& post.buffer() == pre.buffer()
        &&& post.key_spec() == pre.key_spec()
        &&& post.original_spec() == pre.original_spec()
        &&& post.save_task() == pre.save_task()
    }

    /// Everything equal but the editing mode.
    pub open spec fn only_mode_touched(pre: &Self, post: &Self) -> bool {
        &&& post.visible() == pre.visible()
        &&& post.buffer() == pre.buffer()
        &&& post.key_spec() == pre.key_spec()
        &&& post.original_spec() == pre.original_spec()
        &&& post.popup_spec() == pre.popup_spec()
        &&& post.save_task() == pre.save_task()
    }

    /// Everything equal but the buffer.
    pub open spec fn only_buffer_touched(pre: &Self, post: &Self) -> bool {
        &&& post.visible() == pre.visible()
        &&& post.editing() == pre.editing()
        &&& post.key_spec() == pre.key_spec()
        &&& post.original_spec() == pre.original_spec()
        &&& post.popup_spec() == pre.popup_spec()
        &&& post.save_task() == pre.save_task()
    }

    pub fn new() -> (r: ValueEditor)
        ensures
            r.wf(),
            !r.visible(),
            !r.editing(),
            buffer_text(r.buffer()) == seq![Seq::<char>::empty()],
            r.key_spec()@ == Seq::<char>::empty(),
            r.original_spec()@ == Seq::<char>::empty(),
            r.popup_spec() is None,
            r.save_task().task_spec().is_idle(),
            !r.save_task().active(),
            r.save_task().description_view() == "Saving key"@,
            !r.changed_spec(),
    {
        let r = ValueEditor {
            is_visible: false,
            is_in_editing_mode: false,
            editor_textarea: EditBuffer::with_lines(Vec::new()),
            key: String::new(),
            original_key_value: String::new(),
            confirmation_popup: None,
            put_key_task: ForegroundTask::new("Saving key".to_owned()),
        };
        proof {
            assert(r.content_view() == join_lines(seq![Seq::<char>::empty()]));
            assert(join_lines(seq![Seq::<char>::empty()]) =~= Seq::<char>::empty());
        }
        r
    }

    /// The opened key's name.
    pub fn key(&self) -> (r: &String)
        ensures
            *r == self.key_spec(),
    {
        &self.key
    }

    /// The save slot, for the renderer.
    pub fn put_key_task(&self) -> (r: &ForegroundTask<Result<(), StoreError>>)
        ensures
            *r == self.save_task(),
    {
        &self.put_key_task
    }

    /// The save confirmation, for the renderer.
    pub fn confirmation_popup(&self) -> (r: &Option<ConfirmationPopup>)
        ensures
            *r == self.popup_spec(),
    {
        &self.confirmation_popup
    }

    /// The buffer's lines, for the renderer.
    pub fn editor_lines(&self) -> (r: Vec<String>)
        ensures
            r.deep_view() == buffer_text(self.buffer()),
    {
        self.editor_textarea.lines()
    }

    /// The buffer's text, lines joined by LF.
    pub fn editor_content(&self) -> (r: String)
        ensures
            r@ == self.content_view(),
    {
        let lines = self.editor_textarea.lines();
        join_text_lines(&lines)
    }

    /// Loads one key into the editor: the value is cut into lines (every
    /// LF, CRLF or lone CR a break, one trailing terminator dropped), the
    /// dirty baseline is the lines joined back by LF, and the editor shows
    /// in viewing mode. The popup and the save slot are left alone.
    pub fn open_key(&mut self, key: String, value: String)
        ensures
            final(self).wf() == old(self).wf(),
            final(self).visible(),
            !final(self).editing(),
            final(self).key_spec() == key,
            buffer_text(final(self).buffer()) == key_lines(value@),
            final(self).original_spec()@ == join_lines(key_lines(value@)),
            !final(self).changed_spec(),
            final(self).popup_spec() == old(self).popup_spec(),
            final(self).save_task() == old(self).save_task(),
    {
        let cs = chars_vec(value.as_str());
        let line_chars = split_value_lines(&cs);
        let lines = lines_to_strings(&line_chars);
        let original = join_text_lines(&lines);
        proof {
            lemma_lines_from_at_least_one(Seq::empty(), value@);
            assert(lines@.len() == key_lines(value@).len());
        }
        self.editor_textarea = EditBuffer::with_lines(lines);
        self.key = key;
        self.original_key_value = original;
        self.is_in_editing_mode = false;
        self.is_visible = true;
    }

    /// Whether the buffer differs from the snapshot taken at open time.
    pub fn value_has_changed(&self) -> (r: bool)
        ensures
            r == self.changed_spec(),
    {
        let content = self.editor_content();
        !(content == self.original_key_value)
    }

    /// The status half of the title: editing mode and dirtiness.
    pub fn title_status(&self) -> (r: String)
        ensures
            self.editing() && self.changed_spec() ==> r@ == "editing, changed"@,
            self.editing() && !self.changed_spec() ==> r@ == "editing, not changed"@,
            !self.editing() && self.changed_spec() ==> r@ == "not editing, changed"@,
            !self.editing() && !self.changed_spec() ==> r@ == "not editing, not changed"@,
    {
        let changed = self.value_has_changed();
        if self.is_in_editing_mode {
            if changed {
                "editing, changed".to_owned()
            } else {
                "editing, not changed".to_owned()
            }
        } else {
            if changed {
                "not editing, changed".to_owned()
            } else {
                "not editing, not changed".to_owned()
            }
        }
    }

    fn edit_done(&self, ctx: &mut SharedState)
        ensures
            SharedState::emitted(old(ctx), final(ctx), Event::KeyEditDone),
    {
        ctx.send_event(Event::KeyEditDone);
    }

    fn put_key(&mut self, ctx: &mut SharedState)
        ensures
            Self::only_save_touched(old(self), final(self)),
            AsyncTask::started(
                &old(self).save_task().task_spec(),
                &final(self).save_task().task_spec(),
            ),
            final(ctx).events() == old(ctx).events(),
            final(ctx).requests().len() == old(ctx).requests().len() + 1,
            final(ctx).requests().drop_last() == old(ctx).requests(),
            final(ctx).requests().last() matches StoreRequest {
                slot: SlotId::EditorSave,
                ticket,
                op: StoreOp::PutKey(k, v),
            } && ticket == final(self).save_task().task_spec().ticket() && k == old(self).key_spec() && v@ == old(self).content_view(),
    {
        let key = self.key.clone();
        let value = self.editor_content();
        let ticket = self.put_key_task.start();
        ctx.push_request(SlotId::EditorSave, ticket, StoreOp::PutKey(key, value));
        proof {
            assert(final(ctx).requests().drop_last() =~= old(ctx).requests());
        }
    }

    fn prompt_save_confirmation(&mut self, ctx: &mut SharedState)
        ensures
            Self::only_popup_touched(old(self), final(self)),
            SharedState::unchanged(old(ctx), final(ctx)),
            final(self).popup_spec() matches Some(p) && p.visible() && p.result_spec() is None
                && p.description_view() == "Save key?"@,
    {
        let mut popup = ConfirmationPopup::new("Save key?".to_owned());
        popup.show(ctx);
        self.confirmation_popup = Some(popup);
    }

    /// Called by the runtime when a save operation finished.
    pub fn deliver_saved(&mut self, ticket: u64, value: Result<(), StoreError>)
        ensures
            Self::only_save_touched(old(self), final(self)),
            AsyncTask::delivered(
                &old(self).save_task().task_spec(),
                &final(self).save_task().task_spec(),
                ticket,
                value,
            ),
    {
        self.put_key_task.complete(ticket, value);
    }

    /// One key press, dispatched as `handle_key_event` does.
    pub open spec fn key_step(
        pre: &Self,
        post: &Self,
        ctx0: &SharedState,
        ctx1: &SharedState,
        event: Input,
        r: KeyEventState,
    ) -> bool {
        &&& (!pre.visible() ==> r is NotConsumed && *post == *pre
                && SharedState::unchanged(ctx0, ctx1))
        &&& (pre.visible() ==> r is Consumed && post.visible())
        &&& (pre.visible() && pre.save_task().active() ==> {
                &&& Self::only_save_touched(pre, post)
                &&& SharedState::unchanged(ctx0, ctx1)
                &&& (event.key == Key::Esc ==> AsyncTask::aborted(
                    &pre.save_task().task_spec(),
                    &post.save_task().task_spec(),
                    true,
                ))
                &&& (event.key != Key::Esc ==> *post == *pre)
            })
        &&& (pre.visible() && !pre.save_task().active() && pre.popup_spec()
                is Some ==> {
                let p = pre.popup_spec()->0;
                &&& Self::only_popup_touched(pre, post)
                &&& post.popup_spec() matches Some(q)
                &&& q.description_view() == p.description_view()
                &&& q.visible()
                &&& (key_confirmation(event.key) matches Some(res) ==> q.result_spec() == Some(
                    res,
                ) && SharedState::emitted(ctx0, ctx1, Event::Tick))
                &&& (key_confirmation(event.key) is None ==> q.result_spec() == p.result_spec()
                    && SharedState::unchanged(ctx0, ctx1))
            })
        &&& (pre.visible() && !pre.save_task().active() && pre.popup_spec()
                is None && pre.editing() ==> {
                &&& (event.key == Key::Esc ==> Self::only_mode_touched(pre, post)
                    && !post.editing() && SharedState::unchanged(ctx0, ctx1))
                &&& (event.key != Key::Esc ==> Self::only_buffer_touched(pre, post)
                    && post.editing() && SharedState::unchanged(ctx0, ctx1))
            })
        &&& (pre.visible() && !pre.save_task().active() && pre.popup_spec()
                is None && !pre.editing() ==> {
                &&& ((event.key == Key::Enter || event.key == Key::Char('e'))
                    ==> Self::only_mode_touched(pre, post) && post.editing()
                    && SharedState::unchanged(ctx0, ctx1))
                &&& (event.key == Key::Esc && pre.changed_spec() ==> {
                    &&& Self::only_popup_touched(pre, post)
                    &&& SharedState::unchanged(ctx0, ctx1)
                    &&& post.popup_spec() matches Some(p)
                    &&& p.visible()
                    &&& p.result_spec() is None
                    &&& p.description_view() == "Save key?"@
                })
                &&& (event.key == Key::Esc && !pre.changed_spec() ==> *post == *pre && SharedState::emitted(ctx0, ctx1, Event::KeyEditDone))
                &&& (!(event.key == Key::Enter || event.key == Key::Char('e') || event.key
                    == Key::Esc) ==> *post == *pre && SharedState::unchanged(
                    ctx0,
                    ctx1,
                ))
            })
    }

    /// One drain pass, as `update` does it.
    pub open spec fn update_step(
        pre: &Self,
        post: &Self,
        ctx0: &SharedState,
        ctx1: &SharedState,
        r: Result<(), StoreError>,
    ) -> bool {
        &&& (post.visible() == pre.visible())
        &&& (post.editing() == pre.editing())
        &&& (post.buffer() == pre.buffer())
        &&& (post.key_spec() == pre.key_spec())
        &&& (post.original_spec() == pre.original_spec())
        &&& (post.save_task().description_spec() == pre.save_task().description_spec())
        // the result
        &&& (pre.update_polls_save_result() && pre.save_task().task_spec().done_value() is Err
            ==> r == Err::<(), StoreError>(pre.save_task().task_spec().done_value()->Err_0))
        &&& (!(pre.update_polls_save_result() && pre.save_task().task_spec().done_value() is Err) ==> r is Ok)
        // the popup: discarded once resolved
        &&& (pre.update_resolves_popup() ==> post.popup_spec() is None)
        &&& (!pre.update_resolves_popup() ==> post.popup_spec() == pre.popup_spec())
        // the save slot: restarted on `Yes`, else polled once
        &&& (pre.update_wants_save() ==> {
                &&& post.save_task().task_spec().is_running()
                &&& post.save_task().task_spec().ticket() == crate::utils::next_ticket(
                    pre.save_task().task_spec().ticket(),
                )
            })
        &&& (!pre.update_wants_save() ==> {
                &&& (pre.save_task().task_spec().is_done() ==> post.save_task().task_spec().is_idle() && post.save_task().task_spec().ticket()
                    == pre.save_task().task_spec().ticket())
                &&& (!pre.save_task().task_spec().is_done() ==> post.save_task().task_spec()
                    == pre.save_task().task_spec())
            })
        // everything emitted
        &&& (ctx1.events() == ctx0.events() + (if pre.update_discards() {
            seq![Event::KeyEditDone]
        } else {
            Seq::<Event>::empty()
        }) + (if pre.update_polls_save_result() && pre.save_task().task_spec().done_value() is Ok {
            seq![Event::KeyEditDone]
        } else {
            Seq::<Event>::empty()
        }))
        // everything requested
        &&& (!pre.update_wants_save() ==> ctx1.requests() == ctx0.requests())
        &&& (pre.update_wants_save() ==> {
                &&& ctx1.requests().len() == ctx0.requests().len() + 1
                &&& ctx1.requests().drop_last() == ctx0.requests()
                &&& ctx1.requests().last() matches StoreRequest {
                    slot: SlotId::EditorSave,
                    ticket,
                    op: StoreOp::PutKey(k, v),
                } && ticket == post.save_task().task_spec().ticket() && k == pre.key_spec() && v@ == pre.content_view()
            })
    }

    /// The hints the scene shows: an open popup's own, else the bindings of
    /// the current mode.
    pub open spec fn context_help_view(&self) -> Seq<Seq<char>> {
        if !self.visible() {
            Seq::<Seq<char>>::empty()
        } else if self.popup_spec() is Some {
            if self.popup_spec()->0.visible() {
                seq!["(y) yes"@, "(n) no"@, "(Esc) cancel"@]
            } else {
                Seq::<Seq<char>>::empty()
            }
        } else if self.editing() {
            seq!["(Esc) exit editing mode"@]
        } else {
            seq!["(e/Enter) enter editing mode"@, "(Esc) return to key selection"@]
        }
    }

    /// `update` wants a save: the popup was resolved with `Yes`.
    pub open spec fn update_wants_save(&self) -> bool {
        &&& self.popup_spec() is Some
        &&& self.popup_spec()->0.result_spec() == Some(ConfirmationResult::Yes)
    }

    /// `update` discards changes: the popup was resolved with `No`.
    pub open spec fn update_discards(&self) -> bool {
        &&& self.popup_spec() is Some
        &&& self.popup_spec()->0.result_spec() == Some(ConfirmationResult::No)
    }

    /// The popup was resolved one way or another.
    pub open spec fn update_resolves_popup(&self) -> bool {
        &&& self.popup_spec() is Some
        &&& self.popup_spec()->0.result_spec() is Some
    }

    /// The save slot holds a result that `update` will observe: it is done
    /// and no restart (from a `Yes` resolution) discards it.
    pub open spec fn update_polls_save_result(&self) -> bool {
        &&& !self.update_wants_save()
        &&& self.save_task().task_spec().is_done()
    }
}

impl Component for ValueEditor {
    open spec fn inv(&self) -> bool {
        self.wf()
    }

    /// Dispatch order while visible: an active save consumes every key
    /// (Escape cancelling it); an open popup comes next; in editing mode
    /// Escape returns to viewing and every other key goes verbatim to the
    /// buffer; in viewing mode Enter or `e` enters editing mode and Escape
    /// leaves the editor, asking for confirmation first when the value
    /// changed.
    fn handle_key_event(&mut self, event: &Input, ctx: &mut SharedState) -> (r: KeyEventState)
        ensures
            Self::key_step(old(self), final(self), old(ctx), final(ctx), *event, r),
    {
        if !self.is_visible {
            return KeyEventState::NotConsumed;
        }
        match self.put_key_task.handle_key_event(event, ctx) {
            KeyEventState::Consumed => {
                return KeyEventState::Consumed;
            },
            KeyEventState::NotConsumed => {},
        }
        if let Some(popup) = &mut self.confirmation_popup {
            match popup.handle_key_event(event, ctx) {
                KeyEventState::Consumed => {
                    return KeyEventState::Consumed;
                },
                KeyEventState::NotConsumed => {},
            }
        }
        if self.is_in_editing_mode {
            match event.key {
                Key::Esc => {
                    self.is_in_editing_mode = false;
                },
                _ => {
                    self.editor_textarea.input(event);
                },
            }
        } else {
            match event.key {
                Key::Enter => {
                    self.is_in_editing_mode = true;
                },
                Key::Char(c) => {
                    if c == 'e' {
                        self.is_in_editing_mode = true;
                    }
                },
                Key::Esc => {
                    if self.value_has_changed() {
                        self.prompt_save_confirmation(ctx);
                    } else {
                        self.edit_done(ctx);
                    }
                },
                _ => {},
            }
        }
        KeyEventState::Consumed
    }

    /// Drains the popup first: `Yes` starts the save of the buffer, `No`
    /// leaves the editor discarding changes, `Cancel` only closes the
    /// popup. Then drains the save slot: a finished save leaves the editor,
    /// a failed one is returned.
    fn update(&mut self, ctx: &mut SharedState) -> (r: Result<(), StoreError>)
        ensures
            Self::update_step(old(self), final(self), old(ctx), final(ctx), r),
    {
        let resolution: Option<ConfirmationResult> = match &self.confirmation_popup {
            Some(popup) => popup.status(),
            None => None,
        };
        if let Some(result) = resolution {
            match result {
                ConfirmationResult::Yes => {
                    self.put_key(ctx);
                },
                ConfirmationResult::No => {
                    self.edit_done(ctx);
                },
                ConfirmationResult::Cancel => {},
            }
            self.confirmation_popup = None;
        }
        if let Some(result) = self.put_key_task.try_ready() {
            match result {
                Ok(_) => {
                    self.edit_done(ctx);
                },
                Err(e) => {
                    proof {
                        assert(ctx.events() =~= old(ctx).events() + (if old(
                            self,
                        ).update_discards() {
                            seq![Event::KeyEditDone]
                        } else {
                            Seq::<Event>::empty()
                        }) + Seq::<Event>::empty());
                    }
                    return Err(e);
                },
            }
        }
        proof {
            assert(ctx.events() =~= old(ctx).events() + (if old(self).update_discards() {
                seq![Event::KeyEditDone]
            } else {
                Seq::<Event>::empty()
            }) + (if old(self).update_polls_save_result() && old(
                self,
            ).save_task().task_spec().done_value() is Ok {
                seq![Event::KeyEditDone]
            } else {
                Seq::<Event>::empty()
            }));
        }
        Ok(())
    }

    fn set_visibility(&mut self, value: bool)
        ensures
            final(self).visible() == value,
            final(self).editing() == old(self).editing(),
            final(self).buffer() == old(self).buffer(),
            final(self).key_spec() == old(self).key_spec(),
            final(self).original_spec() == old(self).original_spec(),
            final(self).popup_spec() == old(self).popup_spec(),
            final(self).save_task() == old(self).save_task(),
    {
        self.is_visible = value;
    }

    fn is_visible(&self) -> (r: bool)
        ensures
            r == self.visible(),
    {
        self.is_visible
    }

    /// An open popup lends its hints; otherwise the bindings of the current
    /// mode are shown.
    fn context_help(&self) -> (r: Vec<String>)
        ensures
            r.deep_view() == self.context_help_view(),
    {
        if !self.is_visible {
            let r: Vec<String> = Vec::new();
            proof {
                assert(r.deep_view() =~= Seq::<Seq<char>>::empty());
            }
            return r;
        }
        if let Some(popup) = &self.confirmation_popup {
            return popup.context_help();
        }
        if self.is_in_editing_mode {
            let r: Vec<String> = vec!["(Esc) exit editing mode".to_owned()];
            proof {
                assert(r.deep_view() =~= seq!["(Esc) exit editing mode"@]);
            }
            r
        } else {
            let r: Vec<String> = vec![
                "(e/Enter) enter editing mode".to_owned(),
                "(Esc) return to key selection".to_owned(),
            ];
            proof {
                assert(r.deep_view() =~= seq![
                    "(e/Enter) enter editing mode"@,
                    "(Esc) return to key selection"@,
                ]);
            }
            r
        }
    }

    fn show(&mut self, ctx: &mut SharedState)
        ensures
            final(self).visible(),
            final(self).editing() == old(self).editing(),
            final(self).buffer() == old(self).buffer(),
            final(self).key_spec() == old(self).key_spec(),
            final(self).original_spec() == old(self).original_spec(),
            final(self).popup_spec() == old(self).popup_spec(),
            final(self).save_task() == old(self).save_task(),
            SharedState::unchanged(old(ctx), final(ctx)),
    {
        self.is_visible = true;
    }

    fn conceal(&mut self)
        ensures
            !final(self).visible(),
            final(self).editing() == old(self).editing(),
            final(self).buffer() == old(self).buffer(),
            final(self).key_spec() == old(self).key_spec(),
            final(self).original_spec() == old(self).original_spec(),
            final(self).popup_spec() == old(self).popup_spec(),
            final(self).save_task() == old(self).save_task(),
    {
        self.is_visible = false;
    }
}

} // verus!
