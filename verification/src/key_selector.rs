//! The browse scene: the list of store keys with a clamped selection, the
//! three task slots it drives (load the list, fetch one key, delete one key)
//! and the confirmation popup guarding a delete. Any active task takes full
//! input priority; the popup comes next; only then is a key interpreted.

use vstd::prelude::*;

verus! {

use tui_textarea::{Input, Key};

use crate::components::Component;
use crate::confirmation_popup::{key_confirmation, ConfirmationPopup, ConfirmationResult};
use crate::events::{Event, KeyEventState};
use crate::foreground_task::ForegroundTask;
use crate::shared_state::{SharedState, SlotId, StoreError, StoreOp, StoreRequest};
use crate::utils::AsyncTask;
use vstd::string::StringExecFns;

/// Where the selection lands on a move down: one step towards the end,
/// clamped to the last index; nowhere on an empty list.
pub open spec fn sel_down(sel: Option<usize>, len: nat) -> Option<usize> {
    if len == 0 {
        sel
    } else {
        match sel {
            None => Some(0usize),
            Some(i) => if i + 1 < len {
                Some((i + 1) as usize)
            } else {
                Some((len - 1) as usize)
            },
        }
    }
}

/// Where the selection lands on a move up: one step towards the start,
/// clamped to the first index; nowhere on an empty list.
pub open spec fn sel_up(sel: Option<usize>, len: nat) -> Option<usize> {
    if len == 0 {
        sel
    } else {
        match sel {
            None => Some(0usize),
            Some(i) => if i > 0 {
                Some((i - 1) as usize)
            } else {
                Some(0usize)
            },
        }
    }
}

/// Where the selection lands when the list is replaced by one of the given
/// length: kept if still in range, moved to the last index if beyond it,
/// dropped if the new list is empty.
pub open spec fn clamp_selection(sel: Option<usize>, len: nat) -> Option<usize> {
    match sel {
        None => None,
        Some(i) => if len == 0 {
            None
        } else if i < len {
            Some(i)
        } else {
            Some((len - 1) as usize)
        },
    }
}

/// Law: the selection never wraps around. On a non-empty list, a move down
/// from the last index and a move up from the first leave it unchanged; on
/// an empty list both moves are no-ops.
pub proof fn lemma_selection_clamped(sel: Option<usize>, len: nat)
    requires
        len <= usize::MAX,
    ensures
        len > 0 && sel == Some((len - 1) as usize) ==> sel_down(sel, len) == sel,
        len > 0 && sel == Some(0usize) ==> sel_up(sel, len) == sel,
        len == 0 ==> sel_down(sel, len) == sel && sel_up(sel, len) == sel,
{
}

/// Law: fetching the selected key hands exactly that key and its value to
/// the shell. If the browse scene, idle and unobstructed, takes Enter on a
/// selected key, the store's reply arrives under the ticket of the request
/// it issued, and the next drain pass runs, then that pass succeeds and
/// emits exactly one `KeyLoaded` carrying that key and the replied value.
pub proof fn lemma_fetch_round_trip(
    s0: KeySelector,
    s1: KeySelector,
    s2: KeySelector,
    s3: KeySelector,
    c0: SharedState,
    c1: SharedState,
    c2: SharedState,
    c3: SharedState,
    event: Input,
    key: String,
    value: String,
    r: Result<(), StoreError>,
)
    requires
        s0.visible(),
        !s0.any_task_active(),
        s0.popup_spec() is None,
        s0.selected_key_spec() == Some(key),
        event.key == Key::Enter,
        KeySelector::key_step(&s0, &s1, &c0, &c1, event, KeyEventState::Consumed),
        KeySelector::only_get_touched(&s1, &s2),
        AsyncTask::delivered(
            &s1.get_task().task_spec(),
            &s2.get_task().task_spec(),
            s1.get_task().task_spec().ticket(),
            Ok((key, value)),
        ),
        KeySelector::update_step(&s2, &s3, &c2, &c3, r),
    ensures
        c1.requests() == c0.requests().push(KeySelector::get_request(&s1, key)),
        c3.events() == c2.events().push(Event::KeyLoaded { key, value }),
        r is Ok,
{
}

pub struct KeySelector {
    is_visible: bool,
    keys: Vec<String>,
    selected: Option<usize>,
    get_key_task: ForegroundTask<Result<(String, String), StoreError>>,
    load_key_list_task: ForegroundTask<Result<Vec<String>, StoreError>>,
    delete_key_task: ForegroundTask<Result<(), StoreError>>,
    delete_key_confirmation_popup: Option<ConfirmationPopup>,
}

impl KeySelector {
    pub closed spec fn visible(&self) -> bool {
        self.is_visible
    }

    pub closed spec fn keys_spec(&self) -> Seq<String> {
        self.keys@
    }

    pub closed spec fn selected_spec(&self) -> Option<usize> {
        self.selected
    }

    pub closed spec fn get_task(&self) -> ForegroundTask<Result<(String, String), StoreError>> {
        self.get_key_task
    }

    pub closed spec fn list_task(&self) -> ForegroundTask<Result<Vec<String>, StoreError>> {
        self.load_key_list_task
    }

    pub closed spec fn del_task(&self) -> ForegroundTask<Result<(), StoreError>> {
        self.delete_key_task
    }

    pub closed spec fn popup_spec(&self) -> Option<ConfirmationPopup> {
        self.delete_key_confirmation_popup
    }

    /// The key the selection rests on, if any.
    pub open spec fn selected_key_spec(&self) -> Option<String> {
        match self.selected_spec() {
            None => None,
            Some(i) => if i < self.keys_spec().len() {
                Some(self.keys_spec()[i as int])
            } else {
                None
            },
        }
    }

    /// The selection is in range and an owned popup is always visible.
    pub open spec fn wf(&self) -> bool {
        &&& (self.selected_spec() matches Some(i) ==> i < self.keys_spec().len())
        &&& (self.popup_spec() matches Some(p) ==> p.visible())
    }

    pub open spec fn any_task_active(&self) -> bool {
        self.get_task().active() || self.list_task().active() || self.del_task().active()
    }

    /// The list slot holds a failed result, which `update` returns first.
    pub open spec fn list_err(&self) -> bool {
        &&& self.list_task().task_spec().is_done()
        &&& self.list_task().task_spec().done_value() is Err
    }

    /// The fetch slot holds a failed result.
    pub open spec fn get_err(&self) -> bool {
        &&& self.get_task().task_spec().is_done()
        &&& self.get_task().task_spec().done_value() is Err
    }

    /// The delete slot holds a failed result.
    pub open spec fn del_err(&self) -> bool {
        &&& self.del_task().task_spec().is_done()
        &&& self.del_task().task_spec().done_value() is Err
    }

    /// `update` reaches the fetch slot only when the list slot did not fail,
    /// the delete slot only when the fetch slot did not fail either, and the
    /// popup only when no slot failed.
    pub open spec fn update_reaches_get(&self) -> bool {
        !self.list_err()
    }

    pub open spec fn update_reaches_del(&self) -> bool {
        !self.list_err() && !self.get_err()
    }

    pub open spec fn update_reaches_popup(&self) -> bool {
        !self.list_err() && !self.get_err() && !self.del_err()
    }

    /// A finished delete makes `update` refresh the key list.
    pub open spec fn update_reloads(&self) -> bool {
        &&& self.update_reaches_del()
        &&& self.del_task().task_spec().is_done()
        &&& self.del_task().task_spec().done_value() is Ok
    }

    /// A fetched key is handed to the shell.
    pub open spec fn update_loads_key(&self) -> bool {
        &&& self.update_reaches_get()
        &&& self.get_task().task_spec().is_done()
        &&& self.get_task().task_spec().done_value() is Ok
    }

    /// A resolved popup is discarded by `update`.
    pub open spec fn update_resolves_popup(&self) -> bool {
        &&& self.update_reaches_popup()
        &&& self.popup_spec() is Some
        &&& self.popup_spec()->0.result_spec() is Some
    }

    /// A popup resolved with `Yes` asks for the delete of the selected key.
    pub open spec fn update_wants_delete(&self) -> bool {
        &&& self.update_resolves_popup()
        &&& self.popup_spec()->0.result_spec() == Some(ConfirmationResult::Yes)
    }

    /// Everything equal but the fetch task's slot.
    pub open spec fn only_get_touched(pre: &Self, post: &Self) -> bool {
        &&& post.visible() == pre.visible()
        &&& post.keys_spec() == pre.keys_spec()
        &&& post.selected_spec() == pre.selected_spec()
        &&& post.list_task() == pre.list_task()
        &&& post.del_task() == pre.del_task()
        &&& post.popup_spec() == pre.popup_spec()
        &&& post.get_task().description_spec() == pre.get_task().description_spec()
    }

    /// Everything equal but the list task's slot.
    pub open spec fn only_list_touched(pre: &Self, post: &Self) -> bool {
        &&& post.visible() == pre.visible()
        &&& post.keys_spec() == pre.keys_spec()
        &&& post.selected_spec() == pre.selected_spec()
        &&& post.get_task() == pre.get_task()
        &&& post.del_task() == pre.del_task()
        &&& post.popup_spec() == pre.popup_spec()
        &&& post.list_task().description_spec() == pre.list_task().description_spec()
    }

    /// Everything equal but the delete task's slot.
    pub open spec fn only_del_touched(pre: &Self, post: &Self) -> bool {
        &&& post.visible() == pre.visible()
        &&& post.keys_spec() == pre.keys_spec()
        &&& post.selected_spec() == pre.selected_spec()
        &&& post.get_task() == pre.get_task()
        &&& post.list_task() == pre.list_task()
        &&& post.popup_spec() == pre.popup_spec()
        &&& post.del_task().description_spec() == pre.del_task().description_spec()
    }

    /// Everything equal but the popup.
    pub open spec fn only_popup_touched(pre: &Self, post: &Self) -> bool {
        &&& post.visible() == pre.visible()
        &&& post.keys_spec() == pre.keys_spec()
        &&& post.selected_spec() == pre.selected_spec()
        &&& post.get_task() == pre.get_task()
        &&& post.list_task() == pre.list_task()
        &&& post.del_task() == pre.del_task()
    }

    /// Everything equal but the selection.
    pub open spec fn only_selection_touched(pre: &Self, post: &Self) -> bool {
        &&& post.visible() == pre.visible()
        &&& post.keys_spec() == pre.keys_spec()
        &&& post.get_task() == pre.get_task()
        &&& post.list_task() == pre.list_task()
        &&& post.del_task() == pre.del_task()
        &&& post.popup_spec() == pre.popup_spec()
    }

    /// The hints the scene shows: an active task's or the popup's own, else
    /// the scene's four bindings.
    pub open spec fn context_help_view(&self) -> Seq<Seq<char>> {
        if !self.visible() {
            Seq::<Seq<char>>::empty()
        } else if self.any_task_active() {
            seq!["(Esc) cancel"@]
        } else if self.popup_spec() is Some {
            if self.popup_spec()->0.visible() {
                seq!["(y) yes"@, "(n) no"@, "(Esc) cancel"@]
            } else {
                Seq::<Seq<char>>::empty()
            }
        } else {
            seq![
                "(Up/Down) scroll list"@,
                "(e/Enter) select key"@,
                "(d/Del) delete key"@,
                "(Esc) exit"@,
            ]
        }
    }

    /// The fetch request issued for one key.
    pub open spec fn get_request(post: &Self, key: String) -> StoreRequest {
        StoreRequest {
            slot: SlotId::SelectorGet,
            ticket: post.get_task().task_spec().ticket(),
            op: StoreOp::GetKey(key),
        }
    }

    /// What one key does when no task and no popup intercepts it.
    pub open spec fn raw_key_step(
        pre: &Self,
        post: &Self,
        ctx0: &SharedState,
        ctx1: &SharedState,
        event: Input,
    ) -> bool {
        &&& (event.key == Key::Down ==> Self::only_selection_touched(pre, post)
            && post.selected_spec() == sel_down(pre.selected_spec(), pre.keys_spec().len())
            && SharedState::unchanged(ctx0, ctx1))
        &&& (event.key == Key::Up ==> Self::only_selection_touched(pre, post)
            && post.selected_spec() == sel_up(pre.selected_spec(), pre.keys_spec().len())
            && SharedState::unchanged(ctx0, ctx1))
        &&& ((event.key == Key::Enter || event.key == Key::Char('e')) ==> {
            &&& Self::only_get_touched(pre, post)
            &&& (pre.selected_key_spec() matches Some(key) ==> AsyncTask::started(
                &pre.get_task().task_spec(),
                &post.get_task().task_spec(),
            ) && SharedState::requested(ctx0, ctx1, Self::get_request(post, key)))
            &&& (pre.selected_key_spec() is None ==> *post == *pre
                && SharedState::unchanged(ctx0, ctx1))
        })
        &&& ((event.key == Key::Delete || event.key == Key::Char('d')) ==> {
            &&& Self::only_popup_touched(pre, post)
            &&& SharedState::unchanged(ctx0, ctx1)
            &&& (pre.selected_key_spec() matches Some(key) ==> {
                &&& post.popup_spec() matches Some(p)
                &&& p.visible()
                &&& p.result_spec() is None
                &&& p.description_view() == "Delete key '"@ + key@ + "'?"@
            })
            &&& (pre.selected_key_spec() is None ==> *post == *pre)
        })
        &&& (event.key == Key::Esc ==> *post == *pre && SharedState::emitted(
            ctx0,
            ctx1,
            Event::Quit(Ok(())),
        ))
        &&& (!(event.key == Key::Down || event.key == Key::Up || event.key == Key::Enter
            || event.key == Key::Char('e') || event.key == Key::Delete || event.key
            == Key::Char('d') || event.key == Key::Esc) ==> *post == *pre
            && SharedState::unchanged(ctx0, ctx1))
    }

    /// One key press, dispatched as `handle_key_event` does.
    pub open spec fn key_step(
        pre: &Self,
        post: &Self,
        ctx0: &SharedState,
        ctx1: &SharedState,
        event: Input,
        r: KeyEventState,
    ) -> bool {
        &&& (!pre.visible() ==> r is NotConsumed && *post == *pre
                && SharedState::unchanged(ctx0, ctx1))
        &&& (pre.visible() ==> r is Consumed && post.visible())
        &&& (pre.visible() && pre.get_task().active() ==> {
                &&& Self::only_get_touched(pre, post)
                &&& SharedState::unchanged(ctx0, ctx1)
                &&& (event.key == Key::Esc ==> AsyncTask::aborted(
                    &pre.get_task().task_spec(),
                    &post.get_task().task_spec(),
                    true,
                ))
                &&& (event.key != Key::Esc ==> *post == *pre)
            })
        &&& (pre.visible() && !pre.get_task().active() && pre.list_task().active() ==> {
                &&& Self::only_list_touched(pre, post)
                &&& SharedState::unchanged(ctx0, ctx1)
                &&& (event.key == Key::Esc ==> AsyncTask::aborted(
                    &pre.list_task().task_spec(),
                    &post.list_task().task_spec(),
                    true,
                ))
                &&& (event.key != Key::Esc ==> *post == *pre)
            })
        &&& (pre.visible() && !pre.get_task().active() && !pre.list_task().active() && pre.del_task().active() ==> {
                &&& Self::only_del_touched(pre, post)
                &&& SharedState::unchanged(ctx0, ctx1)
                &&& (event.key == Key::Esc ==> AsyncTask::aborted(
                    &pre.del_task().task_spec(),
                    &post.del_task().task_spec(),
                    true,
                ))
                &&& (event.key != Key::Esc ==> *post == *pre)
            })
        &&& (pre.visible() && !pre.any_task_active() && pre.popup_spec() is Some
                ==> {
                let p = pre.popup_spec()->0;
                &&& Self::only_popup_touched(pre, post)
                &&& post.popup_spec() matches Some(q)
                &&& q.description_view() == p.description_view()
                &&& q.visible()
                &&& (key_confirmation(event.key) matches Some(res) ==> q.result_spec() == Some(
                    res,
                ) && SharedState::emitted(ctx0, ctx1, Event::Tick))
                &&& (key_confirmation(event.key) is None ==> q.result_spec() == p.result_spec()
                    && SharedState::unchanged(ctx0, ctx1))
            })
        &&& (pre.visible() && !pre.any_task_active() && pre.popup_spec() is None
            ==> Self::raw_key_step(pre, post, ctx0, ctx1, event))
    }

    /// One drain pass, as `update` does it.
    pub open spec fn update_step(
        pre: &Self,
        post: &Self,
        ctx0: &SharedState,
        ctx1: &SharedState,
        r: Result<(), StoreError>,
    ) -> bool {
        &&& (post.visible() == pre.visible())
        &&& (post.get_task().description_spec() == pre.get_task().description_spec())
        &&& (post.list_task().description_spec() == pre.list_task().description_spec())
        &&& (post.del_task().description_spec() == pre.del_task().description_spec())
        // which failed result, if any, ends the drain
        &&& (pre.list_err() ==> r == Err::<(), StoreError>(
            pre.list_task().task_spec().done_value()->Err_0,
        ))
        &&& (pre.update_reaches_get() && pre.get_err() ==> r == Err::<(), StoreError>(
            pre.get_task().task_spec().done_value()->Err_0,
        ))
        &&& (pre.update_reaches_del() && pre.del_err() ==> r == Err::<(), StoreError>(
            pre.del_task().task_spec().done_value()->Err_0,
        ))
        &&& (pre.update_reaches_popup() ==> r is Ok)
        // the key list and the selection
        &&& (pre.list_task().task_spec().is_done() && pre.list_task().task_spec().done_value() is Ok ==> {
                let ks = pre.list_task().task_spec().done_value()->Ok_0;
                &&& post.keys_spec() == ks@
                &&& post.selected_spec() == clamp_selection(
                    pre.selected_spec(),
                    ks@.len(),
                )
            })
        &&& (!(pre.list_task().task_spec().is_done() && pre.list_task().task_spec().done_value() is Ok) ==> {
                &&& post.keys_spec() == pre.keys_spec()
                &&& post.selected_spec() == pre.selected_spec()
            })
        // the fetch slot: polled once when reached
        &&& (!pre.update_reaches_get() ==> post.get_task() == pre.get_task())
        &&& (pre.update_reaches_get() ==> AsyncTask::polled(
                &pre.get_task().task_spec(),
                &post.get_task().task_spec(),
                if pre.get_task().task_spec().is_done() {
                    Some(pre.get_task().task_spec().done_value())
                } else {
                    None
                },
            ))
        // the delete slot: polled once when reached, restarted on `Yes`
        &&& (!pre.update_reaches_del() ==> post.del_task() == pre.del_task())
        &&& (pre.update_reaches_del() && !(pre.update_wants_delete() && post.selected_key_spec() is Some) ==> {
                &&& (pre.del_task().task_spec().is_done() ==> post.del_task().task_spec().is_idle() && post.del_task().task_spec().ticket()
                    == pre.del_task().task_spec().ticket())
                &&& (!pre.del_task().task_spec().is_done() ==> post.del_task().task_spec() == pre.del_task().task_spec())
            })
        &&& (pre.update_wants_delete() && post.selected_key_spec() is Some ==> {
                &&& post.del_task().task_spec().is_running()
                &&& post.del_task().task_spec().ticket() == crate::utils::next_ticket(
                    pre.del_task().task_spec().ticket(),
                )
            })
        // the list slot: polled once, restarted by a finished delete
        &&& (!pre.update_reloads() ==> {
                &&& (pre.list_task().task_spec().is_done() ==> post.list_task().task_spec().is_idle() && post.list_task().task_spec().ticket()
                    == pre.list_task().task_spec().ticket())
                &&& (!pre.list_task().task_spec().is_done() ==> post.list_task().task_spec() == pre.list_task().task_spec())
            })
        &&& (pre.update_reloads() ==> {
                &&& post.list_task().task_spec().is_running()
                &&& post.list_task().task_spec().ticket() == crate::utils::next_ticket(
                    pre.list_task().task_spec().ticket(),
                )
            })
        // the popup: discarded once resolved
        &&& (pre.update_resolves_popup() ==> post.popup_spec() is None)
        &&& (!pre.update_resolves_popup() && pre.update_reaches_popup() ==> post.popup_spec() == pre.popup_spec())
        &&& (!pre.update_reaches_popup() ==> post.popup_spec() == pre.popup_spec())
        // everything emitted and requested
        &&& (pre.update_loads_key() ==> ctx1.events() == ctx0.events().push(
                Event::KeyLoaded {
                    key: pre.get_task().task_spec().done_value()->Ok_0.0,
                    value: pre.get_task().task_spec().done_value()->Ok_0.1,
                },
            ))
        &&& (!pre.update_loads_key() ==> ctx1.events() == ctx0.events())
        &&& (ctx1.requests() == ctx0.requests() + (if pre.update_reloads() {
            seq![
                StoreRequest {
                    slot: SlotId::SelectorList,
                    ticket: post.list_task().task_spec().ticket(),
                    op: StoreOp::ListKeys,
                },
            ]
        } else {
            Seq::<StoreRequest>::empty()
        }) + (if pre.update_wants_delete() && post.selected_key_spec() is Some {
            seq![
                StoreRequest {
                    slot: SlotId::SelectorDelete,
                    ticket: post.del_task().task_spec().ticket(),
                    op: StoreOp::DeleteKey(post.selected_key_spec()->0),
                },
            ]
        } else {
            Seq::<StoreRequest>::empty()
        }))
    }

    pub fn new() -> (r: KeySelector)
        ensures
            r.wf(),
            !r.visible(),
            r.keys_spec() == Seq::<String>::empty(),
            r.selected_spec() is None,
            r.get_task().task_spec().is_idle(),
            !r.get_task().active(),
            r.list_task().task_spec().is_idle(),
            !r.list_task().active(),
            r.del_task().task_spec().is_idle(),
            !r.del_task().active(),
            r.popup_spec() is None,
            r.get_task().description_view() == "Loading key"@,
            r.list_task().description_view() == "Loading key list"@,
            r.del_task().description_view() == "Deleting key"@,
    {
        KeySelector {
            is_visible: false,
            keys: Vec::new(),
            selected: None,
            get_key_task: ForegroundTask::new("Loading key".to_owned()),
            load_key_list_task: ForegroundTask::new("Loading key list".to_owned()),
            delete_key_task: ForegroundTask::new("Deleting key".to_owned()),
            delete_key_confirmation_popup: None,
        }
    }

    /// The listed keys, for the renderer.
    pub fn keys(&self) -> (r: &Vec<String>)
        ensures
            r@ == self.keys_spec(),
    {
        &self.keys
    }

    /// The selection, for the renderer.
    pub fn selected_index(&self) -> (r: Option<usize>)
        ensures
            r == self.selected_spec(),
    {
        self.selected
    }

    /// The fetch slot, for the renderer.
    pub fn get_key_task(&self) -> (r: &ForegroundTask<Result<(String, String), StoreError>>)
        ensures
            *r == self.get_task(),
    {
        &self.get_key_task
    }

    /// The list slot, for the renderer.
    pub fn load_key_list_task(&self) -> (r: &ForegroundTask<Result<Vec<String>, StoreError>>)
        ensures
            *r == self.list_task(),
    {
        &self.load_key_list_task
    }

    /// The delete slot, for the renderer.
    pub fn delete_key_task(&self) -> (r: &ForegroundTask<Result<(), StoreError>>)
        ensures
            *r == self.del_task(),
    {
        &self.delete_key_task
    }

    /// The delete confirmation, for the renderer.
    pub fn confirmation_popup(&self) -> (r: &Option<ConfirmationPopup>)
        ensures
            *r == self.popup_spec(),
    {
        &self.delete_key_confirmation_popup
    }

    fn selected_list_item(&self) -> (r: Option<String>)
        ensures
            r == self.selected_key_spec(),
    {
        match self.selected {
            None => None,
            Some(i) => {
                if i < self.keys.len() {
                    Some(self.keys[i].clone())
                } else {
                    None
                }
            },
        }
    }

    fn get_selected_key(&mut self, ctx: &mut SharedState)
        ensures
            Self::only_get_touched(old(self), final(self)),
            old(self).selected_key_spec() matches Some(key) ==> {
                &&& AsyncTask::started(
                    &old(self).get_task().task_spec(),
                    &final(self).get_task().task_spec(),
                )
                &&& SharedState::requested(
                    old(ctx),
                    final(ctx),
                    (StoreRequest {
                        slot: SlotId::SelectorGet,
                        ticket: final(self).get_task().task_spec().ticket(),
                        op: StoreOp::GetKey(key),
                    }),
                )
            },
            old(self).selected_key_spec() is None ==> *final(self) == *old(self)
                && SharedState::unchanged(old(ctx), final(ctx)),
    {
        if let Some(key) = self.selected_list_item() {
            let ticket = self.get_key_task.start();
            ctx.push_request(SlotId::SelectorGet, ticket, StoreOp::GetKey(key));
        }
    }

    fn reload_keys(&mut self, ctx: &mut SharedState)
        ensures
            Self::only_list_touched(old(self), final(self)),
            AsyncTask::started(
                &old(self).list_task().task_spec(),
                &final(self).list_task().task_spec(),
            ),
            SharedState::requested(
                old(ctx),
                final(ctx),
                (StoreRequest {
                    slot: SlotId::SelectorList,
                    ticket: final(self).list_task().task_spec().ticket(),
                    op: StoreOp::ListKeys,
                }),
            ),
    {
        let ticket = self.load_key_list_task.start();
        ctx.push_request(SlotId::SelectorList, ticket, StoreOp::ListKeys);
    }

    fn delete_key(&mut self, ctx: &mut SharedState)
        ensures
            Self::only_del_touched(old(self), final(self)),
            old(self).selected_key_spec() matches Some(key) ==> {
                &&& AsyncTask::started(
                    &old(self).del_task().task_spec(),
                    &final(self).del_task().task_spec(),
                )
                &&& SharedState::requested(
                    old(ctx),
                    final(ctx),
                    (StoreRequest {
                        slot: SlotId::SelectorDelete,
                        ticket: final(self).del_task().task_spec().ticket(),
                        op: StoreOp::DeleteKey(key),
                    }),
                )
            },
            old(self).selected_key_spec() is None ==> *final(self) == *old(self)
                && SharedState::unchanged(old(ctx), final(ctx)),
    {
        if let Some(key) = self.selected_list_item() {
            let ticket = self.delete_key_task.start();
            ctx.push_request(SlotId::SelectorDelete, ticket, StoreOp::DeleteKey(key));
        }
    }

    /// Called by the runtime when a list operation finished.
    pub fn deliver_keys(&mut self, ticket: u64, value: Result<Vec<String>, StoreError>)
        ensures
            Self::only_list_touched(old(self), final(self)),
            AsyncTask::delivered(
                &old(self).list_task().task_spec(),
                &final(self).list_task().task_spec(),
                ticket,
                value,
            ),
    {
        self.load_key_list_task.complete(ticket, value);
    }

    /// Called by the runtime when a fetch operation finished.
    pub fn deliver_value(&mut self, ticket: u64, value: Result<(String, String), StoreError>)
        ensures
            Self::only_get_touched(old(self), final(self)),
            AsyncTask::delivered(
                &old(self).get_task().task_spec(),
                &final(self).get_task().task_spec(),
                ticket,
                value,
            ),
    {
        self.get_key_task.complete(ticket, value);
    }

    /// Called by the runtime when a delete operation finished.
    pub fn deliver_deleted(&mut self, ticket: u64, value: Result<(), StoreError>)
        ensures
            Self::only_del_touched(old(self), final(self)),
            AsyncTask::delivered(
                &old(self).del_task().task_spec(),
                &final(self).del_task().task_spec(),
                ticket,
                value,
            ),
    {
        self.delete_key_task.complete(ticket, value);
    }

    fn prompt_key_delete(&mut self, ctx: &mut SharedState)
        ensures
            SharedState::unchanged(old(ctx), final(ctx)),
            Self::only_popup_touched(old(self), final(self)),
            old(self).selected_key_spec() matches Some(key) ==> {
                &&& final(self).popup_spec() matches Some(p)
                &&& p.visible()
                &&& p.result_spec() is None
                &&& p.description_view() == "Delete key '"@ + key@ + "'?"@
            },
            old(self).selected_key_spec() is None ==> *final(self) == *old(self),
    {
        if let Some(key) = self.selected_list_item() {
            let mut description = "Delete key '".to_owned();
            description.append(key.as_str());
            description.append("'?");
            let mut popup = ConfirmationPopup::new(description);
            popup.show(ctx);
            self.delete_key_confirmation_popup = Some(popup);
        }
    }
}

impl Component for KeySelector {
    open spec fn inv(&self) -> bool {
        self.wf()
    }

    /// Dispatch order while visible: an active fetch, list or delete task
    /// (in that order) consumes every key, Escape additionally cancelling
    /// it; an open confirmation popup comes next; only then is the key
    /// interpreted: Up and Down move the selection without wrapping, Enter
    /// or `e` fetches the selected key, Delete or `d` asks for confirmation
    /// before deleting it, and Escape asks the loop to quit.
    fn handle_key_event(&mut self, event: &Input, ctx: &mut SharedState) -> (r: KeyEventState)
        ensures
            Self::key_step(old(self), final(self), old(ctx), final(ctx), *event, r),
    {
        if !self.is_visible {
            return KeyEventState::NotConsumed;
        }
        match self.get_key_task.handle_key_event(event, ctx) {
            KeyEventState::Consumed => {
                return KeyEventState::Consumed;
            },
            KeyEventState::NotConsumed => {},
        }
        match self.load_key_list_task.handle_key_event(event, ctx) {
            KeyEventState::Consumed => {
                return KeyEventState::Consumed;
            },
            KeyEventState::NotConsumed => {},
        }
        match self.delete_key_task.handle_key_event(event, ctx) {
            KeyEventState::Consumed => {
                return KeyEventState::Consumed;
            },
            KeyEventState::NotConsumed => {},
        }
        if let Some(popup) = &mut self.delete_key_confirmation_popup {
            match popup.handle_key_event(event, ctx) {
                KeyEventState::Consumed => {
                    return KeyEventState::Consumed;
                },
                KeyEventState::NotConsumed => {},
            }
        }
        match event.key {
            Key::Down => {
                if self.keys.len() > 0 {
                    let next: usize = match self.selected {
                        None => 0,
                        Some(i) => {
                            if i + 1 < self.keys.len() {
                                i + 1
                            } else {
                                self.keys.len() - 1
                            }
                        },
                    };
                    self.selected = Some(next);
                }
            },
            Key::Up => {
                if self.keys.len() > 0 {
                    let next: usize = match self.selected {
                        None => 0,
                        Some(i) => {
                            if i > 0 {
                                i - 1
                            } else {
                                0
                            }
                        },
                    };
                    self.selected = Some(next);
                }
            },
            Key::Enter => {
                self.get_selected_key(ctx);
            },
            Key::Char(c) => {
                if c == 'e' {
                    self.get_selected_key(ctx);
                } else if c == 'd' {
                    self.prompt_key_delete(ctx);
                }
            },
            Key::Delete => {
                self.prompt_key_delete(ctx);
            },
            Key::Esc => {
                ctx.send_event(Event::Quit(Ok(())));
            },
            _ => {},
        }
        KeyEventState::Consumed
    }

    /// Drains each slot once: a fresh key list replaces the shown one (the
    /// selection clamped to it), a fetched key is handed to the shell as
    /// `KeyLoaded`, a finished delete refreshes the list, and a resolved
    /// confirmation is discarded after starting the delete on `Yes`. The
    /// first failed result is returned and ends the drain.
    fn update(&mut self, ctx: &mut SharedState) -> (r: Result<(), StoreError>)
        ensures
            Self::update_step(old(self), final(self), old(ctx), final(ctx), r),
    {
        if let Some(result) = self.load_key_list_task.try_ready() {
            match result {
                Ok(keys) => {
                    self.keys = keys;
                    match self.selected {
                        None => {},
                        Some(i) => {
                            if self.keys.len() == 0 {
                                self.selected = None;
                            } else if i >= self.keys.len() {
                                self.selected = Some(self.keys.len() - 1);
                            }
                        },
                    }
                },
                Err(e) => {
                    proof {
                        assert(ctx.requests() =~= old(ctx).requests() + (
                        if old(self).update_reloads() {
                            seq![
                                StoreRequest {
                                    slot: SlotId::SelectorList,
                                    ticket: self.list_task().task_spec().ticket(),
                                    op: StoreOp::ListKeys,
                                },
                            ]
                        } else {
                            Seq::<StoreRequest>::empty()
                        }) + (
                        if old(self).update_wants_delete() && self.selected_key_spec() is Some {
                            seq![
                                StoreRequest {
                                    slot: SlotId::SelectorDelete,
                                    ticket: self.del_task().task_spec().ticket(),
                                    op: StoreOp::DeleteKey(self.selected_key_spec()->0),
                                },
                            ]
                        } else {
                            Seq::<StoreRequest>::empty()
                        }));
                    }
                    return Err(e);
                },
            }
        }
        if let Some(result) = self.get_key_task.try_ready() {
            match result {
                Ok(kv) => {
                    ctx.send_event(Event::KeyLoaded { key: kv.0, value: kv.1 });
                },
                Err(e) => {
                    proof {
                        assert(ctx.requests() =~= old(ctx).requests() + (
                        if old(self).update_reloads() {
                            seq![
                                StoreRequest {
                                    slot: SlotId::SelectorList,
                                    ticket: self.list_task().task_spec().ticket(),
                                    op: StoreOp::ListKeys,
                                },
                            ]
                        } else {
                            Seq::<StoreRequest>::empty()
                        }) + (
                        if old(self).update_wants_delete() && self.selected_key_spec() is Some {
                            seq![
                                StoreRequest {
                                    slot: SlotId::SelectorDelete,
                                    ticket: self.del_task().task_spec().ticket(),
                                    op: StoreOp::DeleteKey(self.selected_key_spec()->0),
                                },
                            ]
                        } else {
                            Seq::<StoreRequest>::empty()
                        }));
                    }
                    return Err(e);
                },
            }
        }
        if let Some(result) = self.delete_key_task.try_ready() {
            match result {
                Ok(_) => {
                    self.reload_keys(ctx);
                },
                Err(e) => {
                    proof {
                        assert(ctx.requests() =~= old(ctx).requests() + (
                        if old(self).update_reloads() {
                            seq![
                                StoreRequest {
                                    slot: SlotId::SelectorList,
                                    ticket: self.list_task().task_spec().ticket(),
                                    op: StoreOp::ListKeys,
                                },
                            ]
                        } else {
                            Seq::<StoreRequest>::empty()
                        }) + (
                        if old(self).update_wants_delete() && self.selected_key_spec() is Some {
                            seq![
                                StoreRequest {
                                    slot: SlotId::SelectorDelete,
                                    ticket: self.del_task().task_spec().ticket(),
                                    op: StoreOp::DeleteKey(self.selected_key_spec()->0),
                                },
                            ]
                        } else {
                            Seq::<StoreRequest>::empty()
                        }));
                    }
                    return Err(e);
                },
            }
        }
        let resolution: Option<ConfirmationResult> = match &self.delete_key_confirmation_popup {
            Some(popup) => popup.status(),
            None => None,
        };
        if let Some(result) = resolution {
            match result {
                ConfirmationResult::Yes => {
                    self.delete_key(ctx);
                },
                _ => {},
            }
            self.delete_key_confirmation_popup = None;
        }
        proof {
            assert(ctx.requests() =~= old(ctx).requests() + (if old(self).update_reloads() {
                seq![
                    StoreRequest {
                        slot: SlotId::SelectorList,
                        ticket: self.list_task().task_spec().ticket(),
                        op: StoreOp::ListKeys,
                    },
                ]
            } else {
                Seq::<StoreRequest>::empty()
            }) + (if old(self).update_wants_delete() && self.selected_key_spec() is Some {
                seq![
                    StoreRequest {
                        slot: SlotId::SelectorDelete,
                        ticket: self.del_task().task_spec().ticket(),
                        op: StoreOp::DeleteKey(self.selected_key_spec()->0),
                    },
                ]
            } else {
                Seq::<StoreRequest>::empty()
            }));
        }
        Ok(())
    }

    fn set_visibility(&mut self, value: bool)
        ensures
            final(self).visible() == value,
            final(self).keys_spec() == old(self).keys_spec(),
            final(self).selected_spec() == old(self).selected_spec(),
            final(self).get_task() == old(self).get_task(),
            final(self).list_task() == old(self).list_task(),
            final(self).del_task() == old(self).del_task(),
            final(self).popup_spec() == old(self).popup_spec(),
    {
        self.is_visible = value;
    }

    fn is_visible(&self) -> (r: bool)
        ensures
            r == self.visible(),
    {
        self.is_visible
    }

    /// An active task or an open popup lends its own hints; otherwise the
    /// scene's four bindings are shown.
    fn context_help(&self) -> (r: Vec<String>)
        ensures
            r.deep_view() == self.context_help_view(),
    {
        if !self.is_visible {
            let r: Vec<String> = Vec::new();
            proof {
                assert(r.deep_view() =~= Seq::<Seq<char>>::empty());
            }
            return r;
        }
        if self.get_key_task.is_active() {
            return self.get_key_task.context_help();
        }
        if self.load_key_list_task.is_active() {
            return self.load_key_list_task.context_help();
        }
        if self.delete_key_task.is_active() {
            return self.delete_key_task.context_help();
        }
        if let Some(popup) = &self.delete_key_confirmation_popup {
            return popup.context_help();
        }
        let r: Vec<String> = vec![
            "(Up/Down) scroll list".to_owned(),
            "(e/Enter) select key".to_owned(),
            "(d/Del) delete key".to_owned(),
            "(Esc) exit".to_owned(),
        ];
        proof {
            assert(r.deep_view() =~= seq![
                "(Up/Down) scroll list"@,
                "(e/Enter) select key"@,
                "(d/Del) delete key"@,
                "(Esc) exit"@,
            ]);
        }
        r
    }

    /// Entering the scene also refreshes the key list, unless a refresh is
    /// already under way.
    fn show(&mut self, ctx: &mut SharedState)
        ensures
            final(self).visible(),
            final(self).keys_spec() == old(self).keys_spec(),
            final(self).selected_spec() == old(self).selected_spec(),
            final(self).get_task() == old(self).get_task(),
            final(self).del_task() == old(self).del_task(),
            final(self).popup_spec() == old(self).popup_spec(),
            old(self).list_task().active() ==> final(self).list_task() == old(self).list_task()
                && SharedState::unchanged(old(ctx), final(ctx)),
            !old(self).list_task().active() ==> AsyncTask::started(
                &old(self).list_task().task_spec(),
                &final(self).list_task().task_spec(),
            ) && SharedState::requested(
                old(ctx),
                final(ctx),
                (StoreRequest {
                    slot: SlotId::SelectorList,
                    ticket: final(self).list_task().task_spec().ticket(),
                    op: StoreOp::ListKeys,
                }),
            ),
    {
        self.is_visible = true;
        if !self.load_key_list_task.is_active() {
            self.reload_keys(ctx);
        }
    }

    fn conceal(&mut self)
        ensures
            !final(self).visible(),
            final(self).keys_spec() == old(self).keys_spec(),
            final(self).selected_spec() == old(self).selected_spec(),
            final(self).get_task() == old(self).get_task(),
            final(self).list_task() == old(self).list_task(),
            final(self).del_task() == old(self).del_task(),
            final(self).popup_spec() == old(self).popup_spec(),
    {
        self.is_visible = false;
    }
}

} // verus!
