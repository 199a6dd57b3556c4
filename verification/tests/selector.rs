use etcd_tui::components::Component;
use etcd_tui::events::{Event, KeyEventState};
use etcd_tui::key_selector::KeySelector;
use etcd_tui::shared_state::{SharedState, SlotId, StoreOp, StoreRequest};
use tui_textarea::{Input, Key};

fn key(k: Key) -> Input {
    Input { key: k, ctrl: false, alt: false, shift: false }
}

fn selector_with_keys(keys: Vec<&str>) -> (KeySelector, SharedState) {
    let mut ctx = SharedState::new();
    let mut s = KeySelector::new();
    s.show(&mut ctx);
    let requests = ctx.take_requests();
    assert_eq!(requests.len(), 1);
    assert!(matches!(requests[0].op, StoreOp::ListKeys));
    let owned: Vec<String> = keys.iter().map(|k| k.to_string()).collect();
    s.deliver_keys(requests[0].ticket, Ok(owned));
    s.update(&mut ctx).unwrap();
    (s, ctx)
}

#[test]
fn selection_moves_down_and_clamps_at_end() {
    let (mut s, mut ctx) = selector_with_keys(vec!["a", "b"]);
    assert_eq!(s.selected_index(), None);
    s.handle_key_event(&key(Key::Down), &mut ctx);
    assert_eq!(s.selected_index(), Some(0));
    s.handle_key_event(&key(Key::Down), &mut ctx);
    assert_eq!(s.selected_index(), Some(1));
    s.handle_key_event(&key(Key::Down), &mut ctx);
    assert_eq!(s.selected_index(), Some(1));
}

#[test]
fn selection_moves_up_and_clamps_at_start() {
    let (mut s, mut ctx) = selector_with_keys(vec!["a", "b"]);
    s.handle_key_event(&key(Key::Down), &mut ctx);
    s.handle_key_event(&key(Key::Down), &mut ctx);
    s.handle_key_event(&key(Key::Up), &mut ctx);
    assert_eq!(s.selected_index(), Some(0));
    s.handle_key_event(&key(Key::Up), &mut ctx);
    assert_eq!(s.selected_index(), Some(0));
}

#[test]
fn selection_is_a_noop_on_empty_list() {
    let (mut s, mut ctx) = selector_with_keys(vec![]);
    s.handle_key_event(&key(Key::Down), &mut ctx);
    assert_eq!(s.selected_index(), None);
    s.handle_key_event(&key(Key::Up), &mut ctx);
    assert_eq!(s.selected_index(), None);
}

#[test]
fn enter_starts_fetch_of_selected_key() {
    let (mut s, mut ctx) = selector_with_keys(vec!["a", "b"]);
    s.handle_key_event(&key(Key::Down), &mut ctx);
    s.handle_key_event(&key(Key::Enter), &mut ctx);
    let requests = ctx.take_requests();
    assert_eq!(requests.len(), 1);
    match &requests[0] {
        StoreRequest { slot: SlotId::SelectorGet, op: StoreOp::GetKey(k), .. } => {
            assert_eq!(k, "a");
        },
        _ => panic!("expected a fetch request"),
    }
}

#[test]
fn enter_without_selection_does_nothing() {
    let (mut s, mut ctx) = selector_with_keys(vec!["a"]);
    s.handle_key_event(&key(Key::Enter), &mut ctx);
    assert!(ctx.take_requests().is_empty());
    assert!(ctx.take_events().is_empty());
}

#[test]
fn escape_in_browse_scene_asks_to_quit() {
    let (mut s, mut ctx) = selector_with_keys(vec!["a"]);
    s.handle_key_event(&key(Key::Esc), &mut ctx);
    let events = ctx.take_events();
    assert_eq!(events.len(), 1);
    assert!(matches!(&events[0], Event::Quit(Ok(()))));
}

#[test]
fn delete_key_opens_popup_titled_with_the_key() {
    let (mut s, mut ctx) = selector_with_keys(vec!["a", "b"]);
    s.handle_key_event(&key(Key::Down), &mut ctx);
    s.handle_key_event(&key(Key::Char('d')), &mut ctx);
    let popup = s.confirmation_popup().as_ref().expect("popup should be open");
    assert_eq!(popup.description().as_str(), "Delete key 'a'?");
    assert!(popup.status().is_none());
}

#[test]
fn confirmed_delete_runs_and_refreshes_the_list() {
    let (mut s, mut ctx) = selector_with_keys(vec!["a"]);
    s.handle_key_event(&key(Key::Down), &mut ctx);
    s.handle_key_event(&key(Key::Delete), &mut ctx);
    s.handle_key_event(&key(Key::Char('y')), &mut ctx);
    s.update(&mut ctx).unwrap();
    assert!(s.confirmation_popup().is_none());
    let requests = ctx.take_requests();
    assert_eq!(requests.len(), 1);
    match &requests[0] {
        StoreRequest { slot: SlotId::SelectorDelete, op: StoreOp::DeleteKey(k), .. } => {
            assert_eq!(k, "a");
        },
        _ => panic!("expected a delete request"),
    }
    s.deliver_deleted(requests[0].ticket, Ok(()));
    s.update(&mut ctx).unwrap();
    let refresh = ctx.take_requests();
    assert_eq!(refresh.len(), 1);
    assert!(matches!(refresh[0].op, StoreOp::ListKeys));
}

#[test]
fn declined_delete_discards_the_popup() {
    let (mut s, mut ctx) = selector_with_keys(vec!["a"]);
    s.handle_key_event(&key(Key::Down), &mut ctx);
    s.handle_key_event(&key(Key::Char('d')), &mut ctx);
    s.handle_key_event(&key(Key::Char('n')), &mut ctx);
    s.update(&mut ctx).unwrap();
    assert!(s.confirmation_popup().is_none());
    assert!(ctx.take_requests().is_empty());
}

#[test]
fn active_task_consumes_every_key_but_escape_aborts() {
    let (mut s, mut ctx) = selector_with_keys(vec!["a", "b"]);
    s.handle_key_event(&key(Key::Down), &mut ctx);
    s.handle_key_event(&key(Key::Enter), &mut ctx);
    ctx.take_requests();
    assert!(s.get_key_task().is_active());
    let before = s.selected_index();
    let r = s.handle_key_event(&key(Key::Down), &mut ctx);
    assert!(matches!(r, KeyEventState::Consumed));
    assert_eq!(s.selected_index(), before);
    let r = s.handle_key_event(&key(Key::Esc), &mut ctx);
    assert!(matches!(r, KeyEventState::Consumed));
    assert!(!s.get_key_task().is_active());
}

#[test]
fn hidden_selector_leaves_keys_untouched() {
    let (mut s, mut ctx) = selector_with_keys(vec!["a"]);
    s.conceal();
    let r = s.handle_key_event(&key(Key::Down), &mut ctx);
    assert!(matches!(r, KeyEventState::NotConsumed));
    assert_eq!(s.selected_index(), None);
}

#[test]
fn list_failure_surfaces_from_update() {
    let mut ctx = SharedState::new();
    let mut s = KeySelector::new();
    s.show(&mut ctx);
    let requests = ctx.take_requests();
    s.deliver_keys(
        requests[0].ticket,
        Err(etcd_tui::shared_state::StoreError::Transport("boom".to_string())),
    );
    let r = s.update(&mut ctx);
    assert!(matches!(r, Err(etcd_tui::shared_state::StoreError::Transport(_))));
}

#[test]
fn fetched_key_is_handed_to_the_shell() {
    let (mut s, mut ctx) = selector_with_keys(vec!["a"]);
    s.handle_key_event(&key(Key::Down), &mut ctx);
    s.handle_key_event(&key(Key::Char('e')), &mut ctx);
    let requests = ctx.take_requests();
    s.deliver_value(requests[0].ticket, Ok(("a".to_string(), "1".to_string())));
    s.update(&mut ctx).unwrap();
    let events = ctx.take_events();
    assert_eq!(events.len(), 1);
    match &events[0] {
        Event::KeyLoaded { key, value } => {
            assert_eq!(key, "a");
            assert_eq!(value, "1");
        },
        _ => panic!("expected the key to be handed over"),
    }
}

#[test]
fn selection_is_clamped_when_the_list_shrinks() {
    let (mut s, mut ctx) = selector_with_keys(vec!["a", "b", "c"]);
    s.handle_key_event(&key(Key::Down), &mut ctx);
    s.handle_key_event(&key(Key::Down), &mut ctx);
    s.handle_key_event(&key(Key::Down), &mut ctx);
    assert_eq!(s.selected_index(), Some(2));
    s.handle_key_event(&key(Key::Char('d')), &mut ctx);
    s.handle_key_event(&key(Key::Char('y')), &mut ctx);
    s.update(&mut ctx).unwrap();
    let requests = ctx.take_requests();
    let delete = requests.iter().find(|r| matches!(r.op, StoreOp::DeleteKey(_))).unwrap();
    s.deliver_deleted(delete.ticket, Ok(()));
    s.update(&mut ctx).unwrap();
    let refresh = ctx.take_requests();
    let list = refresh.iter().find(|r| matches!(r.op, StoreOp::ListKeys)).unwrap();
    s.deliver_keys(list.ticket, Ok(vec!["a".to_string(), "b".to_string()]));
    s.update(&mut ctx).unwrap();
    assert_eq!(s.selected_index(), Some(1));
}

#[test]
fn browse_hints_follow_the_mode() {
    let (mut s, mut ctx) = selector_with_keys(vec!["a"]);
    assert_eq!(
        s.context_help(),
        vec!["(Up/Down) scroll list", "(e/Enter) select key", "(d/Del) delete key", "(Esc) exit"]
    );
    s.handle_key_event(&key(Key::Down), &mut ctx);
    s.handle_key_event(&key(Key::Enter), &mut ctx);
    ctx.take_requests();
    assert_eq!(s.context_help(), vec!["(Esc) cancel"]);
}
