use etcd_tui::components::Component;
use etcd_tui::events::Event;
use etcd_tui::shared_state::{SharedState, SlotId, StoreError, StoreOp, StoreRequest};
use etcd_tui::value_editor::ValueEditor;
use tui_textarea::{Input, Key};

fn key(k: Key) -> Input {
    Input { key: k, ctrl: false, alt: false, shift: false }
}

#[test]
fn open_key_normalizes_line_endings() {
    let mut e = ValueEditor::new();
    e.open_key("k".to_string(), "a\r\nb\rc\n".to_string());
    assert_eq!(e.editor_lines(), vec!["a", "b", "c"]);
    assert_eq!(e.editor_content(), "a\nb\nc");
    assert!(!e.value_has_changed());
}

#[test]
fn editing_makes_the_value_changed() {
    let mut e = ValueEditor::new();
    let mut ctx = SharedState::new();
    e.open_key("k".to_string(), "a\r\nb\rc\n".to_string());
    e.handle_key_event(&key(Key::Char('e')), &mut ctx);
    e.handle_key_event(&key(Key::Char('x')), &mut ctx);
    assert!(e.value_has_changed());
    assert_eq!(e.editor_content(), "xa\nb\nc");
}

#[test]
fn open_key_with_plain_value_keeps_it() {
    let mut e = ValueEditor::new();
    e.open_key("k".to_string(), "1".to_string());
    assert_eq!(e.editor_content(), "1");
    assert!(!e.value_has_changed());
}

#[test]
fn escape_with_clean_buffer_leaves_at_once() {
    let mut e = ValueEditor::new();
    let mut ctx = SharedState::new();
    e.open_key("k".to_string(), "v".to_string());
    e.handle_key_event(&key(Key::Esc), &mut ctx);
    let events = ctx.take_events();
    assert_eq!(events.len(), 1);
    assert!(matches!(events[0], Event::KeyEditDone));
    assert!(e.confirmation_popup().is_none());
    assert!(ctx.take_requests().is_empty());
}

#[test]
fn escape_with_dirty_buffer_asks_first() {
    let mut e = ValueEditor::new();
    let mut ctx = SharedState::new();
    e.open_key("k".to_string(), "v".to_string());
    e.handle_key_event(&key(Key::Char('e')), &mut ctx);
    e.handle_key_event(&key(Key::Char('x')), &mut ctx);
    e.handle_key_event(&key(Key::Esc), &mut ctx);
    assert!(e.confirmation_popup().is_none());
    e.handle_key_event(&key(Key::Esc), &mut ctx);
    let popup = e.confirmation_popup().as_ref().expect("popup should be open");
    assert_eq!(popup.description().as_str(), "Save key?");
}

#[test]
fn declining_the_save_discards_changes() {
    let mut e = ValueEditor::new();
    let mut ctx = SharedState::new();
    e.open_key("k".to_string(), "v".to_string());
    e.handle_key_event(&key(Key::Char('e')), &mut ctx);
    e.handle_key_event(&key(Key::Char('x')), &mut ctx);
    e.handle_key_event(&key(Key::Esc), &mut ctx);
    e.handle_key_event(&key(Key::Esc), &mut ctx);
    e.handle_key_event(&key(Key::Char('n')), &mut ctx);
    ctx.take_events();
    e.update(&mut ctx).unwrap();
    let events = ctx.take_events();
    assert!(events.iter().any(|ev| matches!(ev, Event::KeyEditDone)));
    assert!(ctx.take_requests().is_empty());
    assert!(e.confirmation_popup().is_none());
}

#[test]
fn cancelling_the_save_keeps_editing() {
    let mut e = ValueEditor::new();
    let mut ctx = SharedState::new();
    e.open_key("k".to_string(), "v".to_string());
    e.handle_key_event(&key(Key::Char('e')), &mut ctx);
    e.handle_key_event(&key(Key::Char('x')), &mut ctx);
    e.handle_key_event(&key(Key::Esc), &mut ctx);
    e.handle_key_event(&key(Key::Esc), &mut ctx);
    e.handle_key_event(&key(Key::Esc), &mut ctx);
    ctx.take_events();
    e.update(&mut ctx).unwrap();
    assert!(ctx.take_events().is_empty());
    assert!(ctx.take_requests().is_empty());
    assert!(e.confirmation_popup().is_none());
    assert!(e.is_visible());
}

#[test]
fn accepted_save_writes_the_buffer() {
    let mut e = ValueEditor::new();
    let mut ctx = SharedState::new();
    e.open_key("k".to_string(), "v".to_string());
    e.handle_key_event(&key(Key::Char('e')), &mut ctx);
    e.handle_key_event(&key(Key::Char('x')), &mut ctx);
    e.handle_key_event(&key(Key::Esc), &mut ctx);
    e.handle_key_event(&key(Key::Esc), &mut ctx);
    e.handle_key_event(&key(Key::Char('y')), &mut ctx);
    ctx.take_events();
    e.update(&mut ctx).unwrap();
    let requests = ctx.take_requests();
    assert_eq!(requests.len(), 1);
    match &requests[0] {
        StoreRequest { slot: SlotId::EditorSave, op: StoreOp::PutKey(k, v), .. } => {
            assert_eq!(k, "k");
            assert_eq!(v, "xv");
        },
        _ => panic!("expected a save request"),
    }
    e.deliver_saved(requests[0].ticket, Ok(()));
    e.update(&mut ctx).unwrap();
    let events = ctx.take_events();
    assert!(events.iter().any(|ev| matches!(ev, Event::KeyEditDone)));
}

#[test]
fn failed_save_surfaces_from_update() {
    let mut e = ValueEditor::new();
    let mut ctx = SharedState::new();
    e.open_key("k".to_string(), "v".to_string());
    e.handle_key_event(&key(Key::Char('e')), &mut ctx);
    e.handle_key_event(&key(Key::Char('x')), &mut ctx);
    e.handle_key_event(&key(Key::Esc), &mut ctx);
    e.handle_key_event(&key(Key::Esc), &mut ctx);
    e.handle_key_event(&key(Key::Char('y')), &mut ctx);
    ctx.take_events();
    e.update(&mut ctx).unwrap();
    let requests = ctx.take_requests();
    e.deliver_saved(requests[0].ticket, Err(StoreError::Transport("gone".to_string())));
    let r = e.update(&mut ctx);
    assert!(matches!(r, Err(StoreError::Transport(_))));
}

#[test]
fn title_status_reflects_mode_and_dirtiness() {
    let mut e = ValueEditor::new();
    let mut ctx = SharedState::new();
    e.open_key("k".to_string(), "v".to_string());
    assert_eq!(e.title_status(), "not editing, not changed");
    e.handle_key_event(&key(Key::Enter), &mut ctx);
    assert_eq!(e.title_status(), "editing, not changed");
    e.handle_key_event(&key(Key::Char('x')), &mut ctx);
    assert_eq!(e.title_status(), "editing, changed");
    e.handle_key_event(&key(Key::Esc), &mut ctx);
    assert_eq!(e.title_status(), "not editing, changed");
}

#[test]
fn editor_hints_follow_the_mode() {
    let mut e = ValueEditor::new();
    let mut ctx = SharedState::new();
    e.open_key("k".to_string(), "v".to_string());
    assert_eq!(
        e.context_help(),
        vec!["(e/Enter) enter editing mode", "(Esc) return to key selection"]
    );
    e.handle_key_event(&key(Key::Enter), &mut ctx);
    assert_eq!(e.context_help(), vec!["(Esc) exit editing mode"]);
}
