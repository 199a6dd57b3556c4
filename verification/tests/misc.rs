use etcd_tui::cli::Cli;
use etcd_tui::components::Component;
use etcd_tui::confirmation_popup::{ConfirmationPopup, ConfirmationResult};
use etcd_tui::context_help::ContextHelp;
use etcd_tui::events::Event;
use etcd_tui::new_key_popup::{NewKeyPopup, NewKeyResult};
use etcd_tui::shared_state::{value_from_kvs, SharedState, StoreError};
use etcd_tui::ui::{calculate_center_rect, Rect};
use tui_textarea::{Input, Key};

fn key(k: Key) -> Input {
    Input { key: k, ctrl: false, alt: false, shift: false }
}

#[test]
fn one_value_is_the_answer() {
    assert!(matches!(value_from_kvs(vec!["v".to_string()]), Ok(v) if v == "v"));
}

#[test]
fn no_value_means_the_key_is_missing() {
    assert!(matches!(value_from_kvs(vec![]), Err(StoreError::NotFound)));
}

#[test]
fn several_values_are_ambiguous() {
    assert!(matches!(
        value_from_kvs(vec!["a".to_string(), "b".to_string()]),
        Err(StoreError::MultipleValues)
    ));
}

#[test]
fn popup_resolves_yes_no_cancel() {
    for (k, want) in [
        (Key::Char('y'), ConfirmationResult::Yes),
        (Key::Char('n'), ConfirmationResult::No),
        (Key::Esc, ConfirmationResult::Cancel),
    ] {
        let mut ctx = SharedState::new();
        let mut p = ConfirmationPopup::new("Sure?".to_string());
        p.show(&mut ctx);
        p.handle_key_event(&key(k), &mut ctx);
        assert_eq!(p.status(), Some(want));
        let events = ctx.take_events();
        assert_eq!(events.len(), 1);
        assert!(matches!(events[0], Event::Tick));
    }
}

#[test]
fn popup_ignores_other_keys() {
    let mut ctx = SharedState::new();
    let mut p = ConfirmationPopup::new("Sure?".to_string());
    p.show(&mut ctx);
    p.handle_key_event(&key(Key::Char('x')), &mut ctx);
    assert_eq!(p.status(), None);
    assert!(ctx.take_events().is_empty());
}

#[test]
fn hidden_popup_passes_keys_on() {
    let mut ctx = SharedState::new();
    let mut p = ConfirmationPopup::new("Sure?".to_string());
    let r = p.handle_key_event(&key(Key::Char('y')), &mut ctx);
    assert!(matches!(r, etcd_tui::events::KeyEventState::NotConsumed));
    assert_eq!(p.status(), None);
}

#[test]
fn center_rect_is_centered() {
    let parent = Rect { x: 0, y: 0, width: 80, height: 24 };
    let r = calculate_center_rect(30, 5, parent);
    assert_eq!(r, Rect { x: 25, y: 9, width: 30, height: 5 });
}

#[test]
fn center_rect_shrinks_to_the_parent() {
    let parent = Rect { x: 0, y: 0, width: 20, height: 3 };
    let r = calculate_center_rect(30, 5, parent);
    assert_eq!(r, Rect { x: 0, y: 0, width: 20, height: 3 });
}

#[test]
fn credentials_need_both_user_and_password() {
    let both = Cli {
        endpoints: vec!["127.0.0.1:2379".to_string()],
        user: Some("u".to_string()),
        password: Some("p".to_string()),
    };
    assert_eq!(both.credentials(), Some(("u".to_string(), "p".to_string())));
    let user_only = Cli { endpoints: vec![], user: Some("u".to_string()), password: None };
    assert_eq!(user_only.credentials(), None);
    let password_only = Cli { endpoints: vec![], user: None, password: Some("p".to_string()) };
    assert_eq!(password_only.credentials(), None);
}

#[test]
fn hint_bar_holds_what_it_was_given() {
    let mut h = ContextHelp::new();
    assert!(h.help().is_empty());
    h.set_help(vec!["(q) quit".to_string()]);
    assert_eq!(h.help(), &vec!["(q) quit".to_string()]);
    assert!(h.is_visible());
}

#[test]
fn new_key_prompt_resolves_to_the_typed_name() {
    let mut ctx = SharedState::new();
    let mut p = NewKeyPopup::new();
    p.show(&mut ctx);
    p.handle_key_event(&key(Key::Char('a')), &mut ctx);
    p.handle_key_event(&key(Key::Char('b')), &mut ctx);
    p.handle_key_event(&key(Key::Enter), &mut ctx);
    match p.status() {
        Some(NewKeyResult::Done(name)) => assert_eq!(name, "ab"),
        other => panic!("unexpected resolution: {:?}", other),
    }
}

#[test]
fn new_key_prompt_needs_a_name() {
    let mut ctx = SharedState::new();
    let mut p = NewKeyPopup::new();
    p.show(&mut ctx);
    p.handle_key_event(&key(Key::Enter), &mut ctx);
    assert!(p.status().is_none());
}

#[test]
fn new_key_prompt_can_be_cancelled() {
    let mut ctx = SharedState::new();
    let mut p = NewKeyPopup::new();
    p.show(&mut ctx);
    p.handle_key_event(&key(Key::Esc), &mut ctx);
    assert!(matches!(p.status(), Some(NewKeyResult::Cancel)));
    assert_eq!(NewKeyResult::Cancel.as_done(), None);
    assert_eq!(NewKeyResult::Done("k".to_string()).as_done(), Some("k".to_string()));
}

#[test]
fn queues_hand_out_their_contents_once() {
    let mut ctx = SharedState::new();
    ctx.send_event(Event::Tick);
    ctx.tick();
    let events = ctx.take_events();
    assert_eq!(events.len(), 2);
    assert!(ctx.take_events().is_empty());
    assert!(ctx.take_requests().is_empty());
}
