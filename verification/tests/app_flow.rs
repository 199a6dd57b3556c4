use etcd_tui::app::App;
use etcd_tui::components::Component;
use etcd_tui::events::Event;
use etcd_tui::shared_state::{SharedState, SlotId, StoreOp, StoreReply};
use tui_textarea::{Input, Key};

fn key(k: Key) -> Input {
    Input { key: k, ctrl: false, alt: false, shift: false }
}

fn press(app: &mut App, ctx: &mut SharedState, k: Key) {
    app.handle_event(Event::Keyboard(key(k)), ctx).unwrap();
}

/// Runs the queued events and completions the way the outer loop would,
/// until nothing is pending.
fn settle(app: &mut App, ctx: &mut SharedState) {
    loop {
        let events = ctx.take_events();
        if events.is_empty() {
            break;
        }
        for event in events {
            if let Err(e) = app.handle_event(event, ctx) {
                app.quit(Err(e));
            }
        }
    }
}

#[test]
fn browse_to_edit_handoff() {
    let mut ctx = SharedState::new();
    let mut app = App::new(&mut ctx);
    let requests = ctx.take_requests();
    assert_eq!(requests.len(), 1);
    assert!(matches!(requests[0].op, StoreOp::ListKeys));
    app.deliver(
        SlotId::SelectorList,
        requests[0].ticket,
        StoreReply::Keys(Ok(vec!["a".to_string(), "b".to_string()])),
    );
    app.handle_event(Event::Tick, &mut ctx).unwrap();
    assert_eq!(app.key_selector().keys(), &vec!["a".to_string(), "b".to_string()]);

    press(&mut app, &mut ctx, Key::Down);
    assert_eq!(app.key_selector().selected_index(), Some(0));
    press(&mut app, &mut ctx, Key::Enter);
    let requests = ctx.take_requests();
    assert_eq!(requests.len(), 1);
    match &requests[0].op {
        StoreOp::GetKey(k) => assert_eq!(k, "a"),
        _ => panic!("expected a fetch request"),
    }
    app.deliver(
        SlotId::SelectorGet,
        requests[0].ticket,
        StoreReply::Value(Ok(("a".to_string(), "1".to_string()))),
    );
    app.handle_event(Event::Tick, &mut ctx).unwrap();
    settle(&mut app, &mut ctx);

    assert!(!app.key_selector().is_visible());
    assert!(app.value_editor().is_visible());
    assert_eq!(app.value_editor().key().as_str(), "a");
    assert_eq!(app.value_editor().editor_content(), "1");
    assert!(!app.value_editor().value_has_changed());
}

#[test]
fn edit_to_browse_handoff_without_saving() {
    let mut ctx = SharedState::new();
    let mut app = App::new(&mut ctx);
    let requests = ctx.take_requests();
    app.deliver(
        SlotId::SelectorList,
        requests[0].ticket,
        StoreReply::Keys(Ok(vec!["a".to_string()])),
    );
    app.handle_event(Event::Tick, &mut ctx).unwrap();
    press(&mut app, &mut ctx, Key::Down);
    press(&mut app, &mut ctx, Key::Enter);
    let requests = ctx.take_requests();
    app.deliver(
        SlotId::SelectorGet,
        requests[0].ticket,
        StoreReply::Value(Ok(("a".to_string(), "1".to_string()))),
    );
    app.handle_event(Event::Tick, &mut ctx).unwrap();
    settle(&mut app, &mut ctx);
    assert!(app.value_editor().is_visible());

    press(&mut app, &mut ctx, Key::Char('e'));
    press(&mut app, &mut ctx, Key::Char('!'));
    assert!(app.value_editor().value_has_changed());
    press(&mut app, &mut ctx, Key::Esc);
    press(&mut app, &mut ctx, Key::Esc);
    assert!(app.value_editor().confirmation_popup().is_some());
    press(&mut app, &mut ctx, Key::Char('n'));
    settle(&mut app, &mut ctx);

    assert!(app.key_selector().is_visible());
    assert!(!app.value_editor().is_visible());
    let requests = ctx.take_requests();
    assert!(requests.iter().all(|r| !matches!(r.op, StoreOp::PutKey(_, _))));
    assert!(requests.iter().any(|r| matches!(r.op, StoreOp::ListKeys)));
}

#[test]
fn quitting_records_the_outcome() {
    let mut ctx = SharedState::new();
    let mut app = App::new(&mut ctx);
    let requests = ctx.take_requests();
    app.deliver(SlotId::SelectorList, requests[0].ticket, StoreReply::Keys(Ok(vec![])));
    app.handle_event(Event::Tick, &mut ctx).unwrap();
    assert!(!app.should_quit());
    press(&mut app, &mut ctx, Key::Esc);
    settle(&mut app, &mut ctx);
    assert!(app.should_quit());
    assert!(app.take_result().is_ok());
}

#[test]
fn mismatched_reply_is_discarded() {
    let mut ctx = SharedState::new();
    let mut app = App::new(&mut ctx);
    let requests = ctx.take_requests();
    app.deliver(SlotId::SelectorList, requests[0].ticket, StoreReply::Done(Ok(())));
    app.handle_event(Event::Tick, &mut ctx).unwrap();
    assert!(app.key_selector().keys().is_empty());
    assert!(app.key_selector().load_key_list_task().is_active());
}

#[test]
fn shell_hints_come_from_the_visible_scene() {
    let mut ctx = SharedState::new();
    let mut app = App::new(&mut ctx);
    let requests = ctx.take_requests();
    app.deliver(
        SlotId::SelectorList,
        requests[0].ticket,
        StoreReply::Keys(Ok(vec!["a".to_string()])),
    );
    app.handle_event(Event::Tick, &mut ctx).unwrap();
    let hints = app.context_help();
    assert_eq!(
        hints,
        vec!["(Up/Down) scroll list", "(e/Enter) select key", "(d/Del) delete key", "(Esc) exit"]
    );
}

#[test]
fn store_failure_ends_the_run_with_the_error() {
    let mut ctx = SharedState::new();
    let mut app = App::new(&mut ctx);
    let requests = ctx.take_requests();
    app.deliver(
        SlotId::SelectorList,
        requests[0].ticket,
        StoreReply::Keys(Err(etcd_tui::shared_state::StoreError::Transport(
            "unreachable".to_string(),
        ))),
    );
    if let Err(e) = app.handle_event(Event::Tick, &mut ctx) {
        app.quit(Err(e));
    }
    assert!(app.should_quit());
    assert!(matches!(
        app.take_result(),
        Err(etcd_tui::shared_state::StoreError::Transport(_))
    ));
}
