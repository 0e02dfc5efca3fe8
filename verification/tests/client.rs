use spaze::client::app::{App, ConnectionState, FocusedRegion, Identity, InputMode, SocketEvent};
use spaze::client::buffers::{body_text, Buffer, BufferKind, HelpBuffer, RoomKind, RoomTimelineBuffer, ScrollState};
use spaze::client::identity::derive_identity;
use spaze::client::keys::{KeyCode, KeyEvent, KeyModifiers};
use spaze::client::theme::{catppuccin_mocha, Color, Theme};
use spaze::commands::{lookup, registry, Effect, HandlerContext};
use spaze::proto::{
    CommandOutcome, DeviceId, Message, MessageBody, MessageId, ResponsePayload, RoomId,
    ServerEvent, ServerFrame, UserId, RequestId, ProtocolError,
};

fn test_app() -> App {
    let identity = Identity {
        user_id: UserId::new().unwrap(),
        device_id: DeviceId::new().unwrap(),
        display_name: "test".to_string(),
    };
    App::new(identity, "ws://localhost".to_string())
}

fn text_message(room_id: RoomId, author: &str, content: &str) -> Message {
    Message {
        id: MessageId::new().unwrap(),
        room_id,
        author_id: UserId::new().unwrap(),
        author_device_id: DeviceId::new().unwrap(),
        author_display_name: author.to_string(),
        created_at_ms: 0,
        edited_at_ms: None,
        deleted_at_ms: None,
        body: MessageBody::Text { content: content.into() },
    }
}

fn key(code: KeyCode) -> KeyEvent {
    KeyEvent::new(code, KeyModifiers::none())
}

#[test]
fn same_name_yields_same_identity() {
    let (u1, d1) = derive_identity("andreas");
    let (u2, d2) = derive_identity("andreas");
    assert_eq!(u1, u2);
    assert_eq!(d1, d2);
}

#[test]
fn different_names_yield_different_identities() {
    let (u1, _) = derive_identity("andreas");
    let (u2, _) = derive_identity("beth");
    assert_ne!(u1, u2);
}

#[test]
fn empty_name_is_valid_and_deterministic() {
    let (a_user, a_device) = derive_identity("");
    let (b_user, b_device) = derive_identity("");
    assert_eq!(a_user, b_user);
    assert_eq!(a_device, b_device);
}

#[test]
fn user_id_and_device_id_are_equal_in_phase_1a() {
    let (user, device) = derive_identity("andreas");
    assert_eq!(user.as_uuid(), device.as_uuid());
}

#[test]
fn theme_catppuccin_mocha_has_all_slots_set() {
    let default = Color::Reset;
    let t: Theme = catppuccin_mocha();
    assert_ne!(t.background, default);
    assert_ne!(t.surface, default);
    assert_ne!(t.overlay, default);
    assert_ne!(t.foreground, default);
    assert_ne!(t.muted, default);
    assert_ne!(t.subtle, default);
    assert_ne!(t.primary, default);
    assert_ne!(t.success, default);
    assert_ne!(t.warning, default);
    assert_ne!(t.error, default);
    assert_ne!(t.info, default);
    assert_ne!(t.mention, default);
    assert_ne!(t.link, default);
    assert_ne!(t.border, default);
    assert_ne!(t.border_focused, default);
    assert_ne!(t.tab_room, default);
    assert_ne!(t.tab_dm, default);
    assert_ne!(t.tab_special, default);
    assert_ne!(t.tab_unread, default);
    assert!(!t.syntect_theme_name.is_empty());
}

#[test]
fn app_initializes_with_two_buffers() {
    let app = test_app();
    assert_eq!(app.buffers.len(), 2);
    assert_eq!(app.active, 0);
    assert!(matches!(app.buffers[0], Buffer::Room(_)));
    assert!(matches!(app.buffers[1], Buffer::Help(_)));
}

#[test]
fn room_buffer_push_message_appends() {
    let mut rb = RoomTimelineBuffer::new(
        RoomId::new().unwrap(),
        "# test".to_string(),
        RoomKind::Standard,
        "self".to_string(),
    );
    assert_eq!(rb.messages.len(), 0);
    let msg = text_message(rb.room_id, "alice", "hi");
    rb.push_message(msg);
    assert_eq!(rb.messages.len(), 1);
}

#[test]
fn room_buffer_scroll_sticks_to_bottom_on_new_message() {
    let mut rb = RoomTimelineBuffer::new(
        RoomId::new().unwrap(),
        "# test".to_string(),
        RoomKind::Standard,
        "self".to_string(),
    );
    let room_id = rb.room_id;

    rb.push_message(text_message(room_id, "alice", "a"));
    assert_eq!(rb.scroll.offset_from_bottom, 0);

    rb.scroll.page_up();
    assert!(rb.scroll.offset_from_bottom > 0);
    assert!(!rb.scroll.stuck_to_bottom);

    let prior = rb.scroll.offset_from_bottom;
    rb.push_message(text_message(room_id, "alice", "b"));
    assert_eq!(rb.scroll.offset_from_bottom, prior);

    rb.scroll.to_bottom();
    assert_eq!(rb.scroll.offset_from_bottom, 0);
    assert!(rb.scroll.stuck_to_bottom);

    rb.push_message(text_message(room_id, "alice", "c"));
    assert_eq!(rb.scroll.offset_from_bottom, 0);
}

#[test]
fn tab_cycle_wraps_around() {
    let mut app = test_app();
    assert_eq!(app.active, 0);
    app.cycle_tab_forward();
    assert_eq!(app.active, 1);
    app.cycle_tab_forward();
    assert_eq!(app.active, 0);
    app.cycle_tab_backward();
    assert_eq!(app.active, 1);
    app.cycle_tab_backward();
    assert_eq!(app.active, 0);
}

#[test]
fn help_buffer_scrolls_with_jk_and_arrows() {
    let mut hb = HelpBuffer::new();
    assert_eq!(hb.scroll, 0);

    hb.handle_key(key(KeyCode::Down));
    assert_eq!(hb.scroll, 1);
    hb.handle_key(key(KeyCode::Char('j')));
    assert_eq!(hb.scroll, 2);
    hb.handle_key(key(KeyCode::Up));
    assert_eq!(hb.scroll, 1);
    hb.handle_key(key(KeyCode::Char('k')));
    assert_eq!(hb.scroll, 0);
    hb.handle_key(key(KeyCode::Up));
    assert_eq!(hb.scroll, 0);
}

#[test]
fn app_input_mode_transitions() {
    let mut app = test_app();
    assert_eq!(app.mode, InputMode::Normal);
    app.mode = InputMode::Insert;
    app.input_buffer.push_str("hello");
    app.mode = InputMode::Normal;
    assert_eq!(app.input_buffer, "hello");
}

#[test]
fn mention_detection_uses_self_display_name() {
    let rb = RoomTimelineBuffer::new(
        RoomId::new().unwrap(),
        "# test".to_string(),
        RoomKind::Standard,
        "andreas".to_string(),
    );
    let needle = format!("@{}", rb.self_display_name).to_lowercase();
    assert!("Hello @andreas, how's it going".to_lowercase().contains(&needle));
    assert!(!"hello world".to_lowercase().contains(&needle));
    // The same decision through the buffer itself.
    let room_id = rb.room_id;
    assert!(rb.mentions_self(&text_message(room_id, "x", "Hello @Andreas, how's it going")));
    assert!(!rb.mentions_self(&text_message(room_id, "x", "hello world")));
}

#[test]
fn apply_effect_quit_sets_should_quit_flag() {
    let mut app = test_app();
    assert!(!app.should_quit);
    app.apply_effect(Effect::Quit);
    assert!(app.should_quit);
}

#[test]
fn apply_effect_clear_empties_active_room_buffer() {
    let mut app = test_app();
    if let Buffer::Room(rb) = &mut app.buffers[0] {
        rb.push_message(text_message(RoomId::new().unwrap(), "x", "a"));
        rb.push_message(text_message(RoomId::new().unwrap(), "x", "b"));
    }
    app.apply_effect(Effect::ClearActiveBuffer);
    if let Buffer::Room(rb) = &app.buffers[0] {
        assert_eq!(rb.messages.len(), 0);
    } else {
        panic!("expected room buffer");
    }
}

#[test]
fn apply_effect_systemline_appends_local_system_message() {
    let mut app = test_app();
    app.apply_effect(Effect::SystemLine("usage: /me <text>".into()));
    if let Buffer::Room(rb) = &app.buffers[0] {
        assert_eq!(rb.messages.len(), 1);
        match &rb.messages[0].body {
            MessageBody::System { content } => assert_eq!(content, "usage: /me <text>"),
            other => panic!("expected System body, got {other:?}"),
        }
    } else {
        panic!("expected room buffer");
    }
}

#[test]
fn body_text_extracts_content_from_action_variant() {
    let body = MessageBody::Action { content: "kicks the build".into() };
    assert_eq!(body_text(&body), "kicks the build");
}

#[test]
fn mention_inside_action_body_is_detectable() {
    let body = MessageBody::Action { content: "waves at @beth".into() };
    let needle = "@beth".to_lowercase();
    assert!(body_text(&body).to_lowercase().contains(&needle));
}

#[test]
fn render_action_message_does_not_panic_and_uses_action_path() {
    let mut rb = RoomTimelineBuffer::new(
        RoomId::new().unwrap(),
        "# test".into(),
        RoomKind::Standard,
        "self".into(),
    );
    let mut msg = text_message(rb.room_id, "andreas", "");
    msg.body = MessageBody::Action { content: "kicks the build".into() };
    rb.push_message(msg);
    let lines = rb.render(&catppuccin_mocha());
    let dump: String = lines.iter().flat_map(|l| l.iter().map(|s| s.text.clone())).collect();
    assert!(dump.contains("andreas"), "rendered output: {dump}");
    assert!(dump.contains("kicks"), "rendered output: {dump}");
    assert_eq!(dump, "* andreas kicks the build");
}

#[test]
fn app_initial_focus_is_sidebar_when_sidebar_visible() {
    let app = test_app();
    assert!(app.sidebar_visible);
    assert_eq!(app.focus, FocusedRegion::Sidebar);
}

#[test]
fn app_has_sidebar_selected_field_initialized_to_first_room() {
    let app = test_app();
    assert_eq!(app.sidebar_selected, Some(0));
}

#[test]
fn clear_command_empties_active_buffer_only() {
    let mut app = test_app();
    if let Buffer::Room(rb) = &mut app.buffers[0] {
        for content in ["a", "b", "c"] {
            rb.push_message(text_message(RoomId::new().unwrap(), "x", content));
        }
    }
    app.apply_effect(Effect::ClearActiveBuffer);
    if let Buffer::Room(rb) = &app.buffers[0] {
        assert_eq!(rb.messages.len(), 0, "active buffer should be empty");
    }
}

#[test]
fn quit_command_sets_should_quit_through_handler_chain() {
    let mut app = test_app();
    assert!(!app.should_quit);
    let reg = registry();
    let cmd = lookup("quit", &reg).expect("/quit must be in registry");
    let ctx = HandlerContext { registry: &reg };
    let effects = cmd.handler.call(&[], &ctx);
    for effect in effects {
        app.apply_effect(effect);
    }
    assert!(app.should_quit);
}

#[test]
fn set_focus_input_enters_insert_mode() {
    let mut app = test_app();
    assert_eq!(app.mode, InputMode::Normal);
    app.set_focus(FocusedRegion::Input);
    assert_eq!(app.focus, FocusedRegion::Input);
    assert_eq!(app.mode, InputMode::Insert);
}

#[test]
fn set_focus_non_input_exits_insert_mode() {
    let mut app = test_app();
    app.mode = InputMode::Insert;
    app.focus = FocusedRegion::Input;
    app.set_focus(FocusedRegion::Sidebar);
    assert_eq!(app.focus, FocusedRegion::Sidebar);
    assert_eq!(app.mode, InputMode::Normal);
}

#[test]
fn set_focus_non_input_from_normal_does_not_change_mode() {
    let mut app = test_app();
    assert_eq!(app.mode, InputMode::Normal);
    app.set_focus(FocusedRegion::Buffer);
    assert_eq!(app.focus, FocusedRegion::Buffer);
    assert_eq!(app.mode, InputMode::Normal);
}

// Extra cases: the key state machine and server frames.

#[test]
fn typing_and_enter_posts_text_and_clears_input() {
    let mut app = test_app();
    let reg = registry();
    assert!(app.handle_key(key(KeyCode::Char('i')), &reg).is_empty());
    assert_eq!(app.mode, InputMode::Insert);
    for c in "hi there".chars() {
        app.handle_key(key(KeyCode::Char(c)), &reg);
    }
    assert_eq!(app.input_buffer, "hi there");
    let posts = app.handle_key(key(KeyCode::Enter), &reg);
    assert_eq!(posts, vec![MessageBody::Text { content: "hi there".into() }]);
    assert_eq!(app.input_buffer, "");
    app.handle_key(key(KeyCode::Esc), &reg);
    assert_eq!(app.mode, InputMode::Normal);
}

#[test]
fn escaped_text_posts_with_one_slash_stripped() {
    let mut app = test_app();
    let reg = registry();
    app.mode = InputMode::Insert;
    app.input_buffer = "//me".into();
    let posts = app.handle_key(key(KeyCode::Enter), &reg);
    assert_eq!(posts, vec![MessageBody::Text { content: "/me".into() }]);
}

#[test]
fn enter_on_empty_input_does_nothing() {
    let mut app = test_app();
    let reg = registry();
    app.mode = InputMode::Insert;
    let posts = app.handle_key(key(KeyCode::Enter), &reg);
    assert!(posts.is_empty());
    assert_eq!(app.mode, InputMode::Insert);
}

#[test]
fn unknown_command_leaves_input_in_place() {
    let mut app = test_app();
    let reg = registry();
    app.mode = InputMode::Insert;
    app.input_buffer = "/nope x".into();
    let posts = app.handle_key(key(KeyCode::Enter), &reg);
    assert!(posts.is_empty());
    assert_eq!(app.input_buffer, "/nope x");
}

#[test]
fn me_without_connection_adds_system_line() {
    let mut app = test_app();
    let reg = registry();
    app.mode = InputMode::Insert;
    app.input_buffer = "/me waves".into();
    let posts = app.handle_key(key(KeyCode::Enter), &reg);
    assert!(posts.is_empty());
    assert_eq!(app.input_buffer, "");
    if let Buffer::Room(rb) = &app.buffers[0] {
        assert_eq!(
            rb.messages.last().map(|m| m.body.clone()),
            Some(MessageBody::System {
                content: "not connected — /me requires an active connection".into()
            })
        );
    } else {
        panic!("expected room buffer");
    }
}

#[test]
fn me_while_connected_posts_action() {
    let mut app = test_app();
    let reg = registry();
    app.on_connected("ws://localhost:9876".into());
    app.mode = InputMode::Insert;
    app.input_buffer = "/me waves  at you".into();
    let posts = app.handle_key(key(KeyCode::Enter), &reg);
    assert_eq!(posts, vec![MessageBody::Action { content: "waves at you".into() }]);
}

#[test]
fn normal_mode_globals() {
    let mut app = test_app();
    let reg = registry();
    app.handle_key(KeyEvent::new(KeyCode::Char('b'), KeyModifiers::ctrl()), &reg);
    assert!(!app.sidebar_visible);
    app.handle_key(key(KeyCode::Char('?')), &reg);
    assert_eq!(app.active, 1);
    app.handle_key(key(KeyCode::BackTab), &reg);
    assert_eq!(app.active, 0);
    app.handle_key(key(KeyCode::Char('q')), &reg);
    assert!(app.should_quit);
}

#[test]
fn ctrl_c_quits() {
    let mut app = test_app();
    app.handle_key(KeyEvent::new(KeyCode::Char('c'), KeyModifiers::ctrl()), &registry());
    assert!(app.should_quit);
}

#[test]
fn posted_messages_from_server_land_in_the_room() {
    let mut app = test_app();
    let m = text_message(RoomId::from_uuid(0), "beth", "hello");
    app.handle_server_frame(ServerFrame::Event(ServerEvent::MessagePosted(m.clone())));
    app.handle_server_frame(ServerFrame::Response {
        request_id: RequestId(1),
        result: CommandOutcome::Succeeded { payload: ResponsePayload::MessagePosted(m.clone()) },
    });
    app.handle_server_frame(ServerFrame::Response {
        request_id: RequestId(2),
        result: CommandOutcome::Failed { error: ProtocolError::InternalError },
    });
    if let Buffer::Room(rb) = &app.buffers[0] {
        assert_eq!(rb.messages.len(), 2);
        assert_eq!(rb.messages[0], m);
    } else {
        panic!("expected room buffer");
    }
}

#[test]
fn socket_close_disconnects_and_quits() {
    let mut app = test_app();
    app.on_connected("ws://x".into());
    assert!(matches!(app.connection, ConnectionState::Connected { .. }));
    app.handle_socket_event(SocketEvent::Closed);
    assert!(app.should_quit);
    match &app.connection {
        ConnectionState::Disconnected { reason } => assert_eq!(reason, "server closed"),
        _ => panic!("expected disconnected"),
    }
    assert_eq!(app.disconnect_notice(), Some("connection lost: server closed".to_string()));
}

#[test]
fn buffer_kinds_and_titles() {
    let app = test_app();
    assert_eq!(app.buffers[0].kind(), BufferKind::Room);
    assert_eq!(app.buffers[0].title(), "# general");
    assert_eq!(app.buffers[1].kind(), BufferKind::Help);
    assert_eq!(app.buffers[1].title(), "? help");
}

#[test]
fn scroll_page_up_then_down_returns() {
    let mut s = ScrollState::new();
    s.page_up();
    assert_eq!(s.offset_from_bottom, 10);
    s.page_down();
    assert_eq!(s.offset_from_bottom, 0);
    assert!(s.stuck_to_bottom);
    s.to_top();
    assert_eq!(s.offset_from_bottom, u16::MAX);
    s.page_up();
    assert_eq!(s.offset_from_bottom, u16::MAX);
}

#[test]
fn identity_is_the_name_based_uuid_in_the_spaze_namespace() {
    let (u, d) = derive_identity("andreas");
    assert_eq!(u.as_uuid(), 0x6ca24764_70dd_5900_a88a_c2e669cc99df);
    assert_eq!(d.as_uuid(), 0x6ca24764_70dd_5900_a88a_c2e669cc99df);
    let (e, _) = derive_identity("");
    assert_eq!(e.as_uuid(), 0xe8691713_6930_5edb_90bb_ca6d6c77b31b);
    assert_eq!((e.as_uuid() >> 76) & 0xf, 5);
}

#[test]
fn local_system_lines_are_stamped_with_the_current_time() {
    let mut app = test_app();
    app.apply_effect(Effect::SystemLine("hello".into()));
    if let Buffer::Room(rb) = &app.buffers[0] {
        assert!(rb.messages[0].created_at_ms > 1_700_000_000_000);
        assert_eq!(rb.messages[0].author_display_name, "spaze");
    } else {
        panic!("expected room buffer");
    }
}

#[test]
fn system_line_on_help_tab_goes_to_first_room() {
    let mut app = test_app();
    app.active = 1;
    app.apply_effect(Effect::SystemLine("x".into()));
    app.apply_effect(Effect::ClearActiveBuffer);
    if let Buffer::Room(rb) = &app.buffers[0] {
        assert_eq!(rb.messages.len(), 1);
    } else {
        panic!("expected room buffer");
    }
}

#[test]
fn sidebar_moves_wrap_and_undo_each_other() {
    let mut app = test_app();
    app.buffers.push(Buffer::Room(RoomTimelineBuffer::new(
        RoomId::from_uuid(7),
        "# second".into(),
        RoomKind::Standard,
        "test".into(),
    )));
    // Rooms sit at indices 0 and 2; the help buffer (1) is skipped.
    assert_eq!(app.sidebar_selected, Some(0));
    app.sidebar_move_down();
    assert_eq!(app.sidebar_selected, Some(2));
    app.sidebar_move_down();
    assert_eq!(app.sidebar_selected, Some(0));
    app.sidebar_move_up();
    assert_eq!(app.sidebar_selected, Some(2));
    app.sidebar_move_down();
    assert_eq!(app.sidebar_selected, Some(0));
    app.sidebar_move_up();
    app.sidebar_activate();
    assert_eq!(app.active, 2);
}

#[test]
fn find_buffer_returns_first_match() {
    let app = test_app();
    assert_eq!(app.find_buffer(|b| b.is_help()), Some(1));
    assert_eq!(app.find_buffer(|b| b.is_room()), Some(0));
    assert_eq!(app.find_buffer(|_| false), None);
}

#[test]
fn timeline_lines_format_each_kind() {
    let mut rb = RoomTimelineBuffer::new(RoomId::from_uuid(1), "# r".into(), RoomKind::Standard, "me".into());
    let mut m = text_message(RoomId::from_uuid(1), "ann", "hi");
    rb.push_message(m.clone());
    m.body = MessageBody::Action { content: "waves".into() };
    rb.push_message(m.clone());
    m.body = MessageBody::System { content: "joined".into() };
    rb.push_message(m);
    assert_eq!(rb.timeline_lines(), vec!["<ann> hi", "* ann waves", "-- system: joined"]);
}

#[test]
fn i_focuses_the_input_and_esc_hands_focus_to_the_buffer() {
    let mut app = test_app();
    let reg = registry();
    assert_eq!(app.focus, FocusedRegion::Sidebar);
    app.handle_key(key(KeyCode::Char('i')), &reg);
    assert_eq!(app.mode, InputMode::Insert);
    assert_eq!(app.focus, FocusedRegion::Input);
    app.handle_key(key(KeyCode::Char('x')), &reg);
    app.handle_key(key(KeyCode::Esc), &reg);
    assert_eq!(app.mode, InputMode::Normal);
    assert_eq!(app.focus, FocusedRegion::Buffer);
    assert_eq!(app.input_buffer, "x");
}

#[test]
fn sidebar_moves_are_no_ops_with_fewer_than_two_rooms() {
    let mut app = test_app();
    assert_eq!(app.sidebar_selected, Some(0));
    app.sidebar_move_up();
    assert_eq!(app.sidebar_selected, Some(0));
    app.sidebar_move_down();
    assert_eq!(app.sidebar_selected, Some(0));
    app.sidebar_selected = None;
    app.sidebar_move_down();
    assert_eq!(app.sidebar_selected, None);
    app.buffers.remove(0);
    app.active = 0;
    app.sidebar_selected = Some(3);
    app.sidebar_move_up();
    assert_eq!(app.sidebar_selected, Some(3));
}

#[test]
fn system_line_carries_the_given_time() {
    let mut app = test_app();
    app.push_local_system_at("hello".into(), 1234);
    if let Buffer::Room(rb) = &app.buffers[0] {
        let m = &rb.messages[0];
        assert_eq!(m.created_at_ms, 1234);
        assert_eq!(m.body, MessageBody::System { content: "hello".into() });
        assert_eq!(m.author_display_name, "spaze");
        assert_eq!(m.id.as_uuid(), 0);
        assert_eq!(m.room_id.as_uuid(), 0);
        assert_eq!(m.author_id.as_uuid(), 0);
        assert_eq!(m.author_device_id.as_uuid(), 0);
    } else {
        panic!("expected room buffer");
    }
}
