use spaze::client::app::{App, ConnectionState, Identity, InputMode};
use spaze::client::buffers::{Buffer, RepoBinding, RoomKind, RoomTimelineBuffer};
use spaze::client::layout::{notice_row, screen_regions, Rect, ScreenRegions};
use spaze::client::render::{print_message, render_frame, short_uuid_string, OutputLine};
use spaze::client::screen::{
    first_visible_row, has_room_header, input_cursor, input_panel, is_too_small,
    keybinding_table, room_header_panel, sidebar_panel, statusbar_panels, tab_strip_panel,
    too_small_notice, topbar_panel, Panel, Style,
};
use spaze::client::buffers::BufferKind;
use spaze::client::theme::catppuccin_mocha;
use spaze::commands::registry;
use spaze::proto::{
    CommandOutcome, DeviceId, Message, MessageBody, MessageId, ProtocolError, RequestId,
    ResponsePayload, RoomId, ServerEvent, ServerFrame, UserId,
};

fn app_named(name: &str) -> App {
    let identity = Identity {
        user_id: UserId::from_uuid(0x0123_4567_89ab_cdef_0000_0000_0000_0000),
        device_id: DeviceId::from_uuid(1),
        display_name: name.to_string(),
    };
    App::new(identity, "ws://localhost".to_string())
}

fn texts(p: &Panel) -> Vec<String> {
    p.lines
        .iter()
        .map(|l| l.iter().map(|s| s.text.as_str()).collect::<String>())
        .collect()
}

fn room(name: &str) -> Buffer {
    Buffer::Room(RoomTimelineBuffer::new(
        RoomId::from_uuid(5),
        name.to_string(),
        RoomKind::Standard,
        "me".to_string(),
    ))
}

#[test]
fn cursor_width_handles_multibyte_and_wide_chars() {
    let mut app = app_named("t");
    app.mode = InputMode::Insert;
    let area = Rect { x: 10, y: 3, width: 50, height: 1 };
    for (input, cells) in [("abc", 3u16), ("ä", 1), ("åäö", 3), ("😀", 2), ("ä😀x", 4)] {
        app.input_buffer = input.to_string();
        assert_eq!(input_cursor(&app, &area), Some(10 + 2 + cells), "input {input}");
    }
    assert_eq!("ä😀x".len(), 7);
    app.mode = InputMode::Normal;
    assert_eq!(input_cursor(&app, &area), None);
}

#[test]
fn cursor_stays_inside_the_input_region() {
    let mut app = app_named("t");
    app.mode = InputMode::Insert;
    app.input_buffer = "x".repeat(100);
    let area = Rect { x: 10, y: 3, width: 20, height: 1 };
    assert_eq!(input_cursor(&app, &area), Some(29));
}

#[test]
fn terminal_floor_depends_on_sidebar() {
    assert!(is_too_small(59, 20, true));
    assert!(!is_too_small(60, 20, true));
    assert!(!is_too_small(50, 20, false));
    assert!(is_too_small(49, 20, false));
    assert!(is_too_small(100, 19, false));
    let t = catppuccin_mocha();
    let notice = too_small_notice(&t);
    assert_eq!(notice.text, "terminal too small (need 60×20)");
    assert_eq!(notice.style, Style { fg: Some(t.error), bg: None, bold: false });
}

#[test]
fn room_and_dm_buffers_get_a_header() {
    assert!(has_room_header(BufferKind::Room));
    assert!(has_room_header(BufferKind::DirectMessage));
    assert!(!has_room_header(BufferKind::Help));
    assert!(!has_room_header(BufferKind::Pins));
}

#[test]
fn topbar_shows_identity_and_connection() {
    let mut app = app_named("andreas");
    assert_eq!(texts(&topbar_panel(&app)), vec![" spaze · andreas@01234567    connecting…  "]);
    app.connection = ConnectionState::Connected { server_url: "ws://h:1".into() };
    assert_eq!(
        texts(&topbar_panel(&app)),
        vec![" spaze · andreas@01234567    connected  ws://h:1  "]
    );
    app.connection = ConnectionState::Disconnected { reason: "gone".into() };
    let p = topbar_panel(&app);
    assert_eq!(texts(&p), vec![" spaze · andreas@01234567    disconnected: gone  "]);
    assert_eq!(p.lines[0][1].style.fg, Some(app.theme.error));
}

#[test]
fn short_uuid_is_first_eight_hex_digits() {
    assert_eq!(short_uuid_string(0xdeadbeef_0000_0000_0000_0000_0000_0000), "deadbeef");
    assert_eq!(short_uuid_string(0x0000000a_ffff_ffff_ffff_ffff_ffff_ffff), "0000000a");
}

#[test]
fn statusbar_shows_mode_title_and_count() {
    let mut app = app_named("a");
    let (left, right) = statusbar_panels(&app);
    assert_eq!(texts(&left), vec![" NORMAL  · # general · 0 messages"]);
    assert_eq!(texts(&right), vec!["theme: Catppuccin Mocha "]);
    app.mode = InputMode::Insert;
    app.active = 1;
    let (left, _) = statusbar_panels(&app);
    assert_eq!(texts(&left), vec![" INSERT  · ? help · 0 messages"]);
}

#[test]
fn sidebar_lists_rooms_and_pins_footer_to_bottom() {
    let mut app = app_named("a");
    app.connection = ConnectionState::Connected { server_url: "ws://ws://host:9".into() };
    let p = sidebar_panel(&app, 20);
    let t = texts(&p);
    assert_eq!(t.len(), 20);
    assert_eq!(t[0], " SERVERS");
    assert_eq!(t[1], " ▼ host:9");
    assert_eq!(t[4], "    ROOMS");
    assert_eq!(t[5], "    # general");
    assert_eq!(t[7], "    DIRECT MESSAGES");
    assert_eq!(t[8], "    (none)");
    assert_eq!(t[18], " + add server…");
    assert_eq!(t[19], " 🔍 search   ⚙ settings   ? help");
    // The active room is highlighted.
    assert_eq!(p.lines[5][0].style.bg, Some(app.theme.overlay));
    // A short sidebar puts the footer right after the list.
    let short = texts(&sidebar_panel(&app, 5));
    assert_eq!(short.len(), 12);
    assert_eq!(short[9], "");
    assert_eq!(short[10], " + add server…");
    app.connection = ConnectionState::Connecting;
    assert_eq!(texts(&sidebar_panel(&app, 20))[1], " ▼ —");
}

#[test]
fn tab_strip_wraps_and_elides() {
    let mut app = app_named("a");
    assert_eq!(texts(&tab_strip_panel(&app, 80)), vec![" # general   ? help  "]);
    // Narrow strip: each tab on its own line.
    assert_eq!(texts(&tab_strip_panel(&app, 12)), vec![" # general  ", " ? help  "]);
    // Many tabs in a narrow strip: three lines, then an ellipsis.
    for i in 0..6 {
        app.buffers.push(room(&format!("#r{i}")));
    }
    let t = texts(&tab_strip_panel(&app, 12));
    assert_eq!(t, vec![" # general  ", " ? help  ", " #r0   #r1  ", " … "]);
    // The active tab is bold on the overlay colour.
    let p = tab_strip_panel(&app, 200);
    assert!(p.lines[0][0].style.bold);
    assert!(!p.lines[0][2].style.bold);
}

#[test]
fn room_header_shows_binding_and_topic() {
    let mut app = app_named("a");
    assert_eq!(texts(&room_header_panel(&app).unwrap()), vec![" # general "]);
    if let Buffer::Room(rb) = &mut app.buffers[0] {
        rb.repo_binding = Some(RepoBinding { repo_name: "spaze".into(), subpath: None });
        rb.topic = Some("chat".into());
    }
    assert_eq!(
        texts(&room_header_panel(&app).unwrap()),
        vec![" # general · spaze  — chat"]
    );
    if let Buffer::Room(rb) = &mut app.buffers[0] {
        rb.repo_binding = Some(RepoBinding { repo_name: "spaze".into(), subpath: Some("src".into()) });
        rb.topic = None;
    }
    assert_eq!(texts(&room_header_panel(&app).unwrap()), vec![" # general · src/"]);
    app.active = 1;
    assert!(room_header_panel(&app).is_none());
}

#[test]
fn input_line_colours_follow_classification() {
    let mut app = app_named("a");
    let reg = registry();
    app.input_buffer = "/quit".into();
    let p = input_panel(&app, &reg);
    assert_eq!(texts(&p), vec!["› /quit"]);
    assert_eq!(p.lines[0][1].style.fg, Some(app.theme.success));
    app.input_buffer = "/nope".into();
    assert_eq!(input_panel(&app, &reg).lines[0][1].style.fg, Some(app.theme.error));
    app.input_buffer = "hi".into();
    assert_eq!(input_panel(&app, &reg).lines[0][1].style.fg, Some(app.theme.foreground));
    app.mode = InputMode::Insert;
    assert!(input_panel(&app, &reg).lines[0][0].style.bold);
}

#[test]
fn help_text_lists_keybindings_right_aligned() {
    let app = app_named("a");
    let lines = app.buffers[1].render(&app.theme);
    assert_eq!(lines.len(), 2 + keybinding_table().len());
    let first: String = lines[0].iter().map(|s| s.text.as_str()).collect();
    assert_eq!(first, "Spaze · Phase 1.B keybindings");
    let tab: String = lines[2].iter().map(|s| s.text.as_str()).collect();
    assert_eq!(tab, "               Tab  next tab");
    let last: String = lines[14].iter().map(|s| s.text.as_str()).collect();
    assert_eq!(last, "    j/k or Up/Down  scroll help text");
}

#[test]
fn timeline_window_keeps_newest_lines_visible() {
    assert_eq!(first_visible_row(5, 10, 0), 0);
    assert_eq!(first_visible_row(30, 10, 0), 20);
    assert_eq!(first_visible_row(30, 10, 5), 15);
    assert_eq!(first_visible_row(30, 10, u16::MAX), 0);
}

fn message(body: MessageBody) -> Message {
    Message {
        id: MessageId::from_uuid(1),
        room_id: RoomId::from_uuid(2),
        author_id: UserId::from_uuid(0xabcdef01_2345_0000_0000_0000_0000_0000),
        author_device_id: DeviceId::from_uuid(3),
        author_display_name: "andreas".into(),
        created_at_ms: 0,
        edited_at_ms: None,
        deleted_at_ms: None,
        body,
    }
}

#[test]
fn plain_output_prints_posts_and_errors() {
    let m = message(MessageBody::Text { content: "hello".into() });
    assert_eq!(print_message(&m), Some("<abcdef01> hello".to_string()));
    let s = message(MessageBody::System { content: "note".into() });
    assert_eq!(print_message(&s), Some("-- system: note".to_string()));
    let a = message(MessageBody::Action { content: "waves".into() });
    assert_eq!(print_message(&a), None);
    assert_eq!(
        render_frame(&ServerFrame::Event(ServerEvent::MessagePosted(m.clone()))),
        Some(OutputLine::Stdout("<abcdef01> hello".into()))
    );
    assert_eq!(
        render_frame(&ServerFrame::Response {
            request_id: RequestId(1),
            result: CommandOutcome::Failed { error: ProtocolError::PermissionDenied },
        }),
        Some(OutputLine::Stderr("error: permission denied".into()))
    );
    assert_eq!(
        render_frame(&ServerFrame::Response {
            request_id: RequestId(1),
            result: CommandOutcome::Succeeded { payload: ResponsePayload::Empty },
        }),
        None
    );
}

#[test]
fn mention_rows_use_mention_colour() {
    let mut rb = RoomTimelineBuffer::new(RoomId::from_uuid(1), "# r".into(), RoomKind::Standard, "Beth".into());
    rb.push_message(message(MessageBody::Text { content: "hi @beth".into() }));
    rb.push_message(message(MessageBody::Text { content: "hi all".into() }));
    let t = catppuccin_mocha();
    let lines = rb.render(&t);
    assert_eq!(lines[0][0].text, "<andreas> hi @beth");
    assert_eq!(lines[0][0].style.fg, Some(t.mention));
    assert_eq!(lines[1][0].style.fg, None);
}

#[test]
fn screen_regions_follow_the_layout() {
    let area = Rect { x: 0, y: 0, width: 80, height: 24 };
    let r = screen_regions(area, true, true);
    assert_eq!(
        r,
        ScreenRegions {
            topbar: Rect { x: 0, y: 0, width: 80, height: 1 },
            sidebar: Some(Rect { x: 0, y: 1, width: 24, height: 22 }),
            tabs: Rect { x: 24, y: 1, width: 56, height: 2 },
            room_header: Some(Rect { x: 24, y: 3, width: 56, height: 1 }),
            buffer: Rect { x: 24, y: 4, width: 56, height: 18 },
            input: Rect { x: 24, y: 22, width: 56, height: 1 },
            status_left: Rect { x: 0, y: 23, width: 40, height: 1 },
            status_right: Rect { x: 40, y: 23, width: 40, height: 1 },
        }
    );
    let r = screen_regions(area, false, false);
    assert_eq!(r.sidebar, None);
    assert_eq!(r.room_header, None);
    assert_eq!(r.tabs, Rect { x: 0, y: 1, width: 80, height: 2 });
    assert_eq!(r.buffer, Rect { x: 0, y: 3, width: 80, height: 19 });
    assert_eq!(r.input, Rect { x: 0, y: 22, width: 80, height: 1 });
    assert_eq!(notice_row(Rect { x: 0, y: 0, width: 40, height: 11 }).height, 1);
    assert_eq!(notice_row(Rect { x: 0, y: 0, width: 40, height: 11 }).width, 40);
}
