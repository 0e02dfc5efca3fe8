use spaze::proto::{
    ClientCommand, ClientFrame, CommandOutcome, DeviceId, Message, MessageBody, MessageId,
    ProtocolError, RequestId, ResponsePayload, RoomId, ServerEvent, ServerFrame, UserId,
    PROTOCOL_VERSION,
};
use spaze::server::{
    answer_text, handle_command, now_unix_ms, on_broadcast, on_socket, parse_failure_response,
    respond_to_command, BroadcastInput, ConnectionAction, ConnectionId, SocketInput,
};
use spaze::server::time::millis_to_i64;
use spaze::clock::clock_millis;

#[test]
fn ids_are_unique_per_call() {
    let a = UserId::new().unwrap();
    let b = UserId::new().unwrap();
    assert_ne!(a, b, "two fresh UserIds must not collide");
}

#[test]
fn protocol_error_displays_human_readable() {
    let err = ProtocolError::RateLimited { retry_after_secs: 30 };
    assert_eq!(err.to_string(), "rate limited; retry after 30s");
}

#[test]
fn now_unix_ms_is_positive_and_advances() {
    let a = now_unix_ms().unwrap();
    let b = now_unix_ms().unwrap();
    assert!(a > 1_700_000_000_000, "timestamp should be after Nov 2023");
    assert!(b >= a, "time should be non-decreasing");
}

// Extra cases.

#[test]
fn every_protocol_error_has_its_text() {
    assert_eq!(ProtocolError::NotAuthenticated.to_string(), "not authenticated");
    assert_eq!(ProtocolError::PermissionDenied.to_string(), "permission denied");
    assert_eq!(
        ProtocolError::NotFound { what: "channel".into() }.to_string(),
        "not found: channel"
    );
    assert_eq!(
        ProtocolError::InvalidRequest { message: "bad".into() }.to_string(),
        "invalid request: bad"
    );
    assert_eq!(
        ProtocolError::RateLimited { retry_after_secs: 0 }.to_string(),
        "rate limited; retry after 0s"
    );
    assert_eq!(
        ProtocolError::RateLimited { retry_after_secs: u32::MAX }.to_string(),
        "rate limited; retry after 4294967295s"
    );
    assert_eq!(ProtocolError::InternalError.to_string(), "internal server error");
}

#[test]
fn fresh_ids_are_version_7() {
    let u = UserId::new().unwrap().as_uuid();
    assert_eq!((u >> 76) & 0xf, 7);
    let m = MessageId::new().unwrap().as_uuid();
    assert_eq!((m >> 76) & 0xf, 7);
    let r = RoomId::new().unwrap().as_uuid();
    assert_eq!((r >> 76) & 0xf, 7);
    let d = DeviceId::new().unwrap().as_uuid();
    assert_eq!((d >> 76) & 0xf, 7);
}

#[test]
fn from_uuid_roundtrips() {
    let v: u128 = 0x0123_4567_89ab_cdef_0123_4567_89ab_cdef;
    assert_eq!(UserId::from_uuid(v).as_uuid(), v);
    assert_eq!(MessageId::from_uuid(v).as_uuid(), v);
}

#[test]
fn protocol_version_is_one() {
    assert_eq!(PROTOCOL_VERSION, 1);
}

#[test]
fn millis_beyond_i64_do_not_fit() {
    assert_eq!(millis_to_i64(Some(5)), Some(5));
    assert_eq!(millis_to_i64(Some(i64::MAX as u128)), Some(i64::MAX));
    assert_eq!(millis_to_i64(Some(i64::MAX as u128 + 1)), None);
    assert_eq!(millis_to_i64(None), None);
}

fn post(request_id: u64, content: &str) -> ClientFrame {
    ClientFrame {
        request_id: RequestId(request_id),
        command: ClientCommand::PostMessage {
            room_id: RoomId::from_uuid(1),
            author_id: UserId::from_uuid(2),
            author_device_id: DeviceId::from_uuid(3),
            author_display_name: "andreas".into(),
            body: MessageBody::Text { content: content.into() },
        },
    }
}

#[test]
fn post_is_answered_and_broadcast_with_the_same_message() {
    let d = respond_to_command(post(7, "hi"), ConnectionId(4), MessageId::from_uuid(9), 1234);
    let expected = Message {
        id: MessageId::from_uuid(9),
        room_id: RoomId::from_uuid(1),
        author_id: UserId::from_uuid(2),
        author_device_id: DeviceId::from_uuid(3),
        author_display_name: "andreas".into(),
        created_at_ms: 1234,
        edited_at_ms: None,
        deleted_at_ms: None,
        body: MessageBody::Text { content: "hi".into() },
    };
    assert_eq!(
        d.response,
        ServerFrame::Response {
            request_id: RequestId(7),
            result: CommandOutcome::Succeeded {
                payload: ResponsePayload::MessagePosted(expected.clone()),
            },
        }
    );
    assert_eq!(d.broadcast, Some((ConnectionId(4), ServerEvent::MessagePosted(expected))));
}

#[test]
fn other_commands_are_not_implemented() {
    let frame = ClientFrame {
        request_id: RequestId(11),
        command: ClientCommand::JoinRoom { room_id: RoomId::from_uuid(5) },
    };
    let d = handle_command(frame, ConnectionId(1));
    assert_eq!(
        d.response,
        ServerFrame::Response {
            request_id: RequestId(11),
            result: CommandOutcome::Failed {
                error: ProtocolError::InvalidRequest {
                    message: "command not implemented in Phase 1.A".into(),
                },
            },
        }
    );
    assert!(d.broadcast.is_none());
}

#[test]
fn handle_command_stamps_post_with_current_time() {
    let d = handle_command(post(3, "yo"), ConnectionId(2));
    match d.response {
        ServerFrame::Response {
            request_id,
            result: CommandOutcome::Succeeded { payload: ResponsePayload::MessagePosted(m) },
        } => {
            assert_eq!(request_id, RequestId(3));
            assert!(m.created_at_ms > 1_700_000_000_000);
            assert_eq!(m.body, MessageBody::Text { content: "yo".into() });
            assert_eq!(d.broadcast, Some((ConnectionId(2), ServerEvent::MessagePosted(m))));
        }
        other => panic!("unexpected response: {other:?}"),
    }
}

#[test]
fn unparsable_text_gets_invalid_request_with_id_zero() {
    let f = parse_failure_response("expected value at line 1 column 1".into());
    assert_eq!(
        f,
        ServerFrame::Response {
            request_id: RequestId(0),
            result: CommandOutcome::Failed {
                error: ProtocolError::InvalidRequest {
                    message: "could not parse ClientFrame: expected value at line 1 column 1".into(),
                },
            },
        }
    );
    let d = answer_text(Err("oops".into()), ConnectionId(1));
    assert!(d.broadcast.is_none());
    assert!(matches!(
        d.response,
        ServerFrame::Response { request_id: RequestId(0), .. }
    ));
}

#[test]
fn socket_inputs_map_to_actions() {
    assert!(matches!(on_socket(SocketInput::Text("x".into())), ConnectionAction::Answer(t) if t == "x"));
    assert!(matches!(on_socket(SocketInput::Other), ConnectionAction::Continue));
    assert!(matches!(on_socket(SocketInput::Close), ConnectionAction::Stop));
    assert!(matches!(on_socket(SocketInput::Error), ConnectionAction::Stop));
    assert!(matches!(on_socket(SocketInput::Ended), ConnectionAction::Stop));
}

#[test]
fn broadcasts_skip_the_sender() {
    let ev = ServerEvent::MessagePosted(Message {
        id: MessageId::from_uuid(1),
        room_id: RoomId::from_uuid(1),
        author_id: UserId::from_uuid(1),
        author_device_id: DeviceId::from_uuid(1),
        author_display_name: "a".into(),
        created_at_ms: 0,
        edited_at_ms: None,
        deleted_at_ms: None,
        body: MessageBody::System { content: "s".into() },
    });
    match on_broadcast(ConnectionId(2), BroadcastInput::Event(ConnectionId(1), ev.clone())) {
        ConnectionAction::Send(f) => assert_eq!(f, ServerFrame::Event(ev.clone())),
        _ => panic!("event from another connection must be forwarded"),
    }
    assert!(matches!(
        on_broadcast(ConnectionId(1), BroadcastInput::Event(ConnectionId(1), ev)),
        ConnectionAction::Continue
    ));
    assert!(matches!(on_broadcast(ConnectionId(1), BroadcastInput::Lagged(3)), ConnectionAction::Continue));
    assert!(matches!(on_broadcast(ConnectionId(1), BroadcastInput::Closed), ConnectionAction::Stop));
}

#[test]
fn fresh_ids_carry_the_current_millisecond() {
    let before = now_unix_ms().unwrap() as u128;
    let id = MessageId::new().unwrap().as_uuid();
    let after = now_unix_ms().unwrap() as u128;
    let stamp = id >> 80;
    assert!(before <= stamp && stamp <= after, "{before} {stamp} {after}");
}

#[test]
fn millis_of_counts_whole_milliseconds() {
    assert_eq!(spaze::clock::millis_of(2, 999_999), 2000);
    assert_eq!(spaze::clock::millis_of(2, 1_000_000), 2001);
    assert_eq!(spaze::clock::millis_of(u64::MAX, 999_999_999), u64::MAX as u128 * 1000 + 999);
}

#[test]
fn clock_millis_rounds_down_and_clamps() {
    assert_eq!(clock_millis(true, 2, 999_999), 2000);
    assert_eq!(clock_millis(true, 2, 1_000_000), 2001);
    assert_eq!(clock_millis(false, 0, 1_500_000), -2);
    assert_eq!(clock_millis(false, 1, 0), -1000);
    assert_eq!(clock_millis(false, 0, 0), 0);
    assert_eq!(clock_millis(true, u64::MAX, 0), i64::MAX);
    assert_eq!(clock_millis(false, u64::MAX, 0), i64::MIN);
    let (after, secs, nanos) = spaze::clock::read_clock();
    assert!(after);
    assert!(clock_millis(after, secs, nanos) > 1_700_000_000_000);
}

#[test]
fn unix_ms_of_a_reading() {
    assert_eq!(spaze::server::unix_ms_of(true, 1_700_000_000, 123_456_789), Some(1_700_000_000_123));
    assert_eq!(spaze::server::unix_ms_of(false, 5, 0), None);
    assert_eq!(spaze::server::unix_ms_of(true, u64::MAX, 0), None);
}
