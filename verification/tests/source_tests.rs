use hyrcon_client::codec::{decode_packet_body, encode_packet, SourcePacket};
use hyrcon_client::error::RconError;
use hyrcon_client::source::{AuthStep, CommandStep, SourceSession};
use hyrcon_client::transport::AuthOutcome;

fn packet(id: i32, kind: i32, payload: &str) -> SourcePacket {
    SourcePacket { id, kind, payload: payload.to_string() }
}

#[test]
fn source_end_to_end() {
    let mut session = SourceSession::new();
    assert!(!session.is_closed());
    assert!(!session.is_authenticated());

    // AUTH packet id=1 type=3 payload="secret".
    let (auth_id, auth_frame) = session.begin_auth("secret").unwrap();
    assert_eq!(auth_id, 1);
    assert_eq!(auth_frame, encode_packet(1, 3, "secret").unwrap());

    // Server replies one packet id=1 type=2 payload="".
    let step = session.auth_step(auth_id, &packet(1, 2, ""));
    assert_eq!(step, AuthStep::Decided(AuthOutcome::Success));
    assert!(session.is_authenticated());

    // EXECCOMMAND id=2 payload="say hi", then the sentinel id=3 payload="".
    let request = session.begin_command("say hi").unwrap();
    assert_eq!(request.command_id, 2);
    assert_eq!(request.sentinel_id, 3);
    assert_eq!(request.command_frame, encode_packet(2, 2, "say hi").unwrap());
    assert_eq!(request.sentinel_frame, encode_packet(3, 2, "").unwrap());

    // Server replies id=2 type=0 payload="ok\n", then id=3 type=0 payload="".
    let mut lines: Vec<String> = Vec::new();
    let step = session
        .command_step(request.command_id, request.sentinel_id, &packet(2, 0, "ok\n"), &mut lines)
        .unwrap();
    assert_eq!(step, CommandStep::Continue);
    let step = session
        .command_step(request.command_id, request.sentinel_id, &packet(3, 0, ""), &mut lines)
        .unwrap();
    assert_eq!(step, CommandStep::Done);
    assert_eq!(lines, vec!["ok"]);
}

#[test]
fn auth_loop_skips_stray_packets() {
    let mut session = SourceSession::new();
    let (auth_id, _) = session.begin_auth("pw").unwrap();
    // A stray response value and packets with unknown ids or kinds are
    // ignored; only a decisive AUTH_RESPONSE ends the loop.
    assert_eq!(session.auth_step(auth_id, &packet(0, 0, "stray")), AuthStep::Continue);
    assert_eq!(session.auth_step(auth_id, &packet(99, 2, "")), AuthStep::Continue);
    assert_eq!(session.auth_step(auth_id, &packet(5, 7, "")), AuthStep::Continue);
    assert!(!session.is_authenticated());
    assert_eq!(
        session.auth_step(auth_id, &packet(-1, 2, "")),
        AuthStep::Decided(AuthOutcome::Failure)
    );
    assert!(!session.is_authenticated());
}

#[test]
fn source_validates_before_writing() {
    let mut session = SourceSession::new();
    assert_eq!(session.begin_auth("a\rb").unwrap_err(), RconError::NewlineInPassword);
    assert_eq!(session.begin_auth("a\0b").unwrap_err(), RconError::NulInPassword);

    // Commands need authentication first.
    assert_eq!(session.begin_command("status").unwrap_err(), RconError::NotAuthenticated);

    let (auth_id, _) = session.begin_auth("pw").unwrap();
    session.auth_step(auth_id, &packet(auth_id, 2, ""));

    assert_eq!(session.begin_command("   ").unwrap_err(), RconError::EmptyCommand);
    assert_eq!(session.begin_command("say\nhi").unwrap_err(), RconError::NewlineInCommand);
    assert_eq!(session.begin_command("say\0hi").unwrap_err(), RconError::NulInCommand);

    session.mark_closed();
    assert_eq!(session.begin_command("status").unwrap_err(), RconError::SessionClosed);
    assert_eq!(session.begin_auth("pw").unwrap_err(), RconError::SessionClosed);
}

#[test]
fn response_collection_handles_surprises() {
    let mut session = SourceSession::new();
    let (auth_id, _) = session.begin_auth("pw").unwrap();
    session.auth_step(auth_id, &packet(auth_id, 2, ""));
    let request = session.begin_command("status").unwrap();
    let mut lines: Vec<String> = Vec::new();

    // Unrelated packets are ignored.
    let step = session
        .command_step(request.command_id, request.sentinel_id, &packet(77, 0, "noise"), &mut lines)
        .unwrap();
    assert_eq!(step, CommandStep::Continue);
    assert!(lines.is_empty());

    // Multi-packet payloads accumulate in arrival order.
    session
        .command_step(
            request.command_id,
            request.sentinel_id,
            &packet(request.command_id, 0, "first\r\nsecond\n"),
            &mut lines,
        )
        .unwrap();
    session
        .command_step(
            request.command_id,
            request.sentinel_id,
            &packet(request.command_id, 0, "third"),
            &mut lines,
        )
        .unwrap();
    assert_eq!(lines, vec!["first", "second", "third"]);

    // A sentinel answer of the wrong shape is a protocol violation.
    let bad_kind = session.command_step(
        request.command_id,
        request.sentinel_id,
        &packet(request.sentinel_id, 2, ""),
        &mut lines,
    );
    assert_eq!(bad_kind.unwrap_err(), RconError::SentinelKindMismatch(2));
    let bad_payload = session.command_step(
        request.command_id,
        request.sentinel_id,
        &packet(request.sentinel_id, 0, "extra"),
        &mut lines,
    );
    assert_eq!(bad_payload.unwrap_err(), RconError::SentinelPayloadNotEmpty);
}

#[test]
fn deauthentication_fails_the_call() {
    let mut session = SourceSession::new();
    let (auth_id, _) = session.begin_auth("pw").unwrap();
    session.auth_step(auth_id, &packet(auth_id, 2, ""));
    let request = session.begin_command("status").unwrap();
    let mut lines: Vec<String> = Vec::new();

    let revoked = session.command_step(
        request.command_id,
        request.sentinel_id,
        &packet(-1, 2, ""),
        &mut lines,
    );
    assert_eq!(revoked.unwrap_err(), RconError::AuthInvalidated);
    assert!(!session.is_authenticated());
    assert_eq!(session.begin_command("again").unwrap_err(), RconError::NotAuthenticated);
}

#[test]
fn request_ids_advance_per_request() {
    let mut session = SourceSession::new();
    let (first_auth, _) = session.begin_auth("pw").unwrap();
    assert_eq!(first_auth, 1);
    session.auth_step(first_auth, &packet(first_auth, 2, ""));
    let a = session.begin_command("one").unwrap();
    let b = session.begin_command("two").unwrap();
    assert_eq!((a.command_id, a.sentinel_id), (2, 3));
    assert_eq!((b.command_id, b.sentinel_id), (4, 5));
    assert_ne!(b.command_id, b.sentinel_id);
}

#[test]
fn decoded_packets_feed_the_session() {
    // A frame straight off the wire drives the state machine.
    let mut session = SourceSession::new();
    let (auth_id, _) = session.begin_auth("pw").unwrap();
    let reply = encode_packet(auth_id, 2, "").unwrap();
    let decoded = decode_packet_body(&reply[4..]).unwrap();
    assert_eq!(
        session.auth_step(auth_id, &decoded),
        AuthStep::Decided(AuthOutcome::Success)
    );
}
