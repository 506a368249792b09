use connor::{reader_step, ReaderAction, ReaderInput, RpcKind, SessionState};

#[test]
fn open_session_handles_client_kinds() {
    let (state, action) = reader_step(SessionState::Open, ReaderInput::Frame(b"1{\"service_name\":\"svc\"}".to_vec()));
    assert_eq!(state, SessionState::Open);
    assert_eq!(
        action,
        ReaderAction::Handle { kind: RpcKind::Discovery, body: "{\"service_name\":\"svc\"}".to_string() }
    );
}

#[test]
fn open_session_skips_server_push_kinds() {
    for p in [&b"5{}"[..], &b"6{}"[..], &b"8{}"[..]] {
        let (state, action) = reader_step(SessionState::Open, ReaderInput::Frame(p.to_vec()));
        assert_eq!(state, SessionState::Open);
        assert_eq!(action, ReaderAction::Skip);
    }
}

#[test]
fn open_session_skips_unknown_kind() {
    let (state, action) = reader_step(SessionState::Open, ReaderInput::Frame(b"9{}".to_vec()));
    assert_eq!((state, action), (SessionState::Open, ReaderAction::Skip));
}

#[test]
fn malformed_payload_closes() {
    let (state, action) = reader_step(SessionState::Open, ReaderInput::Frame(vec![b'0', 0xff]));
    assert_eq!((state, action), (SessionState::Closing, ReaderAction::Close));
    let (state, action) = reader_step(SessionState::Open, ReaderInput::Frame(vec![]));
    assert_eq!((state, action), (SessionState::Closing, ReaderAction::Close));
}

#[test]
fn rejected_body_and_stream_end_close() {
    assert_eq!(
        reader_step(SessionState::Open, ReaderInput::BodyRejected),
        (SessionState::Closing, ReaderAction::Close)
    );
    assert_eq!(
        reader_step(SessionState::Open, ReaderInput::StreamEnded),
        (SessionState::Closing, ReaderAction::Close)
    );
}

#[test]
fn closing_then_closed() {
    assert_eq!(
        reader_step(SessionState::Closing, ReaderInput::Frame(b"0{}".to_vec())),
        (SessionState::Closing, ReaderAction::Skip)
    );
    let closed = SessionState::Closing.responders_cancelled();
    assert_eq!(closed, SessionState::Closed);
    assert!(!closed.may_write());
    assert!(SessionState::Open.may_write());
    assert!(SessionState::Closing.may_write());
    assert_eq!(SessionState::Open.responders_cancelled(), SessionState::Open);
    assert_eq!(
        reader_step(SessionState::Closed, ReaderInput::StreamEnded),
        (SessionState::Closed, ReaderAction::Skip)
    );
}
