use netrat::pump::FailureKind;
use netrat::pump::Pump;
use netrat::pump::PumpAction;
use netrat::pump::PumpPhase;
use netrat::pump::ReadEvent;
use netrat::relay::Relay;
use netrat::session::Session;

/// Feeds one chunk through a pump and returns the forwarded bytes.
fn forward_chunk(pump: &mut Pump, bytes: &[u8]) -> Vec<u8> {
    match pump.on_read(ReadEvent::Data(bytes.to_vec())) {
        PumpAction::Forward(out) => {
            pump.on_write(true);
            out
        }
        _ => panic!("data must be forwarded"),
    }
}

#[test]
fn pump_forwards_bytes_in_order() {
    let mut pump = Pump::new();
    let mut sink: Vec<u8> = Vec::new();
    for chunk in [&b"he"[..], &b"llo "[..], &b"world"[..]] {
        sink.extend(forward_chunk(&mut pump, chunk));
    }
    assert_eq!(sink, b"hello world");
    match pump.on_read(ReadEvent::Eof) {
        PumpAction::HalfClose => {}
        _ => panic!("end of input must half-close"),
    }
    assert!(pump.is_done());
    assert!(pump.closed_cleanly());
    assert_eq!(pump.failure(), None);
}

#[test]
fn pump_aborts_on_read_error() {
    let mut pump = Pump::new();
    match pump.on_read(ReadEvent::ReadError) {
        PumpAction::Abort => {}
        _ => panic!("a failed read must abort"),
    }
    assert!(pump.is_done());
    assert!(!pump.closed_cleanly());
    assert_eq!(pump.failure(), Some(FailureKind::Read));
}

#[test]
fn pump_aborts_on_write_error() {
    let mut pump = Pump::new();
    match pump.on_read(ReadEvent::Data(b"x".to_vec())) {
        PumpAction::Forward(_) => pump.on_write(false),
        _ => panic!("data must be forwarded"),
    }
    assert!(pump.is_done());
    assert!(!pump.closed_cleanly());
    assert_eq!(pump.phase(), PumpPhase::Failed);
    assert_eq!(pump.failure(), Some(FailureKind::Write));
}

#[test]
fn session_closes_only_when_both_directions_end() {
    let mut session = Session::new();
    assert!(!session.is_closed());

    // The terminal types a line; it goes out to the socket.
    match session.on_local_read(ReadEvent::Data(b"hi\n".to_vec())) {
        PumpAction::Forward(bytes) => {
            assert_eq!(bytes, b"hi\n");
            session.on_remote_write(true);
        }
        _ => panic!("data must be forwarded"),
    }

    // The terminal reaches end of input: half-close, but no session close.
    match session.on_local_read(ReadEvent::Eof) {
        PumpAction::HalfClose => {}
        _ => panic!("end of input must half-close"),
    }
    assert!(!session.is_closed());

    // Bytes still in flight from the remote side are delivered.
    match session.on_remote_read(ReadEvent::Data(b"bye\n".to_vec())) {
        PumpAction::Forward(bytes) => {
            assert_eq!(bytes, b"bye\n");
            session.on_local_write(true);
        }
        _ => panic!("data must be forwarded"),
    }
    assert!(!session.is_closed());

    // The remote closes too; only now is the session over.
    match session.on_remote_read(ReadEvent::Eof) {
        PumpAction::HalfClose => {}
        _ => panic!("remote end of input must half-close"),
    }
    assert!(session.is_closed());
}

#[test]
fn ping_pong_session() {
    // Client sends "ping" over a TCP session to a server; the server's
    // terminal shows it; the operator answers "pong"; the client's
    // terminal shows that; each side's close leaves the other working.
    let mut client = Session::new();
    let mut server = Session::new();

    // Client terminal types "ping"; the bytes go to the socket.
    let on_wire = match client.on_local_read(ReadEvent::Data(b"ping".to_vec())) {
        PumpAction::Forward(bytes) => {
            client.on_remote_write(true);
            bytes
        }
        _ => panic!("data must be forwarded"),
    };

    // The server reads those bytes and its terminal shows "ping".
    let server_terminal = match server.on_remote_read(ReadEvent::Data(on_wire)) {
        PumpAction::Forward(bytes) => {
            server.on_local_write(true);
            bytes
        }
        _ => panic!("data must be forwarded"),
    };
    assert_eq!(server_terminal, b"ping");

    // The operator types "pong"; it travels back the same way.
    let on_wire = match server.on_local_read(ReadEvent::Data(b"pong".to_vec())) {
        PumpAction::Forward(bytes) => {
            server.on_remote_write(true);
            bytes
        }
        _ => panic!("data must be forwarded"),
    };
    let client_terminal = match client.on_remote_read(ReadEvent::Data(on_wire)) {
        PumpAction::Forward(bytes) => {
            client.on_local_write(true);
            bytes
        }
        _ => panic!("data must be forwarded"),
    };
    assert_eq!(client_terminal, b"pong");

    // The client closes its input; the server can still deliver.
    client.on_local_read(ReadEvent::Eof);
    assert!(!client.is_closed());
    let on_wire = match server.on_local_read(ReadEvent::Data(b"late\n".to_vec())) {
        PumpAction::Forward(bytes) => {
            server.on_remote_write(true);
            bytes
        }
        _ => panic!("data must be forwarded"),
    };
    match client.on_remote_read(ReadEvent::Data(on_wire)) {
        PumpAction::Forward(bytes) => {
            assert_eq!(bytes, b"late\n");
            client.on_local_write(true);
        }
        _ => panic!("data must be forwarded"),
    }
}

#[test]
fn session_split_and_join() {
    let session = Session::new();
    let (mut to_local, mut to_remote) = session.split();
    forward_chunk(&mut to_local, b"from remote");
    to_remote.on_read(ReadEvent::Eof);
    let joined = Session::join(to_local, to_remote);
    assert!(!joined.is_closed());
}

#[test]
fn relay_passes_bytes_both_ways_unmodified() {
    let mut relay = Relay::new();

    match relay.on_client_read(ReadEvent::Data(b"request".to_vec())) {
        PumpAction::Forward(bytes) => {
            assert_eq!(bytes, b"request");
            relay.on_target_write(true);
        }
        _ => panic!("data must be forwarded"),
    }
    match relay.on_target_read(ReadEvent::Data(b"response".to_vec())) {
        PumpAction::Forward(bytes) => {
            assert_eq!(bytes, b"response");
            relay.on_client_write(true);
        }
        _ => panic!("data must be forwarded"),
    }
    assert!(!relay.is_finished());

    // Closing the client endpoint ends the direction it feeds, while
    // the target-to-client direction keeps draining.
    match relay.on_client_read(ReadEvent::Eof) {
        PumpAction::HalfClose => {}
        _ => panic!("end of input must half-close"),
    }
    assert!(!relay.is_finished());
    match relay.on_target_read(ReadEvent::Data(b"tail".to_vec())) {
        PumpAction::Forward(bytes) => {
            assert_eq!(bytes, b"tail");
            relay.on_client_write(true);
        }
        _ => panic!("data must be forwarded"),
    }
    match relay.on_target_read(ReadEvent::Eof) {
        PumpAction::HalfClose => {}
        _ => panic!("end of input must half-close"),
    }
    assert!(relay.is_finished());
}
