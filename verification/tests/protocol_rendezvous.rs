use netrat::address::Address;
use netrat::protocol::Protocol;
use netrat::pump::Pump;
use netrat::pump::PumpAction;
use netrat::pump::ReadEvent;
use netrat::rendezvous::Rendezvous;

#[test]
fn protocol_names_in_any_case() {
    assert_eq!(Protocol::from_str("tcp").unwrap(), Protocol::TCP);
    assert_eq!(Protocol::from_str("TCP").unwrap(), Protocol::TCP);
    assert_eq!(Protocol::from_str("Tcp").unwrap(), Protocol::TCP);
    assert_eq!(Protocol::from_str("udp").unwrap(), Protocol::UDP);
    assert_eq!(Protocol::from_str("UdP").unwrap(), Protocol::UDP);
}

#[test]
fn unsupported_protocol_is_rejected() {
    let result = Protocol::from_str("http");
    assert_eq!(result.unwrap_err(), "Unsupported Protocol");
    assert!(Protocol::from_str("").is_err());
    assert!(Protocol::from_str("tcp ").is_err());
}

#[test]
fn first_datagram_is_delivered_exactly_once() {
    let peer = Address { oct0: 10, oct1: 0, oct2: 0, oct3: 9, port: 9999 };
    let mut rendezvous = Rendezvous::server();
    assert!(!rendezvous.is_connected());
    assert_eq!(rendezvous.peer(), None);

    // The first datagram both announces the peer and carries real data.
    let mut local_output: Vec<u8> = Vec::new();
    let delivered = rendezvous.on_first_datagram(b"hello".to_vec(), peer);
    local_output.extend(delivered);
    assert!(rendezvous.is_connected());
    assert_eq!(rendezvous.peer(), Some(peer));

    // The session then pumps the later datagrams; the first payload is
    // not seen again.
    let mut to_local = Pump::new();
    for chunk in [&b" world"[..], &b"!"[..]] {
        match to_local.on_read(ReadEvent::Data(chunk.to_vec())) {
            PumpAction::Forward(bytes) => {
                local_output.extend(bytes);
                to_local.on_write(true);
            }
            _ => panic!("data must be forwarded"),
        }
    }
    assert_eq!(local_output, b"hello world!");
}

#[test]
fn client_role_skips_the_rendezvous() {
    let peer = Address { oct0: 127, oct1: 0, oct2: 0, oct3: 1, port: 8080 };
    let rendezvous = Rendezvous::client(peer);
    assert!(rendezvous.is_connected());
    assert_eq!(rendezvous.peer(), Some(peer));
}
