//! Core engine of a small command-line network utility.
//!
//! The crate models and verifies the decision logic of a socket tool:
//! the bidirectional byte pump shared by TCP and UDP sessions and by the
//! relay, the session coordinator that joins the two directions, the UDP
//! rendezvous that fixes a datagram socket to its first correspondent,
//! and the concurrent port scanner's enumeration and aggregation rules.
//! The blocking reads, writes and thread plumbing live outside the
//! library; they drive these types one event at a time.

pub mod address;
pub mod commands;
pub mod port_scanner;
pub mod protocol;
pub mod pump;
pub mod relay;
pub mod rendezvous;
pub mod session;
pub mod text;

pub use address::Address;
pub use port_scanner::PortScanner;
pub use protocol::Protocol;
pub use pump::FailureKind;
pub use pump::Pump;
pub use pump::PumpAction;
pub use pump::PumpPhase;
pub use pump::ReadEvent;
pub use relay::Relay;
pub use rendezvous::Rendezvous;
pub use session::Session;
