//! UDP rendezvous: how a datagram listener finds its one correspondent.
//!
//! A datagram socket has no accept step, so in server role the first
//! datagram is the only discovery mechanism: its payload is real data
//! and is delivered to the local output, its source address becomes the
//! session's one peer, and from then on the socket behaves as a
//! connected endpoint.  In client role the peer is known up front and
//! the rendezvous is already connected.  [`lemma_first_payload_delivered_once`]
//! states that the first payload reaches the output exactly once, ahead
//! of the session's own traffic.

use vstd::prelude::*;

use crate::address::Address;
use crate::pump::deliver_all;
use crate::pump::lemma_pump_preserves_stream;
use crate::pump::pump_init;
use crate::pump::read_eof;

verus! {

/// Whether the socket is still waiting for its first correspondent.
#[derive(Clone, Copy, Debug, PartialEq, Eq, Structural)]
pub enum RendezvousPhase {
    /// Server role, before the first datagram: the peer is unknown.
    Waiting,
    /// The socket is fixed to one peer for the rest of the session.
    Connected,
}

/// Mathematical model of a rendezvous.
pub struct RendezvousModel {
    /// Whether the peer has been fixed.
    pub phase: RendezvousPhase,
    /// The one correspondent, once known.
    pub peer: Option<Address>,
    /// Every byte the rendezvous itself delivered to the local output.
    pub emitted: Seq<u8>,
}

/// Transition for the first datagram: its payload is emitted and its
/// source becomes the session's peer.
pub open spec fn accept_first(m: RendezvousModel, payload: Seq<u8>, source: Address) -> RendezvousModel {
    RendezvousModel {
        phase: RendezvousPhase::Connected,
        peer: Some(source),
        emitted: m.emitted + payload,
    }
}

/// The rendezvous step of one UDP session.
pub struct Rendezvous {
    phase: RendezvousPhase,
    peer: Option<Address>,
    emitted: Ghost<Seq<u8>>,
}

impl View for Rendezvous {
    type V = RendezvousModel;

    closed spec fn view(&self) -> RendezvousModel {
        RendezvousModel { phase: self.phase, peer: self.peer, emitted: self.emitted@ }
    }
}

impl Rendezvous {
    /// Server role: bound, but not yet fixed to any correspondent.
    pub fn server() -> (r: Rendezvous)
        ensures
            r@.phase == RendezvousPhase::Waiting,
            r@.peer is None,
            r@.emitted == Seq::<u8>::empty(),
    {
        Rendezvous { phase: RendezvousPhase::Waiting, peer: None, emitted: Ghost(Seq::empty()) }
    }

    /// Client role: the peer was specified up front, there is no first
    /// datagram to wait for, and nothing is emitted before the session.
    pub fn client(peer: Address) -> (r: Rendezvous)
        ensures
            r@.phase == RendezvousPhase::Connected,
            r@.peer == Some(peer),
            r@.emitted == Seq::<u8>::empty(),
    {
        Rendezvous {
            phase: RendezvousPhase::Connected,
            peer: Some(peer),
            emitted: Ghost(Seq::empty()),
        }
    }

    /// Handle the first datagram: its payload — real data, not a
    /// handshake — is returned for delivery to the local output, and
    /// the socket is fixed to the datagram's source.  The phase moves
    /// to connected, so this step cannot happen a second time.
    pub fn on_first_datagram(&mut self, payload: Vec<u8>, source: Address) -> (out: Vec<u8>)
        requires
            old(self)@.phase == RendezvousPhase::Waiting,
        ensures
            out == payload,
            final(self)@ == accept_first(old(self)@, payload@, source),
    {
        self.phase = RendezvousPhase::Connected;
        self.peer = Some(source);
        self.emitted = Ghost(self.emitted@ + payload@);
        payload
    }

    /// The session's one peer, once fixed.
    pub fn peer(&self) -> (p: Option<Address>)
        ensures
            p == self@.peer,
    {
        self.peer
    }

    /// Whether the socket is fixed to a peer and the interactive
    /// session can begin.
    pub fn is_connected(&self) -> (connected: bool)
        ensures
            connected == (self@.phase == RendezvousPhase::Connected),
    {
        self.phase == RendezvousPhase::Connected
    }
}

/// LAW (the first payload is delivered exactly once).  A server-role
/// rendezvous that receives its first datagram and hands off to a
/// session whose socket-to-terminal pump then delivers `later` puts the
/// payload at the very front of the local output, once, followed by
/// exactly the session's own traffic; and the rendezvous ends connected
/// to the datagram's source, so no second first-datagram step exists.
pub proof fn lemma_first_payload_delivered_once(
    m: RendezvousModel,
    payload: Seq<u8>,
    source: Address,
    later: Seq<Seq<u8>>,
)
    requires
        m.phase == RendezvousPhase::Waiting,
        m.emitted == Seq::<u8>::empty(),
    ensures
        ({
            let handed_off = accept_first(m, payload, source);
            let whole = handed_off.emitted + read_eof(
                deliver_all(pump_init(), later),
            ).delivered;
            &&& handed_off.emitted == payload
            &&& whole == payload + later.flatten()
            &&& whole.subrange(0, payload.len() as int) == payload
            &&& handed_off.phase == RendezvousPhase::Connected
            &&& handed_off.peer == Some(source)
        }),
{
    lemma_pump_preserves_stream(later);
    assert(Seq::<u8>::empty() + payload =~= payload);
    let whole = accept_first(m, payload, source).emitted + read_eof(
        deliver_all(pump_init(), later),
    ).delivered;
    assert(whole.subrange(0, payload.len() as int) =~= payload);
}

} // verus!
