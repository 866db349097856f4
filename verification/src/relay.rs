//! The relay splicer: two network endpoints wired back to back.
//!
//! Unlike a session, neither side is the local terminal.  One pump
//! carries client bytes to the target, the other carries target bytes
//! to the client; each runs in its own runner over duplicated handles.
//! The laws here state that relayed bytes pass through unmodified in
//! both directions, and that end of input on either endpoint ends the
//! direction fed by it.

use vstd::prelude::*;

use crate::pump::Pump;
use crate::pump::PumpAction;
use crate::pump::PumpModel;
use crate::pump::PumpPhase;
use crate::pump::ReadEvent;
use crate::pump::deliver_all;
use crate::pump::lemma_deliver_all_flattens;
use crate::pump::pump_done;
use crate::pump::pump_init;
use crate::pump::read_data;
use crate::pump::read_eof;
use crate::pump::read_failed;
use crate::pump::write_result;

verus! {

/// Mathematical model of a relay: one pump model per direction.
pub struct RelayModel {
    /// client endpoint to target endpoint
    pub client_to_target: PumpModel,
    /// target endpoint to client endpoint
    pub target_to_client: PumpModel,
}

/// The state of a freshly spliced relay.
pub open spec fn relay_init() -> RelayModel {
    RelayModel { client_to_target: pump_init(), target_to_client: pump_init() }
}

/// A relay completes once both directions are done.
pub open spec fn relay_finished(m: RelayModel) -> bool {
    pump_done(m.client_to_target) && pump_done(m.target_to_client)
}

/// A bidirectional splice of one accepted client connection onto one
/// outbound target connection.
pub struct Relay {
    client_to_target: Pump,
    target_to_client: Pump,
}

impl View for Relay {
    type V = RelayModel;

    closed spec fn view(&self) -> RelayModel {
        RelayModel {
            client_to_target: self.client_to_target@,
            target_to_client: self.target_to_client@,
        }
    }
}

impl Relay {
    /// A relay with both directions open.
    pub fn new() -> (r: Relay)
        ensures
            r@ == relay_init(),
    {
        Relay { client_to_target: Pump::new(), target_to_client: Pump::new() }
    }

    /// Split the relay into its two directions, one per runner.
    pub fn split(self) -> (halves: (Pump, Pump))
        ensures
            halves.0@ == self@.client_to_target,
            halves.1@ == self@.target_to_client,
    {
        (self.client_to_target, self.target_to_client)
    }

    /// Rebuild the relay from its two directions once both runners have
    /// finished.
    pub fn join(client_to_target: Pump, target_to_client: Pump) -> (r: Relay)
        ensures
            r@.client_to_target == client_to_target@,
            r@.target_to_client == target_to_client@,
    {
        Relay { client_to_target, target_to_client }
    }

    /// Step the client-to-target direction with the outcome of one read
    /// from the client endpoint.  The opposite direction is untouched.
    pub fn on_client_read(&mut self, ev: ReadEvent) -> (action: PumpAction)
        requires
            old(self)@.client_to_target.phase == PumpPhase::Reading,
        ensures
            final(self)@.target_to_client == old(self)@.target_to_client,
            (match ev {
                ReadEvent::Data(b) => {
                    &&& action == PumpAction::Forward(b)
                    &&& final(self)@.client_to_target == read_data(old(self)@.client_to_target, b@)
                },
                ReadEvent::Eof => {
                    &&& action == PumpAction::HalfClose
                    &&& final(self)@.client_to_target == read_eof(old(self)@.client_to_target)
                },
                ReadEvent::ReadError => {
                    &&& action == PumpAction::Abort
                    &&& final(self)@.client_to_target == read_failed(old(self)@.client_to_target)
                },
            }),
    {
        self.client_to_target.on_read(ev)
    }

    /// Report the outcome of writing to the target endpoint.
    pub fn on_target_write(&mut self, ok: bool)
        requires
            old(self)@.client_to_target.phase == PumpPhase::Writing,
        ensures
            final(self)@.client_to_target == write_result(old(self)@.client_to_target, ok),
            final(self)@.target_to_client == old(self)@.target_to_client,
    {
        self.client_to_target.on_write(ok)
    }

    /// Step the target-to-client direction with the outcome of one read
    /// from the target endpoint.  The opposite direction is untouched.
    pub fn on_target_read(&mut self, ev: ReadEvent) -> (action: PumpAction)
        requires
            old(self)@.target_to_client.phase == PumpPhase::Reading,
        ensures
            final(self)@.client_to_target == old(self)@.client_to_target,
            (match ev {
                ReadEvent::Data(b) => {
                    &&& action == PumpAction::Forward(b)
                    &&& final(self)@.target_to_client == read_data(old(self)@.target_to_client, b@)
                },
                ReadEvent::Eof => {
                    &&& action == PumpAction::HalfClose
                    &&& final(self)@.target_to_client == read_eof(old(self)@.target_to_client)
                },
                ReadEvent::ReadError => {
                    &&& action == PumpAction::Abort
                    &&& final(self)@.target_to_client == read_failed(old(self)@.target_to_client)
                },
            }),
    {
        self.target_to_client.on_read(ev)
    }

    /// Report the outcome of writing to the client endpoint.
    pub fn on_client_write(&mut self, ok: bool)
        requires
            old(self)@.target_to_client.phase == PumpPhase::Writing,
        ensures
            final(self)@.target_to_client == write_result(old(self)@.target_to_client, ok),
            final(self)@.client_to_target == old(self)@.client_to_target,
    {
        self.target_to_client.on_write(ok)
    }

    /// Whether both directions of the splice are done.
    pub fn is_finished(&self) -> (finished: bool)
        ensures
            finished == relay_finished(self@),
    {
        self.client_to_target.is_done() && self.target_to_client.is_done()
    }
}

/// LAW (faithful splice).  Bytes sent by the client reach the target
/// exactly as read, and bytes sent by the target reach the client
/// exactly as read, each direction independently of the other.
pub proof fn lemma_relay_faithful(client_chunks: Seq<Seq<u8>>, target_chunks: Seq<Seq<u8>>)
    ensures
        deliver_all(pump_init(), client_chunks).delivered == client_chunks.flatten(),
        deliver_all(pump_init(), target_chunks).delivered == target_chunks.flatten(),
{
    lemma_deliver_all_flattens(pump_init(), client_chunks);
    lemma_deliver_all_flattens(pump_init(), target_chunks);
    assert(Seq::<u8>::empty() + client_chunks.flatten() =~= client_chunks.flatten());
    assert(Seq::<u8>::empty() + target_chunks.flatten() =~= target_chunks.flatten());
}

/// LAW (an endpoint's close ends the direction it feeds).  A direction
/// whose source reports end of input, or whose source or sink fails, is
/// done, and a done direction takes no further step: both read steps
/// from a reading state land in a done phase.
pub proof fn lemma_endpoint_close_ends_direction(m: PumpModel)
    requires
        m.phase == PumpPhase::Reading,
    ensures
        pump_done(read_eof(m)),
        pump_done(read_failed(m)),
        read_eof(m).delivered == m.delivered,
        read_failed(m).delivered == m.delivered,
{
}

} // verus!
