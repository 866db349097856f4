//! The session coordinator: two independent pumps over one socket.
//!
//! A session pairs a socket with the local terminal.  One pump carries
//! socket bytes to the terminal's output, the other carries terminal
//! input to the socket.  The two directions share nothing but the
//! underlying socket: stepping one never touches the other, which is
//! exactly what lets bytes still in flight drain after the peer
//! direction has closed.  The session is closed only once both pumps
//! are done.

use vstd::prelude::*;

use crate::pump::Pump;
use crate::pump::PumpAction;
use crate::pump::PumpModel;
use crate::pump::PumpPhase;
use crate::pump::ReadEvent;
use crate::pump::deliver_all;
use crate::pump::pump_done;
use crate::pump::pump_init;
use crate::pump::read_data;
use crate::pump::read_eof;
use crate::pump::read_failed;
use crate::pump::write_result;

verus! {

/// Mathematical model of a session: one model per direction.
pub struct SessionModel {
    /// socket to terminal output
    pub to_local: PumpModel,
    /// terminal input to socket
    pub to_remote: PumpModel,
}

/// The state of a freshly established session.
pub open spec fn session_init() -> SessionModel {
    SessionModel { to_local: pump_init(), to_remote: pump_init() }
}

/// A session is closed once BOTH of its directions are done.
pub open spec fn session_closed(m: SessionModel) -> bool {
    pump_done(m.to_local) && pump_done(m.to_remote)
}

/// One interactive session over an established socket.  Each direction
/// is driven by its own runner; the coordinator only joins them.
pub struct Session {
    to_local: Pump,
    to_remote: Pump,
}

impl View for Session {
    type V = SessionModel;

    closed spec fn view(&self) -> SessionModel {
        SessionModel { to_local: self.to_local@, to_remote: self.to_remote@ }
    }
}

impl Session {
    /// A session with both directions open.
    pub fn new() -> (s: Session)
        ensures
            s@ == session_init(),
    {
        Session { to_local: Pump::new(), to_remote: Pump::new() }
    }

    /// Split the session into its two directions, one per runner.
    /// The halves are fully independent values.
    pub fn split(self) -> (halves: (Pump, Pump))
        ensures
            halves.0@ == self@.to_local,
            halves.1@ == self@.to_remote,
    {
        (self.to_local, self.to_remote)
    }

    /// Rebuild the session from its two directions once both runners
    /// have finished.
    pub fn join(to_local: Pump, to_remote: Pump) -> (s: Session)
        ensures
            s@.to_local == to_local@,
            s@.to_remote == to_remote@,
    {
        Session { to_local, to_remote }
    }

    /// Step the socket-to-terminal direction with the outcome of one
    /// socket read.  The terminal-to-socket direction is untouched.
    pub fn on_remote_read(&mut self, ev: ReadEvent) -> (action: PumpAction)
        requires
            old(self)@.to_local.phase == PumpPhase::Reading,
        ensures
            final(self)@.to_remote == old(self)@.to_remote,
            (match ev {
                ReadEvent::Data(b) => {
                    &&& action == PumpAction::Forward(b)
                    &&& final(self)@.to_local == read_data(old(self)@.to_local, b@)
                },
                ReadEvent::Eof => {
                    &&& action == PumpAction::HalfClose
                    &&& final(self)@.to_local == read_eof(old(self)@.to_local)
                },
                ReadEvent::ReadError => {
                    &&& action == PumpAction::Abort
                    &&& final(self)@.to_local == read_failed(old(self)@.to_local)
                },
            }),
    {
        self.to_local.on_read(ev)
    }

    /// Report the outcome of writing to the terminal.  The
    /// terminal-to-socket direction is untouched.
    pub fn on_local_write(&mut self, ok: bool)
        requires
            old(self)@.to_local.phase == PumpPhase::Writing,
        ensures
            final(self)@.to_local == write_result(old(self)@.to_local, ok),
            final(self)@.to_remote == old(self)@.to_remote,
    {
        self.to_local.on_write(ok)
    }

    /// Step the terminal-to-socket direction with the outcome of one
    /// read of the terminal's input.  The socket-to-terminal direction
    /// is untouched.
    pub fn on_local_read(&mut self, ev: ReadEvent) -> (action: PumpAction)
        requires
            old(self)@.to_remote.phase == PumpPhase::Reading,
        ensures
            final(self)@.to_local == old(self)@.to_local,
            (match ev {
                ReadEvent::Data(b) => {
                    &&& action == PumpAction::Forward(b)
                    &&& final(self)@.to_remote == read_data(old(self)@.to_remote, b@)
                },
                ReadEvent::Eof => {
                    &&& action == PumpAction::HalfClose
                    &&& final(self)@.to_remote == read_eof(old(self)@.to_remote)
                },
                ReadEvent::ReadError => {
                    &&& action == PumpAction::Abort
                    &&& final(self)@.to_remote == read_failed(old(self)@.to_remote)
                },
            }),
    {
        self.to_remote.on_read(ev)
    }

    /// Report the outcome of writing to the socket.  The
    /// socket-to-terminal direction is untouched.
    pub fn on_remote_write(&mut self, ok: bool)
        requires
            old(self)@.to_remote.phase == PumpPhase::Writing,
        ensures
            final(self)@.to_remote == write_result(old(self)@.to_remote, ok),
            final(self)@.to_local == old(self)@.to_local,
    {
        self.to_remote.on_write(ok)
    }

    /// Whether the session is over: true exactly when both directions
    /// are done, regardless of how either ended.
    pub fn is_closed(&self) -> (closed: bool)
        ensures
            closed == session_closed(self@),
    {
        self.to_local.is_done() && self.to_remote.is_done()
    }
}

/// LAW (join before close).  A session counts as closed exactly when
/// both of its directions are done; one direction ending — cleanly or
/// with an error — does not close the session by itself.
pub proof fn lemma_session_closed_iff_both_done(m: SessionModel)
    ensures
        session_closed(m) <==> (pump_done(m.to_local) && pump_done(m.to_remote)),
        pump_done(m.to_local) && !pump_done(m.to_remote) ==> !session_closed(m),
        pump_done(m.to_remote) && !pump_done(m.to_local) ==> !session_closed(m),
{
}

/// LAW (half-close isolation).  Closing the terminal-to-socket
/// direction — end of input on the terminal — leaves the
/// socket-to-terminal direction exactly as it was, and everything still
/// in flight there is delivered in full afterwards.  The symmetric
/// statement holds with the directions swapped.
pub proof fn lemma_half_close_keeps_peer_flowing(m: SessionModel, chunks: Seq<Seq<u8>>)
    requires
        m.to_remote.phase == PumpPhase::Reading,
        m.to_local.phase == PumpPhase::Reading,
    ensures
        ({
            let after_eof = SessionModel { to_remote: read_eof(m.to_remote), ..m };
            &&& after_eof.to_local == m.to_local
            &&& pump_done(after_eof.to_remote)
            &&& read_eof(deliver_all(after_eof.to_local, chunks)).delivered == m.to_local.delivered
                + chunks.flatten()
            &&& read_eof(deliver_all(after_eof.to_local, chunks)).phase == PumpPhase::Closed
        }),
{
    crate::pump::lemma_deliver_all_flattens(m.to_local, chunks);
}

} // verus!
