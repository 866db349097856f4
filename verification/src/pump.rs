//! One direction of a session: a pump that moves bytes from a readable
//! source to a writable sink until end of input or an error.
//!
//! The blocking calls themselves happen outside the library.  A runner
//! reads from its source, hands the outcome to [`Pump::on_read`], performs
//! the returned [`PumpAction`], and reports a write's outcome through
//! [`Pump::on_write`].  The pump decides what happens: data is forwarded
//! exactly as read, a zero-byte read half-closes the direction, an error
//! aborts it.  [`lemma_pump_preserves_stream`] states the headline
//! guarantee: the bytes delivered to the sink are exactly the
//! concatenation of the chunks read, in order.

use vstd::prelude::*;

verus! {

/// The phase of one pump direction.
#[derive(Clone, Copy, Debug, PartialEq, Eq, Structural)]
pub enum PumpPhase {
    /// Ready to issue the next read on the source.
    Reading,
    /// Holding bytes that must reach the sink before the next read.
    Writing,
    /// The source reached end of input and the direction was half-closed.
    Closed,
    /// A read or write failed; the direction was aborted.
    Failed,
}

/// Which operation aborted a failed direction.
#[derive(Clone, Copy, Debug, PartialEq, Eq, Structural)]
pub enum FailureKind {
    /// The read of the source failed.
    Read,
    /// The write to the sink failed.
    Write,
}

/// What one blocking read of the source produced.
pub enum ReadEvent {
    /// The read returned these bytes (a zero-byte read is [`ReadEvent::Eof`]).
    Data(Vec<u8>),
    /// The read returned zero bytes: clean end of input.
    Eof,
    /// The read failed.
    ReadError,
}

/// What the runner must do next with the underlying channel.
pub enum PumpAction {
    /// Write exactly these bytes to the sink and flush, then report the
    /// outcome through [`Pump::on_write`].
    Forward(Vec<u8>),
    /// Signal that no more data will flow in this direction, without
    /// touching the opposite direction.  The pump is done.
    HalfClose,
    /// Give up on this direction.  The pump is done.
    Abort,
}

/// Mathematical model of a pump direction.
pub struct PumpModel {
    /// Current phase.
    pub phase: PumpPhase,
    /// Every byte confirmed written to the sink, in order.
    pub delivered: Seq<u8>,
    /// Bytes read from the source but not yet confirmed written.
    pub pending: Seq<u8>,
    /// What aborted the direction, once it has failed.
    pub failure: Option<FailureKind>,
}

/// The state of a freshly started pump.
pub open spec fn pump_init() -> PumpModel {
    PumpModel {
        phase: PumpPhase::Reading,
        delivered: Seq::empty(),
        pending: Seq::empty(),
        failure: None,
    }
}

/// Transition for a read that returned `bytes`.
pub open spec fn read_data(m: PumpModel, bytes: Seq<u8>) -> PumpModel {
    PumpModel { phase: PumpPhase::Writing, pending: bytes, ..m }
}

/// Transition for a read that returned zero bytes.
pub open spec fn read_eof(m: PumpModel) -> PumpModel {
    PumpModel { phase: PumpPhase::Closed, ..m }
}

/// Transition for a failed read.
pub open spec fn read_failed(m: PumpModel) -> PumpModel {
    PumpModel { phase: PumpPhase::Failed, failure: Some(FailureKind::Read), ..m }
}

/// Transition for the reported outcome of writing the pending bytes.
pub open spec fn write_result(m: PumpModel, ok: bool) -> PumpModel {
    if ok {
        PumpModel {
            phase: PumpPhase::Reading,
            delivered: m.delivered + m.pending,
            pending: Seq::empty(),
            failure: m.failure,
        }
    } else {
        PumpModel { phase: PumpPhase::Failed, failure: Some(FailureKind::Write), ..m }
    }
}

/// A pump is done once its direction is closed or aborted.
pub open spec fn pump_done(m: PumpModel) -> bool {
    m.phase == PumpPhase::Closed || m.phase == PumpPhase::Failed
}

/// One direction of a session.  Tracks the phase of the direction and,
/// in ghost state, every byte that has moved through it.
pub struct Pump {
    phase: PumpPhase,
    failure: Option<FailureKind>,
    delivered: Ghost<Seq<u8>>,
    pending: Ghost<Seq<u8>>,
}

impl View for Pump {
    type V = PumpModel;

    closed spec fn view(&self) -> PumpModel {
        PumpModel {
            phase: self.phase,
            delivered: self.delivered@,
            pending: self.pending@,
            failure: self.failure,
        }
    }
}

impl Pump {
    /// A pump ready for its first read.
    pub fn new() -> (p: Pump)
        ensures
            p@ == pump_init(),
    {
        Pump {
            phase: PumpPhase::Reading,
            failure: None,
            delivered: Ghost(Seq::empty()),
            pending: Ghost(Seq::empty()),
        }
    }

    /// Decide on the outcome of one read from the source.  Data is
    /// forwarded exactly as read; end of input half-closes the
    /// direction; a failed read aborts it.
    pub fn on_read(&mut self, ev: ReadEvent) -> (action: PumpAction)
        requires
            old(self)@.phase == PumpPhase::Reading,
        ensures
            (match ev {
                ReadEvent::Data(b) => {
                    &&& action == PumpAction::Forward(b)
                    &&& final(self)@ == read_data(old(self)@, b@)
                },
                ReadEvent::Eof => {
                    &&& action == PumpAction::HalfClose
                    &&& final(self)@ == read_eof(old(self)@)
                },
                ReadEvent::ReadError => {
                    &&& action == PumpAction::Abort
                    &&& final(self)@ == read_failed(old(self)@)
                },
            }),
    {
        match ev {
            ReadEvent::Data(b) => {
                self.phase = PumpPhase::Writing;
                self.pending = Ghost(b@);
                PumpAction::Forward(b)
            },
            ReadEvent::Eof => {
                self.phase = PumpPhase::Closed;
                PumpAction::HalfClose
            },
            ReadEvent::ReadError => {
                self.phase = PumpPhase::Failed;
                self.failure = Some(FailureKind::Read);
                PumpAction::Abort
            },
        }
    }

    /// Report whether the forwarded bytes reached the sink.  On success
    /// the bytes count as delivered and the pump reads again; on failure
    /// the direction is aborted.
    pub fn on_write(&mut self, ok: bool)
        requires
            old(self)@.phase == PumpPhase::Writing,
        ensures
            final(self)@ == write_result(old(self)@, ok),
    {
        if ok {
            self.phase = PumpPhase::Reading;
            self.delivered = Ghost(self.delivered@ + self.pending@);
            self.pending = Ghost(Seq::empty());
        } else {
            self.phase = PumpPhase::Failed;
            self.failure = Some(FailureKind::Write);
        }
    }

    /// Current phase of the direction.
    pub fn phase(&self) -> (p: PumpPhase)
        ensures
            p == self@.phase,
    {
        self.phase
    }

    /// Whether this direction has finished, cleanly or not.
    pub fn is_done(&self) -> (done: bool)
        ensures
            done == pump_done(self@),
    {
        self.phase == PumpPhase::Closed || self.phase == PumpPhase::Failed
    }

    /// What aborted the direction, once it has failed: the failed
    /// outcome carries which operation went wrong.
    pub fn failure(&self) -> (f: Option<FailureKind>)
        ensures
            f == self@.failure,
    {
        self.failure
    }

    /// Whether the direction ended with a clean half-close.
    pub fn closed_cleanly(&self) -> (clean: bool)
        ensures
            clean == (self@.phase == PumpPhase::Closed),
    {
        self.phase == PumpPhase::Closed
    }
}

/// The model after reading `chunks` one by one, each forwarded and
/// written successfully.
pub open spec fn deliver_all(m: PumpModel, chunks: Seq<Seq<u8>>) -> PumpModel
    decreases chunks.len(),
{
    if chunks.len() == 0 {
        m
    } else {
        write_result(read_data(deliver_all(m, chunks.drop_last()), chunks.last()), true)
    }
}

/// From any state that is ready to read, delivering `chunks` appends
/// exactly their concatenation to the bytes already delivered.
pub proof fn lemma_deliver_all_flattens(m: PumpModel, chunks: Seq<Seq<u8>>)
    requires
        m.phase == PumpPhase::Reading,
    ensures
        deliver_all(m, chunks).phase == PumpPhase::Reading,
        deliver_all(m, chunks).delivered == m.delivered + chunks.flatten(),
        chunks.len() == 0 ==> deliver_all(m, chunks) == m,
    decreases chunks.len(),
{
    if chunks.len() == 0 {
        assert(chunks.flatten() == Seq::<u8>::empty());
        assert(m.delivered + chunks.flatten() =~= m.delivered);
    } else {
        let rest = chunks.drop_last();
        lemma_deliver_all_flattens(m, rest);
        assert(chunks =~= rest.push(chunks.last()));
        rest.lemma_flatten_push(chunks.last());
        assert((m.delivered + rest.flatten()) + chunks.last() =~= m.delivered + (rest.flatten()
            + chunks.last()));
    }
}

/// LAW (stream preservation).  Whatever chunking the reads produce, a
/// pump that sees chunks and then end of input delivers to its sink
/// exactly the concatenation of those chunks — no loss, no reordering,
/// no bytes invented — and ends half-closed.
pub proof fn lemma_pump_preserves_stream(chunks: Seq<Seq<u8>>)
    ensures
        read_eof(deliver_all(pump_init(), chunks)).delivered == chunks.flatten(),
        read_eof(deliver_all(pump_init(), chunks)).phase == PumpPhase::Closed,
{
    lemma_deliver_all_flattens(pump_init(), chunks);
    assert(Seq::<u8>::empty() + chunks.flatten() =~= chunks.flatten());
}

} // verus!
