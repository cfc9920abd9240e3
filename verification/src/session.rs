//! The two-role transfer session: one TCP connection per invocation, a file
//! streamed across it, completion signaled by closing the write half.
//!
//! Each role is its own state machine.  The surrounding binary performs the
//! connect, accept, read and write calls and reports every outcome to the
//! session, which decides the next state and the next action and keeps an
//! exact account of the bytes carried so far.

use vstd::prelude::*;
use crate::errors::ErrorKind;

verus! {

/// The externally visible states of a transfer session.  `Failed` is
/// terminal and reachable from every non-terminal state.
#[derive(Clone, Copy, Debug, PartialEq, Eq, Structural)]
pub enum SessionState {
    Idle,
    Connecting,
    Transferring,
    Closed,
    Failed(ErrorKind),
}

/// What the surrounding binary is to do next on the sending side.
#[derive(Clone, Copy, Debug, PartialEq, Eq, Structural)]
pub enum SenderAction {
    /// Attempt one TCP connection to the peer address.
    AttemptConnect,
    /// Copy the next buffered chunk from the file to the connection.
    CopyNextChunk,
    /// Shut down the write half of the connection to signal end of data.
    ShutdownWrite,
    /// Release the partially open connection; it must not be leaked.
    ReleaseConnection,
    /// Report the failure; the session is over.
    ReportFailure,
}

/// The sending side of a session, as the contracts see it.
pub ghost struct SenderModel {
    pub state: SessionState,
    /// Every byte handed to the connection so far, in order.
    pub sent: Seq<u8>,
    /// Whether a connection attempt was ever requested.
    pub connect_requested: bool,
}

/// Appending one copied chunk to a sender model.
pub open spec fn sender_chunk_step(m: SenderModel, chunk: Seq<u8>) -> SenderModel {
    SenderModel { sent: m.sent + chunk, ..m }
}

/// The sender model after a whole sequence of chunks is copied, in order.
pub open spec fn sender_after_chunks(m: SenderModel, chunks: Seq<Seq<u8>>) -> SenderModel
    decreases chunks.len(),
{
    if chunks.len() == 0 {
        m
    } else {
        sender_after_chunks(sender_chunk_step(m, chunks[0]), chunks.drop_first())
    }
}

/// The sending role.  Input: whether the chosen path names a regular file,
/// then the outcomes of the connect attempt and of each copy step.
pub struct SenderSession {
    pub state: SessionState,
    pub bytes_sent: u64,
    pub sent: Ghost<Seq<u8>>,
    pub connect_requested: Ghost<bool>,
}

impl View for SenderSession {
    type V = SenderModel;

    open spec fn view(&self) -> SenderModel {
        SenderModel {
            state: self.state,
            sent: self.sent@,
            connect_requested: self.connect_requested@,
        }
    }
}

impl SenderSession {
    /// Well-formedness: the byte count matches the bytes, nothing is sent
    /// before the transfer state, a validation failure precedes any connect
    /// attempt, and only the sender's failure kinds occur.
    pub open spec fn wf(self) -> bool {
        &&& self.bytes_sent == self@.sent.len()
        &&& (self@.state is Idle ==> self@.sent.len() == 0 && !self@.connect_requested)
        &&& (self@.state is Connecting ==> self@.sent.len() == 0 && self@.connect_requested)
        &&& (self@.state is Transferring ==> self@.connect_requested)
        &&& (self@.state matches SessionState::Failed(k) ==> {
            &&& (k is InputValidation || k is ConnectError || k is TransferError)
            &&& (k is InputValidation ==> !self@.connect_requested && self@.sent.len() == 0)
            &&& (k is ConnectError ==> self@.connect_requested && self@.sent.len() == 0)
            &&& (k is TransferError ==> self@.connect_requested)
        })
    }

    /// A fresh session: idle, nothing sent, no connection requested.
    pub fn new() -> (s: SenderSession)
        ensures
            s.wf(),
            s@.state is Idle,
            s@.sent == Seq::<u8>::empty(),
            !s@.connect_requested,
    {
        SenderSession {
            state: SessionState::Idle,
            bytes_sent: 0,
            sent: Ghost(Seq::empty()),
            connect_requested: Ghost(false),
        }
    }

    /// Validates the input before anything else.  A path that does not exist
    /// or is not a regular file fails the session with the input-validation
    /// kind — never a connection kind — before any connection is attempted;
    /// otherwise the one connect attempt is requested.
    pub fn start(&mut self, file_exists: bool, file_is_regular: bool) -> (a: SenderAction)
        requires
            old(self).wf(),
            old(self)@.state is Idle,
        ensures
            final(self).wf(),
            final(self)@.sent == old(self)@.sent,
            file_exists && file_is_regular ==> {
                &&& final(self)@.state is Connecting
                &&& final(self)@.connect_requested
                &&& a is AttemptConnect
            },
            !(file_exists && file_is_regular) ==> {
                &&& final(self)@.state == SessionState::Failed(ErrorKind::InputValidation)
                &&& !final(self)@.connect_requested
                &&& a is ReportFailure
            },
    {
        if file_exists && file_is_regular {
            self.state = SessionState::Connecting;
            self.connect_requested = Ghost(true);
            SenderAction::AttemptConnect
        } else {
            self.state = SessionState::Failed(ErrorKind::InputValidation);
            SenderAction::ReportFailure
        }
    }

    /// Records the outcome of the one connect attempt: on success the copy
    /// begins, on failure the session ends with `ConnectError`.
    pub fn on_connect_result(&mut self, connected: bool) -> (a: SenderAction)
        requires
            old(self).wf(),
            old(self)@.state is Connecting,
        ensures
            final(self).wf(),
            final(self)@.sent == old(self)@.sent,
            final(self)@.connect_requested == old(self)@.connect_requested,
            connected ==> final(self)@.state is Transferring && a is CopyNextChunk,
            !connected ==> final(self)@.state == SessionState::Failed(ErrorKind::ConnectError)
                && a is ReportFailure,
    {
        if connected {
            self.state = SessionState::Transferring;
            SenderAction::CopyNextChunk
        } else {
            self.state = SessionState::Failed(ErrorKind::ConnectError);
            SenderAction::ReportFailure
        }
    }

    /// Records one buffered chunk read from the file and written in full to
    /// the connection: the bytes sent are exactly the old bytes followed by
    /// the chunk — nothing skipped, duplicated or reordered.
    pub fn on_chunk_copied(&mut self, chunk: &Vec<u8>) -> (a: SenderAction)
        requires
            old(self).wf(),
            old(self)@.state is Transferring,
            old(self)@.sent.len() + chunk@.len() <= u64::MAX,
        ensures
            final(self).wf(),
            final(self)@.state is Transferring,
            final(self)@.sent == old(self)@.sent + chunk@,
            final(self)@ == sender_chunk_step(old(self)@, chunk@),
            a is CopyNextChunk,
    {
        self.bytes_sent = self.bytes_sent + chunk.len() as u64;
        proof {
            self.sent@ = self.sent@ + chunk@;
        }
        SenderAction::CopyNextChunk
    }

    /// Records end of file: the session closes and the write half of the
    /// connection is shut down to signal that no more data follows,
    /// independent of whether the peer still reads.
    pub fn on_end_of_file(&mut self) -> (a: SenderAction)
        requires
            old(self).wf(),
            old(self)@.state is Transferring,
        ensures
            final(self).wf(),
            final(self)@.state is Closed,
            final(self)@.sent == old(self)@.sent,
            a is ShutdownWrite,
    {
        self.state = SessionState::Closed;
        SenderAction::ShutdownWrite
    }

    /// Records an I/O failure mid-copy, from the file or the connection: the
    /// session ends with `TransferError` and the connection is released.
    pub fn on_io_error(&mut self) -> (a: SenderAction)
        requires
            old(self).wf(),
            old(self)@.state is Transferring,
        ensures
            final(self).wf(),
            final(self)@.state == SessionState::Failed(ErrorKind::TransferError),
            final(self)@.sent == old(self)@.sent,
            a is ReleaseConnection,
    {
        self.state = SessionState::Failed(ErrorKind::TransferError);
        SenderAction::ReleaseConnection
    }

    /// The session's current state.
    pub fn state(&self) -> (s: SessionState)
        ensures
            s == self@.state,
    {
        self.state
    }

    /// How many bytes were handed to the connection so far (informational).
    pub fn bytes_transferred(&self) -> (n: u64)
        requires
            self.wf(),
        ensures
            n == self@.sent.len(),
    {
        self.bytes_sent
    }
}

/// What the surrounding binary is to do next on the receiving side.
#[derive(Clone, Copy, Debug, PartialEq, Eq, Structural)]
pub enum ReceiverAction {
    /// Bind the listening socket on the chosen address.
    BindListener,
    /// Accept exactly one incoming connection.
    AcceptConnection,
    /// Create (or truncate) the output file and read from the connection.
    ReceiveChunks,
    /// Append the chunk just received to the output file.
    WriteChunk,
    /// Flush and close the output file; the transfer is complete.
    FinishOutput,
    /// Release the connection; it must not be leaked.
    ReleaseConnection,
    /// Report the failure; the session is over.
    ReportFailure,
}

/// The receiver's internal phases.  `Binding` and `Accepting` both show as
/// `Connecting` to the outside.
#[derive(Clone, Copy, Debug, PartialEq, Eq, Structural)]
pub enum ReceiverPhase {
    Idle,
    Binding,
    Accepting,
    Transferring,
    Closed,
    Failed(ErrorKind),
}

/// The externally visible state of a receiver phase.
pub open spec fn phase_state(p: ReceiverPhase) -> SessionState {
    match p {
        ReceiverPhase::Idle => SessionState::Idle,
        ReceiverPhase::Binding => SessionState::Connecting,
        ReceiverPhase::Accepting => SessionState::Connecting,
        ReceiverPhase::Transferring => SessionState::Transferring,
        ReceiverPhase::Closed => SessionState::Closed,
        ReceiverPhase::Failed(k) => SessionState::Failed(k),
    }
}

/// The receiving side of a session, as the contracts see it.
pub ghost struct ReceiverModel {
    pub phase: ReceiverPhase,
    /// Every byte received and written to the output file so far, in order.
    pub received: Seq<u8>,
    /// How many connections were accepted.
    pub accepted: nat,
}

/// Appending one received chunk to a receiver model.
pub open spec fn receiver_chunk_step(m: ReceiverModel, chunk: Seq<u8>) -> ReceiverModel {
    ReceiverModel { received: m.received + chunk, ..m }
}

/// The receiver model after a whole sequence of chunks arrives, in order.
pub open spec fn receiver_after_chunks(m: ReceiverModel, chunks: Seq<Seq<u8>>) -> ReceiverModel
    decreases chunks.len(),
{
    if chunks.len() == 0 {
        m
    } else {
        receiver_after_chunks(receiver_chunk_step(m, chunks[0]), chunks.drop_first())
    }
}

impl ReceiverModel {
    /// Well-formedness: at most one connection is ever accepted, exactly one
    /// once the transfer has begun, nothing is received before it, and only
    /// the receiver's failure kinds occur.
    pub open spec fn wf(self) -> bool {
        &&& self.accepted <= 1
        &&& (self.phase is Idle || self.phase is Binding || self.phase is Accepting ==> {
            self.accepted == 0 && self.received.len() == 0
        })
        &&& (self.phase is Transferring || self.phase is Closed ==> self.accepted == 1)
        &&& (self.phase matches ReceiverPhase::Failed(k) ==> {
            &&& (k is BindError || k is AcceptError || k is TransferError)
            &&& (k is BindError || k is AcceptError ==> self.accepted == 0
                && self.received.len() == 0)
            &&& (k is TransferError ==> self.accepted == 1)
        })
    }
}

/// The receiving role.  Input: the outcomes of the bind, of the one accept,
/// and of each read from the connection and write to the output file.
pub struct ReceiverSession {
    pub phase: ReceiverPhase,
    pub accepted: u8,
    pub bytes_received: u64,
    pub received: Ghost<Seq<u8>>,
}

impl View for ReceiverSession {
    type V = ReceiverModel;

    open spec fn view(&self) -> ReceiverModel {
        ReceiverModel {
            phase: self.phase,
            received: self.received@,
            accepted: self.accepted as nat,
        }
    }
}

impl ReceiverSession {
    /// Well-formedness: the model is well formed and the byte count matches
    /// the bytes.
    pub open spec fn wf(self) -> bool {
        &&& self@.wf()
        &&& self.bytes_received == self@.received.len()
    }

    /// A fresh session: idle, nothing received, no connection accepted.
    pub fn new() -> (s: ReceiverSession)
        ensures
            s.wf(),
            s@.phase is Idle,
            s@.received == Seq::<u8>::empty(),
            s@.accepted == 0,
    {
        ReceiverSession {
            phase: ReceiverPhase::Idle,
            accepted: 0,
            bytes_received: 0,
            received: Ghost(Seq::empty()),
        }
    }

    /// Begins the session: the listening socket is to be bound.
    pub fn start(&mut self) -> (a: ReceiverAction)
        requires
            old(self).wf(),
            old(self)@.phase is Idle,
        ensures
            final(self).wf(),
            final(self)@.phase is Binding,
            final(self)@.received == old(self)@.received,
            final(self)@.accepted == old(self)@.accepted,
            a is BindListener,
    {
        self.phase = ReceiverPhase::Binding;
        ReceiverAction::BindListener
    }

    /// Records the outcome of binding the listening socket.
    pub fn on_bind_result(&mut self, bound: bool) -> (a: ReceiverAction)
        requires
            old(self).wf(),
            old(self)@.phase is Binding,
        ensures
            final(self).wf(),
            final(self)@.received == old(self)@.received,
            final(self)@.accepted == old(self)@.accepted,
            bound ==> final(self)@.phase is Accepting && a is AcceptConnection,
            !bound ==> final(self)@.phase == ReceiverPhase::Failed(ErrorKind::BindError)
                && a is ReportFailure,
    {
        if bound {
            self.phase = ReceiverPhase::Accepting;
            ReceiverAction::AcceptConnection
        } else {
            self.phase = ReceiverPhase::Failed(ErrorKind::BindError);
            ReceiverAction::ReportFailure
        }
    }

    /// Records the outcome of the one accept.  On success the accepted count
    /// rises from zero to one — the listening socket is not offered to any
    /// further peer — and the transfer begins.
    pub fn on_accept_result(&mut self, accepted: bool) -> (a: ReceiverAction)
        requires
            old(self).wf(),
            old(self)@.phase is Accepting,
        ensures
            final(self).wf(),
            final(self)@.received == old(self)@.received,
            accepted ==> {
                &&& final(self)@.phase is Transferring
                &&& final(self)@.accepted == 1
                &&& a is ReceiveChunks
            },
            !accepted ==> {
                &&& final(self)@.phase == ReceiverPhase::Failed(ErrorKind::AcceptError)
                &&& final(self)@.accepted == 0
                &&& a is ReportFailure
            },
    {
        if accepted {
            self.phase = ReceiverPhase::Transferring;
            self.accepted = 1;
            ReceiverAction::ReceiveChunks
        } else {
            self.phase = ReceiverPhase::Failed(ErrorKind::AcceptError);
            ReceiverAction::ReportFailure
        }
    }

    /// Records one chunk read from the connection, to be appended to the
    /// output file: the bytes received are exactly the old bytes followed by
    /// the chunk — the order of arrival, with nothing interleaved.
    pub fn on_chunk_received(&mut self, chunk: &Vec<u8>) -> (a: ReceiverAction)
        requires
            old(self).wf(),
            old(self)@.phase is Transferring,
            old(self)@.received.len() + chunk@.len() <= u64::MAX,
        ensures
            final(self).wf(),
            final(self)@.phase is Transferring,
            final(self)@.received == old(self)@.received + chunk@,
            final(self)@.accepted == old(self)@.accepted,
            final(self)@ == receiver_chunk_step(old(self)@, chunk@),
            a is WriteChunk,
    {
        self.bytes_received = self.bytes_received + chunk.len() as u64;
        proof {
            self.received@ = self.received@ + chunk@;
        }
        ReceiverAction::WriteChunk
    }

    /// Records a clean end of stream — the peer closed its write half: the
    /// session closes and the output file is flushed and closed.
    pub fn on_end_of_stream(&mut self) -> (a: ReceiverAction)
        requires
            old(self).wf(),
            old(self)@.phase is Transferring,
        ensures
            final(self).wf(),
            final(self)@.phase is Closed,
            final(self)@.received == old(self)@.received,
            final(self)@.accepted == old(self)@.accepted,
            a is FinishOutput,
    {
        self.phase = ReceiverPhase::Closed;
        ReceiverAction::FinishOutput
    }

    /// Records an I/O failure mid-copy, from the connection or the output
    /// file: the session ends with `TransferError` and the connection is
    /// released.  The partially written output file is left on disk.
    pub fn on_io_error(&mut self) -> (a: ReceiverAction)
        requires
            old(self).wf(),
            old(self)@.phase is Transferring,
        ensures
            final(self).wf(),
            final(self)@.phase == ReceiverPhase::Failed(ErrorKind::TransferError),
            final(self)@.received == old(self)@.received,
            final(self)@.accepted == old(self)@.accepted,
            a is ReleaseConnection,
    {
        self.phase = ReceiverPhase::Failed(ErrorKind::TransferError);
        ReceiverAction::ReleaseConnection
    }

    /// The session's externally visible state.
    pub fn state(&self) -> (s: SessionState)
        ensures
            s == phase_state(self@.phase),
    {
        match self.phase {
            ReceiverPhase::Idle => SessionState::Idle,
            ReceiverPhase::Binding => SessionState::Connecting,
            ReceiverPhase::Accepting => SessionState::Connecting,
            ReceiverPhase::Transferring => SessionState::Transferring,
            ReceiverPhase::Closed => SessionState::Closed,
            ReceiverPhase::Failed(k) => SessionState::Failed(k),
        }
    }

    /// How many connections were accepted so far: never more than one.
    pub fn accepted_connections(&self) -> (n: u8)
        requires
            self.wf(),
        ensures
            n == self@.accepted,
            n <= 1,
    {
        self.accepted
    }

    /// How many bytes were written to the output file so far (informational).
    pub fn bytes_transferred(&self) -> (n: u64)
        requires
            self.wf(),
        ensures
            n == self@.received.len(),
    {
        self.bytes_received
    }
}

/// Law: the sender hands bytes to the connection in the exact order the file
/// produced them — after any sequence of copied chunks, the bytes sent are
/// the old bytes followed by the chunks' bytes concatenated in order, and
/// nothing else about the session moves.
pub proof fn lemma_sender_sends_in_order(m: SenderModel, chunks: Seq<Seq<u8>>)
    ensures
        sender_after_chunks(m, chunks).sent == m.sent + chunks.flatten(),
        sender_after_chunks(m, chunks).state == m.state,
        sender_after_chunks(m, chunks).connect_requested == m.connect_requested,
    decreases chunks.len(),
{
    if chunks.len() == 0 {
        assert(m.sent + chunks.flatten() =~= m.sent);
    } else {
        let m1 = sender_chunk_step(m, chunks[0]);
        lemma_sender_sends_in_order(m1, chunks.drop_first());
        assert(chunks.flatten() == chunks.first() + chunks.drop_first().flatten());
        assert(m1.sent + chunks.drop_first().flatten() =~= m.sent + chunks.flatten());
    }
}

/// Law: the receiver writes bytes to its output file in the exact order
/// received — after any sequence of arriving chunks, the bytes written are
/// the old bytes followed by the chunks' bytes concatenated in arrival
/// order; no step reorders, drops or interleaves, and neither the phase nor
/// the accepted count moves.
pub proof fn lemma_receiver_writes_in_order(m: ReceiverModel, chunks: Seq<Seq<u8>>)
    ensures
        receiver_after_chunks(m, chunks).received == m.received + chunks.flatten(),
        receiver_after_chunks(m, chunks).phase == m.phase,
        receiver_after_chunks(m, chunks).accepted == m.accepted,
    decreases chunks.len(),
{
    if chunks.len() == 0 {
        assert(m.received + chunks.flatten() =~= m.received);
    } else {
        let m1 = receiver_chunk_step(m, chunks[0]);
        lemma_receiver_writes_in_order(m1, chunks.drop_first());
        assert(chunks.flatten() == chunks.first() + chunks.drop_first().flatten());
        assert(m1.received + chunks.drop_first().flatten() =~= m.received + chunks.flatten());
    }
}

/// Law: round-trip identity.  Whatever chunking the copy produces, if the
/// chunks concatenate to a file's bytes and the connection delivers them to
/// the receiver unchanged and in order, then the sender sends exactly the
/// file's bytes and the receiver's output file holds exactly the file's
/// bytes — for every file, the empty one included.
pub proof fn lemma_round_trip(
    s: SenderModel,
    r: ReceiverModel,
    chunks: Seq<Seq<u8>>,
    file: Seq<u8>,
)
    requires
        s.sent == Seq::<u8>::empty(),
        r.received == Seq::<u8>::empty(),
        chunks.flatten() == file,
    ensures
        sender_after_chunks(s, chunks).sent == file,
        receiver_after_chunks(r, chunks).received == file,
{
    lemma_sender_sends_in_order(s, chunks);
    lemma_receiver_writes_in_order(r, chunks);
    assert(Seq::<u8>::empty() + file =~= file);
}

/// Law: exactly one connection per receiver invocation.  In every well-formed
/// session the accepted count is at most one; once the transfer has begun or
/// finished it is exactly one, so no later accept can be recorded — a second
/// connection attempt is never serviced by the same invocation.
pub proof fn lemma_single_connection(m: ReceiverModel)
    requires
        m.wf(),
    ensures
        m.accepted <= 1,
        m.phase is Transferring || m.phase is Closed ==> m.accepted == 1,
{
}

} // verus!
