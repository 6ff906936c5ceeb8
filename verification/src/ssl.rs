//! The TLS worker: what it does with each message, and with the outcome of
//! everything that it asked for.
//!
//! The worker is a machine that takes an input and returns a step. A step says
//! what to tell the rest of the program, if anything, and what to do next;
//! the outcome of that comes back as the next input.

use vstd::prelude::*;

use crate::frame::AndroidAutoFrame;
use crate::tls::{absorb, emit, wants_write, TlsReport};

verus! {

/// A message sent to the ssl worker. `M` is a message of the program that still
/// has to find its channel before it is a frame.
#[derive(Debug, PartialEq, Eq)]
pub enum SslThreadData<M> {
    /// The handshake is starting.
    HandshakeStart,
    /// Data from the peer for the handshake process.
    HandshakeData(Vec<u8>),
    /// A message to write.
    PlainData(M),
    /// A frame to write.
    Frame(AndroidAutoFrame),
    /// A frame to decrypt.
    DecryptMe(AndroidAutoFrame),
}

/// The response from the ssl worker.
#[derive(Debug, PartialEq, Eq)]
pub enum SslThreadResponse {
    /// A frame received from the peer, in the clear.
    Data(AndroidAutoFrame),
    /// The handshake is complete.
    HandshakeComplete,
    /// The worker is exiting with an error.
    ExitError(String),
}

/// What a write to the wire is for.
#[derive(Debug, Clone, Copy, PartialEq, Eq, Structural)]
pub enum WriteStage {
    /// An ordinary frame.
    Frame,
    /// The first flight of the handshake.
    HandshakeStart,
    /// A later flight of the handshake.
    HandshakeFlight,
}

impl WriteStage {
    /// Whether the writer is to be flushed after the write. An ordinary frame
    /// is followed by a flush even when writing it failed.
    pub fn flushes(&self, written: bool) -> (r: bool)
        ensures
            r == (written || self is Frame),
    {
        written || *self == WriteStage::Frame
    }
}

/// What goes to the wire.
#[derive(Debug, PartialEq, Eq)]
pub enum WritePayload {
    /// A frame, encrypted on its way if its header says so.
    Frame(AndroidAutoFrame),
    /// TLS bytes, to be sent in an ssl handshake control message.
    Handshake(Vec<u8>),
}

/// Why a write to the wire failed.
#[derive(Debug, PartialEq, Eq)]
pub enum WriteFailure {
    /// It took too long.
    TimedOut,
    /// The other side went away.
    UnexpectedEof,
    /// Anything else, in the two renderings of the error.
    Other {
        /// The text for a user.
        display: String,
        /// The text for a developer.
        debug: String,
    },
}

/// What came of building a frame's bytes and writing them.
#[derive(Debug, PartialEq, Eq)]
pub enum WriteOutcome {
    /// The bytes are on the wire.
    Written,
    /// The bytes could not be built, for this reason.
    BuildFailed(String),
    /// The bytes could not be written.
    WriteFailed(WriteFailure),
}

/// What the worker reacts to.
#[derive(Debug, PartialEq, Eq)]
pub enum SslInput<M> {
    /// The next message, or the end of messages.
    Received(Option<SslThreadData<M>>),
    /// A frame after decryption, or why it could not be decrypted.
    Decrypted(Result<AndroidAutoFrame, String>),
    /// A message as a frame, or nothing if no channel takes it yet.
    Resolved(Option<AndroidAutoFrame>),
    /// Whether the completed handshake could be announced.
    Announced(Result<(), String>),
    /// What came of a write.
    Written(WriteStage, WriteOutcome),
}

/// What the worker does next.
#[derive(Debug, PartialEq, Eq)]
pub enum SslAction<M> {
    /// Wait for the next message.
    Receive,
    /// Decrypt a frame.
    Decrypt(AndroidAutoFrame),
    /// Find the channel of a message and make a frame of it.
    Resolve(M),
    /// Announce that the handshake is complete.
    Announce,
    /// Build the bytes of a payload and write them.
    Write {
        /// What the write is for.
        stage: WriteStage,
        /// What to write.
        payload: WritePayload,
    },
    /// End the worker.
    Exit(Result<(), String>),
}

/// One step of the worker.
#[derive(Debug, PartialEq, Eq)]
pub struct SslStep<M> {
    /// What to send to the rest of the program first. If nobody listens, that
    /// is no concern.
    pub respond: Option<SslThreadResponse>,
    /// What to do then.
    pub next: SslAction<M>,
}

/// What a piece of handshake data leads to.
#[derive(Debug, PartialEq, Eq)]
pub enum HandshakeVerdict {
    /// The worker fails, for this reason.
    Fail(String),
    /// The handshake has just completed.
    Announce,
    /// The handshake goes on, or was complete already.
    Continue,
}

/// The step that waits for the next message and does nothing else.
pub open spec fn idle_step<M>() -> SslStep<M> {
    SslStep { respond: None, next: SslAction::Receive }
}

/// Whether a step ends the worker with an error, reports that error, and gives
/// `text` as its reason in both places.
pub open spec fn fails_with<M>(step: SslStep<M>, text: Seq<char>) -> bool {
    &&& step.respond matches Some(SslThreadResponse::ExitError(told))
    &&& told@ == text
    &&& step.next matches SslAction::Exit(Err(reason))
    &&& reason@ == text
}

/// The step that writes a frame.
pub open spec fn frame_step<M>(f: AndroidAutoFrame) -> SslStep<M> {
    SslStep {
        respond: None,
        next: SslAction::Write { stage: WriteStage::Frame, payload: WritePayload::Frame(f) },
    }
}

/// The step for a frame to send: it is written, unless it needs encryption and
/// the handshake has not completed.
pub open spec fn send_step<M>(completed: bool, f: AndroidAutoFrame) -> SslStep<M> {
    if f.encrypted() && !completed {
        idle_step()
    } else {
        frame_step(f)
    }
}

/// The reason given for a failed write.
pub open spec fn failure_text(stage: WriteStage, failure: WriteFailure) -> Seq<char> {
    match (stage, failure) {
        (WriteStage::Frame, WriteFailure::TimedOut) => "Timeout"@,
        (WriteStage::Frame, WriteFailure::UnexpectedEof) => "Disconnected"@,
        (WriteStage::Frame, WriteFailure::Other { debug, .. }) => "Unexpected("@ + debug@ + ")"@,
        (WriteStage::HandshakeStart, WriteFailure::TimedOut) => "write timed out"@,
        (WriteStage::HandshakeStart, WriteFailure::UnexpectedEof) => "write disconnected"@,
        (WriteStage::HandshakeFlight, WriteFailure::TimedOut) => "Timed out"@,
        (WriteStage::HandshakeFlight, WriteFailure::UnexpectedEof) => "Disconnected"@,
        (_, WriteFailure::Other { display, .. }) => "write error: "@ + display@,
    }
}

/// Whether `step` is right for the outcome of a write.
pub open spec fn written_step<M>(
    stage: WriteStage,
    outcome: WriteOutcome,
    step: SslStep<M>,
) -> bool {
    match outcome {
        WriteOutcome::Written => step == idle_step::<M>(),
        WriteOutcome::BuildFailed(reason) => fails_with(step, reason@),
        WriteOutcome::WriteFailed(failure) => fails_with(step, failure_text(stage, failure)),
    }
}

/// Whether `step` is right for the outcome of a decryption.
pub open spec fn decrypted_step<M>(
    completed: bool,
    outcome: Result<AndroidAutoFrame, String>,
    step: SslStep<M>,
) -> bool {
    match outcome {
        Ok(f) => step == (SslStep {
            respond: Some(SslThreadResponse::Data(f)),
            next: SslAction::<M>::Receive,
        }),
        Err(reason) => if completed {
            fails_with(step, "frame error "@ + reason@)
        } else {
            step == idle_step::<M>()
        },
    }
}

/// Whether `verdict` is right for what the TLS engine reported.
pub open spec fn judged(completed: bool, report: TlsReport, verdict: HandshakeVerdict) -> bool {
    match report {
        TlsReport::ReadFailed(reason) => verdict matches HandshakeVerdict::Fail(text) && text@
            == "read_tls: "@ + reason@,
        TlsReport::ProtocolFailed(reason) => verdict matches HandshakeVerdict::Fail(text) && text@
            == reason@,
        TlsReport::Processed { peer_closed, handshaking } => if peer_closed {
            verdict matches HandshakeVerdict::Fail(text) && text@
                == "peer closed connection during handshake"@
        } else if !handshaking && !completed {
            verdict == HandshakeVerdict::Announce
        } else {
            verdict == HandshakeVerdict::Continue
        },
    }
}

/// Whether `step` is right for bytes taken, or not, from the TLS engine.
pub open spec fn handshake_step<M>(
    stage: WriteStage,
    out: Result<Vec<u8>, String>,
    step: SslStep<M>,
) -> bool {
    match out {
        Ok(bytes) => step == (SslStep {
            respond: None,
            next: SslAction::<M>::Write { stage, payload: WritePayload::Handshake(bytes) },
        }),
        Err(reason) => fails_with(step, "write_tls: "@ + reason@),
    }
}

/// Whether `step` and `post` may come of sending the next flight from `pre`:
/// the bytes that wait are taken and written; if none wait, nothing happens.
pub open spec fn flight_step<M>(
    pre: rustls::client::ClientConnection,
    post: rustls::client::ClientConnection,
    step: SslStep<M>,
) -> bool {
    if crate::tls::tls_outgoing(pre).len() > 0 {
        exists|out: Result<Vec<u8>, String>| #[trigger]
            crate::tls::tls_emitted(pre, out, post) && handshake_step(
                WriteStage::HandshakeFlight,
                out,
                step,
            )
    } else {
        &&& post == pre
        &&& step == idle_step::<M>()
    }
}

/// The state of the TLS worker.
pub struct SslStreamThread {
    /// The TLS engine.
    pub stream: rustls::client::ClientConnection,
    /// Whether the first flight of the handshake has been sent.
    pub hs_started: bool,
    /// Whether the handshake has completed.
    pub hs_completed: bool,
}

/// Whether `step` and `post` may come of a start request in state `pre`: the
/// first one sends the waiting bytes, and once one was sent the rest are
/// ignored.
pub open spec fn start_step<M>(
    pre: SslStreamThread,
    post: SslStreamThread,
    step: SslStep<M>,
) -> bool {
    if pre.hs_started {
        &&& post == pre
        &&& step == idle_step::<M>()
    } else {
        &&& post.hs_started == pre.hs_started
        &&& post.hs_completed == pre.hs_completed
        &&& exists|out: Result<Vec<u8>, String>| #[trigger]
            crate::tls::tls_emitted(pre.stream, out, post.stream) && handshake_step(
                WriteStage::HandshakeStart,
                out,
                step,
            )
    }
}

/// Whether `step` and `post` may follow from `mid`, the TLS engine after it
/// took in handshake data, and from the verdict on its report.
pub open spec fn verdict_step<M>(
    pre: SslStreamThread,
    mid: rustls::client::ClientConnection,
    verdict: HandshakeVerdict,
    post: SslStreamThread,
    step: SslStep<M>,
) -> bool {
    &&& post.hs_started == pre.hs_started
    &&& match verdict {
        HandshakeVerdict::Fail(text) => {
            &&& post.hs_completed == pre.hs_completed
            &&& post.stream == mid
            &&& fails_with(step, text@)
        },
        HandshakeVerdict::Announce => {
            &&& post.hs_completed
            &&& post.stream == mid
            &&& step == (SslStep { respond: None, next: SslAction::<M>::Announce })
        },
        HandshakeVerdict::Continue => {
            &&& post.hs_completed == pre.hs_completed
            &&& flight_step(mid, post.stream, step)
        },
    }
}

/// Whether `step` and `post` may come of handshake data in state `pre`: the
/// TLS engine takes the data in, and its report decides.
pub open spec fn data_step<M>(
    pre: SslStreamThread,
    data: Seq<u8>,
    post: SslStreamThread,
    step: SslStep<M>,
) -> bool {
    exists|
        report: TlsReport,
        mid: rustls::client::ClientConnection,
        verdict: HandshakeVerdict,
    |
        #![trigger crate::tls::tls_absorbed(pre.stream, data, report, mid), judged(pre.hs_completed, report, verdict)]
        crate::tls::tls_absorbed(pre.stream, data, report, mid) && judged(
            pre.hs_completed,
            report,
            verdict,
        ) && verdict_step(pre, mid, verdict, post, step)
}

/// Whether `step` and `post` may come of a message in state `pre`.
pub open spec fn received_step<M>(
    pre: SslStreamThread,
    m: SslThreadData<M>,
    post: SslStreamThread,
    step: SslStep<M>,
) -> bool {
    match m {
        SslThreadData::DecryptMe(f) => {
            &&& post == pre
            &&& step == (SslStep { respond: None, next: SslAction::<M>::Decrypt(f) })
        },
        SslThreadData::HandshakeStart => start_step(pre, post, step),
        SslThreadData::HandshakeData(data) => data_step(pre, data@, post, step),
        SslThreadData::PlainData(m) => {
            &&& post == pre
            &&& step == (SslStep { respond: None, next: SslAction::Resolve(m) })
        },
        SslThreadData::Frame(f) => {
            &&& post == pre
            &&& step == send_step::<M>(pre.hs_completed, f)
        },
    }
}

/// Whether `step` and `post` may come of `input` in state `pre`.
pub open spec fn ssl_step<M>(
    pre: SslStreamThread,
    input: SslInput<M>,
    post: SslStreamThread,
    step: SslStep<M>,
) -> bool {
    match input {
        SslInput::Received(None) => {
            &&& post == pre
            &&& step == (SslStep { respond: None, next: SslAction::<M>::Exit(Ok(())) })
        },
        SslInput::Received(Some(m)) => received_step(pre, m, post, step),
        SslInput::Decrypted(outcome) => {
            &&& post == pre
            &&& decrypted_step(pre.hs_completed, outcome, step)
        },
        SslInput::Resolved(None) => {
            &&& post == pre
            &&& step == idle_step::<M>()
        },
        SslInput::Resolved(Some(f)) => {
            &&& post == pre
            &&& step == send_step::<M>(pre.hs_completed, f)
        },
        SslInput::Announced(Ok(_)) => {
            &&& post.hs_started == pre.hs_started
            &&& post.hs_completed == pre.hs_completed
            &&& flight_step(pre.stream, post.stream, step)
        },
        SslInput::Announced(Err(reason)) => {
            &&& post == pre
            &&& fails_with(step, reason@)
        },
        SslInput::Written(stage, outcome) => {
            &&& post.stream == pre.stream
            &&& post.hs_completed == pre.hs_completed
            &&& post.hs_started == (pre.hs_started || (stage is HandshakeStart
                && outcome is Written))
            &&& written_step(stage, outcome, step)
        },
    }
}

/// The step that ends the worker and says why.
pub fn fail<M>(text: String) -> (step: SslStep<M>)
    ensures
        fails_with(step, text@),
{
    SslStep {
        respond: Some(SslThreadResponse::ExitError(text.clone())),
        next: SslAction::Exit(Err(text)),
    }
}

/// The reason given for a failed write.
pub fn write_failure_text(stage: WriteStage, failure: WriteFailure) -> (text: String)
    ensures
        text@ == failure_text(stage, failure),
{
    match (stage, failure) {
        (WriteStage::Frame, WriteFailure::TimedOut) => "Timeout".to_owned(),
        (WriteStage::Frame, WriteFailure::UnexpectedEof) => "Disconnected".to_owned(),
        (WriteStage::Frame, WriteFailure::Other { debug, .. }) => "Unexpected(".to_owned().concat(
            debug.as_str(),
        ).concat(")"),
        (WriteStage::HandshakeStart, WriteFailure::TimedOut) => "write timed out".to_owned(),
        (WriteStage::HandshakeStart, WriteFailure::UnexpectedEof) => "write disconnected".to_owned(),
        (WriteStage::HandshakeFlight, WriteFailure::TimedOut) => "Timed out".to_owned(),
        (WriteStage::HandshakeFlight, WriteFailure::UnexpectedEof) => "Disconnected".to_owned(),
        (_, WriteFailure::Other { display, .. }) => "write error: ".to_owned().concat(
            display.as_str(),
        ),
    }
}

/// What a piece of handshake data leads to, from what the TLS engine reported
/// and whether the handshake had completed before.
pub fn judge(completed: bool, report: TlsReport) -> (verdict: HandshakeVerdict)
    ensures
        judged(completed, report, verdict),
{
    match report {
        TlsReport::ReadFailed(reason) => HandshakeVerdict::Fail(
            "read_tls: ".to_owned().concat(reason.as_str()),
        ),
        TlsReport::ProtocolFailed(reason) => HandshakeVerdict::Fail(reason),
        TlsReport::Processed { peer_closed, handshaking } => {
            if peer_closed {
                HandshakeVerdict::Fail("peer closed connection during handshake".to_owned())
            } else if !handshaking && !completed {
                HandshakeVerdict::Announce
            } else {
                HandshakeVerdict::Continue
            }
        },
    }
}

/// The step for bytes taken, or not, from the TLS engine.
pub fn send_handshake<M>(stage: WriteStage, out: Result<Vec<u8>, String>) -> (step: SslStep<M>)
    ensures
        handshake_step(stage, out, step),
{
    match out {
        Ok(bytes) => SslStep {
            respond: None,
            next: SslAction::Write { stage, payload: WritePayload::Handshake(bytes) },
        },
        Err(reason) => fail("write_tls: ".to_owned().concat(reason.as_str())),
    }
}

/// Sends the next flight of the handshake, if there is one.
fn send_flight<M>(conn: &mut rustls::client::ClientConnection) -> (step: SslStep<M>)
    ensures
        flight_step(*old(conn), *final(conn), step),
{
    if wants_write(conn) {
        let out = emit(conn);
        send_handshake(WriteStage::HandshakeFlight, out)
    } else {
        SslStep { respond: None, next: SslAction::Receive }
    }
}

impl SslStreamThread {
    /// A worker around a fresh connection.
    pub fn new(conn: rustls::client::ClientConnection) -> (r: Self)
        ensures
            r.stream == conn,
            !r.hs_started,
            !r.hs_completed,
    {
        SslStreamThread { stream: conn, hs_started: false, hs_completed: false }
    }

    /// Writes a frame, or discards it if it requires encryption but the TLS
    /// handshake has not completed yet. There are no session keys before the
    /// handshake finishes, so such a frame cannot be encrypted, and queuing it
    /// would send application data too early.
    pub fn send_or_discard<M>(&self, f: AndroidAutoFrame) -> (step: SslStep<M>)
        ensures
            step == send_step::<M>(self.hs_completed, f),
    {
        if f.header.frame.get_encryption() && !self.hs_completed {
            return SslStep { respond: None, next: SslAction::Receive };
        }
        self.write_frame_now(f)
    }

    /// Writes a single frame immediately.
    pub fn write_frame_now<M>(&self, f: AndroidAutoFrame) -> (step: SslStep<M>)
        ensures
            step == frame_step::<M>(f),
    {
        SslStep {
            respond: None,
            next: SslAction::Write { stage: WriteStage::Frame, payload: WritePayload::Frame(f) },
        }
    }

    /// Handles a message.
    pub fn handle_receive<M>(&mut self, m: SslThreadData<M>) -> (step: SslStep<M>)
        requires
            m is HandshakeData ==> crate::tls::tls_may_process(old(self).stream),
        ensures
            received_step(*old(self), m, *final(self), step),
    {
        match m {
            SslThreadData::DecryptMe(f) => SslStep { respond: None, next: SslAction::Decrypt(f) },
            SslThreadData::HandshakeStart => {
                if self.hs_started {
                    // A phone that replays the tail of a previous session asks
                    // again for a handshake that is already under way.
                    return SslStep { respond: None, next: SslAction::Receive };
                }
                let out = emit(&mut self.stream);
                send_handshake(WriteStage::HandshakeStart, out)
            },
            SslThreadData::HandshakeData(data) => {
                let report = absorb(&mut self.stream, &data);
                let ghost mid = self.stream;
                let verdict = judge(self.hs_completed, report);
                assert(crate::tls::tls_absorbed(old(self).stream, data@, report, mid));
                assert(judged(old(self).hs_completed, report, verdict));
                let ghost v = verdict;
                let step = match verdict {
                    HandshakeVerdict::Fail(text) => fail(text),
                    HandshakeVerdict::Announce => {
                        self.hs_completed = true;
                        SslStep { respond: None, next: SslAction::Announce }
                    },
                    HandshakeVerdict::Continue => send_flight(&mut self.stream),
                };
                assert(verdict_step(*old(self), mid, v, *self, step));
                step
            },
            SslThreadData::PlainData(m) => SslStep { respond: None, next: SslAction::Resolve(m) },
            SslThreadData::Frame(f) => self.send_or_discard(f),
        }
    }

    /// What follows a decryption. Before the handshake completes, a phone may
    /// still send frames of a previous session; those are dropped. Afterwards
    /// a frame that cannot be decrypted ends the worker.
    pub fn frame_decrypted<M>(&self, outcome: Result<AndroidAutoFrame, String>) -> (step: SslStep<
        M,
    >)
        ensures
            decrypted_step(self.hs_completed, outcome, step),
    {
        match outcome {
            Ok(f) => SslStep {
                respond: Some(SslThreadResponse::Data(f)),
                next: SslAction::Receive,
            },
            Err(reason) => {
                if self.hs_completed {
                    fail("frame error ".to_owned().concat(reason.as_str()))
                } else {
                    SslStep { respond: None, next: SslAction::Receive }
                }
            },
        }
    }

    /// One round of the worker.
    pub fn run<M>(&mut self, input: SslInput<M>) -> (step: SslStep<M>)
        requires
            (input matches SslInput::Received(Some(SslThreadData::HandshakeData(_))))
                ==> crate::tls::tls_may_process(old(self).stream),
        ensures
            ssl_step(*old(self), input, *final(self), step),
    {
        match input {
            SslInput::Received(None) => SslStep { respond: None, next: SslAction::Exit(Ok(())) },
            SslInput::Received(Some(m)) => self.handle_receive(m),
            SslInput::Decrypted(outcome) => self.frame_decrypted(outcome),
            SslInput::Resolved(None) => SslStep { respond: None, next: SslAction::Receive },
            SslInput::Resolved(Some(f)) => self.send_or_discard(f),
            SslInput::Announced(Ok(_)) => send_flight(&mut self.stream),
            SslInput::Announced(Err(reason)) => fail(reason),
            SslInput::Written(stage, outcome) => match outcome {
                WriteOutcome::Written => {
                    if stage == WriteStage::HandshakeStart {
                        self.hs_started = true;
                    }
                    SslStep { respond: None, next: SslAction::Receive }
                },
                WriteOutcome::BuildFailed(reason) => fail(reason),
                WriteOutcome::WriteFailed(failure) => fail(write_failure_text(stage, failure)),
            },
        }
    }
}

} // verus!
