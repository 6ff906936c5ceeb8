//! What holds of the TLS engine as the worker drives it, and of every round
//! that has to do with the handshake.

use vstd::prelude::*;

use crate::ssl::{
    judge, send_handshake, HandshakeVerdict, SslAction, SslInput, SslStep, SslStreamThread,
    SslThreadData, SslThreadResponse, WritePayload, WriteStage,
};
use crate::tls::{absorb, emit, TlsReport};

verus! {

/// Whether a step writes these TLS bytes for this stage of the handshake, and
/// tells nobody anything.
pub open spec fn writes_handshake<M>(step: SslStep<M>, stage: WriteStage, bytes: Seq<u8>) -> bool {
    &&& step.respond is None
    &&& step.next matches SslAction::Write { stage: s, payload: WritePayload::Handshake(b) }
    &&& s == stage
    &&& b@ == bytes
}

/// Whether a step does nothing but wait for the next message.
pub open spec fn only_waits<M>(step: SslStep<M>) -> bool {
    step.respond is None && step.next is Receive
}

/// Whether a round sends what the TLS engine holds: from `held` it takes as many
/// bytes as the engine gives up at once, at least one if there are any, writes
/// exactly those, and leaves the rest; with nothing held, it only waits.
pub open spec fn sends_held<M>(
    held: rustls::client::ClientConnection,
    left: rustls::client::ClientConnection,
    step: SslStep<M>,
) -> bool {
    let before = crate::tls::tls_outgoing(held);
    let after = crate::tls::tls_outgoing(left);
    if before.len() == 0 {
        only_waits(step) && after.len() == 0
    } else {
        exists|bytes: Seq<u8>|
            #![trigger writes_handshake(step, WriteStage::HandshakeFlight, bytes)]
            {
                &&& writes_handshake(step, WriteStage::HandshakeFlight, bytes)
                &&& bytes.len() > 0
                &&& bytes.len() == crate::tls::tls_flight_len(held)
                &&& bytes + after == before
            }
    }
}

/// Taking bytes from the TLS engine succeeds and loses none: what was taken,
/// followed by what is left, is what was held. It touches nothing else.
pub proof fn law_emitted_bytes_were_held(
    conn: &mut rustls::client::ClientConnection,
    out: Result<Vec<u8>, String>,
)
    requires
        call_ensures(emit, (conn,), out),
    ensures
        out matches Ok(bytes) && bytes@ + crate::tls::tls_outgoing(*final(conn))
            == crate::tls::tls_outgoing(*old(conn)) && bytes@.len() == crate::tls::tls_flight_len(
            *old(conn),
        ) && (crate::tls::tls_outgoing(*old(conn)).len() > 0 ==> bytes@.len() > 0),
        crate::tls::tls_incoming(*final(conn)) == crate::tls::tls_incoming(*old(conn)),
        crate::tls::tls_handshaking(*final(conn)) == crate::tls::tls_handshaking(*old(conn)),
        crate::tls::tls_peer_closed(*final(conn)) == crate::tls::tls_peer_closed(*old(conn)),
        crate::tls::tls_alert_sent(*final(conn)) == crate::tls::tls_alert_sent(*old(conn)),
        crate::tls::tls_keys_low(*final(conn)) == crate::tls::tls_keys_low(*old(conn)),
        crate::tls::tls_failure(*final(conn)) == crate::tls::tls_failure(*old(conn)),
{
}

/// The report on a piece of handshake data is the truth: the data was refused
/// exactly if the engine refuses it, for the engine's own reason; otherwise the
/// engine has failed exactly if the report says so, for the engine's own reason;
/// and otherwise the report tells what the engine has come to. Nothing that
/// waited to go out is lost.
pub proof fn law_reports_are_true(
    conn: &mut rustls::client::ClientConnection,
    data: Vec<u8>,
    report: TlsReport,
)
    requires
        call_ensures(absorb, (conn, &data), report),
    ensures
        match crate::tls::tls_taken(*old(conn), data@) {
            Err(reason) => report matches TlsReport::ReadFailed(text) && text@ == reason,
            Ok(_) => match crate::tls::tls_failure(*final(conn)) {
                Some(reason) => report matches TlsReport::ProtocolFailed(text) && text@ == reason,
                None => report == (TlsReport::Processed {
                    peer_closed: crate::tls::tls_peer_closed(*final(conn)),
                    handshaking: crate::tls::tls_handshaking(*final(conn)),
                }),
            },
        },
        report is Processed ==> !crate::tls::tls_alert_sent(*final(conn)),
        crate::tls::tls_failure(*old(conn)) is Some ==> crate::tls::tls_failure(*final(conn))
            == crate::tls::tls_failure(*old(conn)),
        crate::tls::tls_outgoing(*old(conn)).is_prefix_of(crate::tls::tls_outgoing(*final(conn))),
        report is ReadFailed ==> {
            &&& crate::tls::tls_incoming(*final(conn)) == crate::tls::tls_incoming(*old(conn))
            &&& crate::tls::tls_outgoing(*final(conn)) == crate::tls::tls_outgoing(*old(conn))
        },
        crate::tls::tls_incoming(*final(conn)).len() <= crate::tls::tls_incoming(*old(conn)).len()
            + data@.len(),
        crate::tls::tls_handshaking(*final(conn)) ==> crate::tls::tls_handshaking(*old(conn)),
        crate::tls::tls_peer_closed(*old(conn)) ==> crate::tls::tls_peer_closed(*final(conn)),
{
}

/// Handshake data ends the worker exactly if it was refused, broke the protocol,
/// or came with the peer's goodbye. Otherwise it completes the handshake exactly
/// if the engine is done with it and it was not complete before.
pub proof fn law_verdicts(completed: bool, report: TlsReport, verdict: HandshakeVerdict)
    requires
        call_ensures(judge, (completed, report), verdict),
    ensures
        verdict is Fail <==> !(report matches TlsReport::Processed { peer_closed: false, .. }),
        verdict is Announce <==> !completed && report == (TlsReport::Processed {
            peer_closed: false,
            handshaking: false,
        }),
        report matches TlsReport::ReadFailed(reason) ==> (
        verdict matches HandshakeVerdict::Fail(text) && text@ == "read_tls: "@ + reason@),
        report matches TlsReport::ProtocolFailed(reason) ==> (
        verdict matches HandshakeVerdict::Fail(text) && text@ == reason@),
        report is Processed && verdict is Fail ==> verdict->Fail_0@
            == "peer closed connection during handshake"@,
{
}

/// Bytes from the TLS engine are written as they are, for the stage that asked
/// for them; if there are none to be had, the worker ends and says why.
pub proof fn law_handshake_bytes_are_written<M>(
    stage: WriteStage,
    out: Result<Vec<u8>, String>,
    step: SslStep<M>,
)
    requires
        call_ensures(send_handshake::<M>, (stage, out), step),
    ensures
        out matches Ok(bytes) ==> writes_handshake(step, stage, bytes@),
        out matches Err(reason) ==> (step.respond matches Some(SslThreadResponse::ExitError(told))
            && told@ == "write_tls: "@ + reason@),
        out matches Err(reason) ==> (step.next matches SslAction::Exit(Err(text)) && text@
            == "write_tls: "@ + reason@),
{
}

/// After handshake data that neither fails nor completes the handshake, what the
/// engine then holds is sent.
pub proof fn law_verdict_sends_held<M>(
    pre: SslStreamThread,
    mid: rustls::client::ClientConnection,
    post: SslStreamThread,
    step: SslStep<M>,
)
    requires
        crate::ssl::verdict_step(pre, mid, HandshakeVerdict::Continue, post, step),
    ensures
        sends_held(mid, post.stream, step),
{
    if crate::tls::tls_outgoing(mid).len() > 0 {
        let out = choose|out: Result<Vec<u8>, String>| #[trigger]
            crate::tls::tls_emitted(mid, out, post.stream) && crate::ssl::handshake_step(
                WriteStage::HandshakeFlight,
                out,
                step,
            );
        assert(writes_handshake(step, WriteStage::HandshakeFlight, out->Ok_0@));
    }
}

/// A round that takes in handshake data hands all of the data to the TLS engine
/// once. If that neither fails nor completes the handshake, the round sends what
/// the engine then holds; if it completes the handshake, what the engine holds
/// is left for the round after the announcement; if it fails, the engine is left
/// as it is.
pub proof fn law_handshake_data_is_answered<M>(
    pre: SslStreamThread,
    data: Vec<u8>,
    post: SslStreamThread,
    step: SslStep<M>,
)
    requires
        crate::ssl::ssl_step(
            pre,
            SslInput::Received(Some(SslThreadData::<M>::HandshakeData(data))),
            post,
            step,
        ),
    ensures
        exists|report: TlsReport, mid: rustls::client::ClientConnection|
            #![trigger crate::tls::tls_absorbed(pre.stream, data@, report, mid)]
            crate::tls::tls_absorbed(pre.stream, data@, report, mid) && if step.next is Exit
                || step.next is Announce {
                post.stream == mid
            } else {
                sends_held(mid, post.stream, step)
            },
{
    let (report, mid, verdict) = choose|
        report: TlsReport,
        mid: rustls::client::ClientConnection,
        verdict: HandshakeVerdict,
    |
        #![trigger crate::tls::tls_absorbed(pre.stream, data@, report, mid), crate::ssl::judged(pre.hs_completed, report, verdict)]
        crate::tls::tls_absorbed(pre.stream, data@, report, mid) && crate::ssl::judged(
            pre.hs_completed,
            report,
            verdict,
        ) && crate::ssl::verdict_step(pre, mid, verdict, post, step);
    if verdict is Continue {
        law_verdict_sends_held(pre, mid, post, step);
    }
    assert(crate::tls::tls_absorbed(pre.stream, data@, report, mid));
}

/// Once completion was announced, what the engine holds is sent.
pub proof fn law_last_flight_follows_the_announcement<M>(
    pre: SslStreamThread,
    post: SslStreamThread,
    step: SslStep<M>,
)
    requires
        crate::ssl::ssl_step(pre, SslInput::<M>::Announced(Ok(())), post, step),
    ensures
        sends_held(pre.stream, post.stream, step),
{
    if crate::tls::tls_outgoing(pre.stream).len() > 0 {
        let out = choose|out: Result<Vec<u8>, String>| #[trigger]
            crate::tls::tls_emitted(pre.stream, out, post.stream) && crate::ssl::handshake_step(
                WriteStage::HandshakeFlight,
                out,
                step,
            );
        assert(writes_handshake(step, WriteStage::HandshakeFlight, out->Ok_0@));
    }
}

/// The worker never goes back to waiting for a message from handshake data, or
/// from an announcement, while handshake bytes wait untouched.
pub proof fn law_no_flight_is_left_waiting<M>(
    pre: SslStreamThread,
    input: SslInput<M>,
    post: SslStreamThread,
    step: SslStep<M>,
)
    requires
        crate::ssl::ssl_step(pre, input, post, step),
        (input matches SslInput::Received(Some(SslThreadData::HandshakeData(_)))) || (
        input matches SslInput::Announced(Ok(_))),
        step.next is Receive,
    ensures
        crate::tls::tls_outgoing(post.stream).len() == 0,
{
}

/// Handshake data ends the worker exactly if the engine refuses it, or has then
/// failed, or the peer has then closed. The reason given is the engine's own, or
/// that the peer closed.
pub proof fn law_handshake_failures<M>(
    pre: SslStreamThread,
    data: Vec<u8>,
    post: SslStreamThread,
    step: SslStep<M>,
)
    requires
        crate::ssl::ssl_step(
            pre,
            SslInput::Received(Some(SslThreadData::<M>::HandshakeData(data))),
            post,
            step,
        ),
    ensures
        step.next is Exit <==> {
            ||| crate::tls::tls_taken(pre.stream, data@) is Err
            ||| crate::tls::tls_failure(post.stream) is Some
            ||| crate::tls::tls_peer_closed(post.stream)
        },
        step.next is Exit ==> (step.next matches SslAction::Exit(Err(text)) && text@
            == match crate::tls::tls_taken(pre.stream, data@) {
            Err(reason) => "read_tls: "@ + reason,
            Ok(_) => match crate::tls::tls_failure(post.stream) {
                Some(reason) => reason,
                None => "peer closed connection during handshake"@,
            },
        }),
        crate::tls::tls_failure(pre.stream) is Some ==> step.next is Exit,
{
}

/// Completion is announced exactly when handshake data leaves the engine done
/// with the handshake, for the first time, and nothing went wrong. The worker
/// then counts it as complete, and at no other time.
pub proof fn law_completion_is_announced<M>(
    pre: SslStreamThread,
    input: SslInput<M>,
    post: SslStreamThread,
    step: SslStep<M>,
)
    requires
        crate::ssl::ssl_step(pre, input, post, step),
    ensures
        step.next is Announce <==> {
            &&& input matches SslInput::Received(Some(SslThreadData::HandshakeData(_)))
            &&& !(step.next is Exit)
            &&& !pre.hs_completed
            &&& !crate::tls::tls_handshaking(post.stream)
        },
        step.next is Announce ==> step.respond is None,
        post.hs_completed == (pre.hs_completed || step.next is Announce),
{
}

/// The first flight counts as sent once it was written, and at no other time.
pub proof fn law_start_counts_once_written<M>(
    pre: SslStreamThread,
    input: SslInput<M>,
    post: SslStreamThread,
    step: SslStep<M>,
)
    requires
        crate::ssl::ssl_step(pre, input, post, step),
    ensures
        post.hs_started == (pre.hs_started || input == SslInput::<M>::Written(
            WriteStage::HandshakeStart,
            crate::ssl::WriteOutcome::Written,
        )),
        step.next matches SslAction::Write { stage: WriteStage::HandshakeStart, .. } <==> {
            &&& input == SslInput::Received(Some(SslThreadData::<M>::HandshakeStart))
            &&& !pre.hs_started
        },
        step.next matches SslAction::Write { stage: WriteStage::HandshakeFlight, .. } ==> (
        input matches SslInput::Received(Some(SslThreadData::HandshakeData(_)))) || (
        input matches SslInput::Announced(Ok(_))),
{
}

/// Only the handshake touches the TLS engine: the first start request, handshake
/// data, and the flight after the announcement.
pub proof fn law_only_the_handshake_touches_the_engine<M>(
    pre: SslStreamThread,
    input: SslInput<M>,
    post: SslStreamThread,
    step: SslStep<M>,
)
    requires
        crate::ssl::ssl_step(pre, input, post, step),
        match input {
            SslInput::Received(Some(SslThreadData::HandshakeStart)) => pre.hs_started,
            SslInput::Received(Some(SslThreadData::HandshakeData(_))) => false,
            SslInput::Announced(Ok(_)) => false,
            _ => true,
        },
    ensures
        post.stream == pre.stream,
{
}

} // verus!
