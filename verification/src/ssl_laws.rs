//! What holds of every step, and of every run, of the TLS worker.

use vstd::prelude::*;

use crate::frame::AndroidAutoFrame;
use crate::ssl::{
    fail, write_failure_text, SslAction, SslInput, SslStep, SslStreamThread, SslThreadData,
    SslThreadResponse, WriteFailure, WriteOutcome, WritePayload, WriteStage,
};

verus! {

/// Whether a step writes this frame, as an ordinary one, and tells nobody
/// anything.
pub open spec fn writes_frame<M>(step: SslStep<M>, f: AndroidAutoFrame) -> bool {
    &&& step.respond is None
    &&& step.next == SslAction::<M>::Write {
        stage: WriteStage::Frame,
        payload: WritePayload::Frame(f),
    }
}

/// Whether a step ends the worker with an error.
pub open spec fn exits_with_error<M>(step: SslStep<M>) -> bool {
    step.next matches SslAction::Exit(Err(_))
}

/// The TLS bytes that a step puts on the wire.
pub open spec fn handshake_bytes<M>(step: SslStep<M>) -> Seq<u8> {
    match step.next {
        SslAction::Write { payload: WritePayload::Handshake(bytes), .. } => bytes@,
        _ => seq![],
    }
}

/// A worker is sound if it believes the handshake complete only when the TLS
/// engine is done with it.
pub open spec fn sound(w: SslStreamThread) -> bool {
    w.hs_completed ==> !crate::tls::tls_handshaking(w.stream)
}

/// A run of the worker: round `i` takes it from `pres[i]` to `posts[i]`. What is
/// done between the rounds may touch the TLS engine, to encrypt or decrypt a
/// frame, but not the worker's own flags.
pub open spec fn ssl_run<M>(
    pres: Seq<SslStreamThread>,
    inputs: Seq<SslInput<M>>,
    posts: Seq<SslStreamThread>,
    steps: Seq<SslStep<M>>,
) -> bool {
    &&& pres.len() == inputs.len()
    &&& posts.len() == inputs.len()
    &&& steps.len() == inputs.len()
    &&& forall|i: int|
        #![trigger steps[i]]
        0 <= i < steps.len() ==> crate::ssl::ssl_step(pres[i], inputs[i], posts[i], steps[i])
    &&& forall|i: int|
        #![trigger posts[i]]
        0 <= i < posts.len() - 1 ==> pres[i + 1].hs_started == posts[i].hs_started && pres[i
            + 1].hs_completed == posts[i].hs_completed
}

/// A frame that requires encryption is written only once the handshake has
/// completed; in a sound worker, the TLS engine is then done with it too.
pub proof fn law_no_encrypted_frame_before_completion<M>(
    pre: SslStreamThread,
    input: SslInput<M>,
    post: SslStreamThread,
    step: SslStep<M>,
    f: AndroidAutoFrame,
)
    requires
        crate::ssl::ssl_step(pre, input, post, step),
        step.next matches SslAction::Write { payload: WritePayload::Frame(g), .. } && g == f,
        f.header.frame.encryption,
    ensures
        pre.hs_completed,
        sound(pre) ==> !crate::tls::tls_handshaking(pre.stream),
{
}

/// A frame to send that is in the clear is written as it is, whatever the state
/// of the handshake, and so is an encrypted one once the handshake has
/// completed. An encrypted one before that is discarded, and nothing else
/// happens.
pub proof fn law_send_or_discard<M>(
    pre: SslStreamThread,
    f: AndroidAutoFrame,
    post: SslStreamThread,
    step: SslStep<M>,
)
    requires
        crate::ssl::ssl_step(
            pre,
            SslInput::Received(Some(SslThreadData::<M>::Frame(f))),
            post,
            step,
        ) || crate::ssl::ssl_step(pre, SslInput::<M>::Resolved(Some(f)), post, step),
    ensures
        post == pre,
        !f.header.frame.encryption || pre.hs_completed ==> writes_frame(step, f),
        f.header.frame.encryption && !pre.hs_completed ==> crate::handshake_laws::only_waits(step),
{
}

/// One round of the worker, whatever it is about, is one of the rounds that the
/// laws speak of.
pub proof fn law_run_is_a_round<M>(
    worker: &mut SslStreamThread,
    input: SslInput<M>,
    step: SslStep<M>,
)
    requires
        call_ensures(SslStreamThread::run::<M>, (worker, input), step),
    ensures
        crate::ssl::ssl_step(*old(worker), input, *final(worker), step),
{
}

/// Handling a message is the round in which that message was received.
pub proof fn law_handling_is_a_round<M>(
    worker: &mut SslStreamThread,
    m: SslThreadData<M>,
    step: SslStep<M>,
)
    requires
        call_ensures(SslStreamThread::handle_receive::<M>, (worker, m), step),
    ensures
        crate::ssl::ssl_step(*old(worker), SslInput::Received(Some(m)), *final(worker), step),
{
}

/// A worker starts out with nothing done, around the connection it was given.
pub proof fn law_new_worker(conn: rustls::client::ClientConnection, worker: SslStreamThread)
    requires
        call_ensures(SslStreamThread::new, (conn,), worker),
    ensures
        worker.stream == conn,
        !worker.hs_started,
        !worker.hs_completed,
{
}

/// What comes of a decryption, and of a frame to send, is what comes of it in a
/// round of the worker.
pub proof fn law_outcomes_are_rounds<M>(
    worker: SslStreamThread,
    outcome: Result<AndroidAutoFrame, String>,
    f: AndroidAutoFrame,
    decrypted: SslStep<M>,
    sent: SslStep<M>,
    written: SslStep<M>,
)
    requires
        call_ensures(SslStreamThread::frame_decrypted::<M>, (&worker, outcome), decrypted),
        call_ensures(SslStreamThread::send_or_discard::<M>, (&worker, f), sent),
        call_ensures(SslStreamThread::write_frame_now::<M>, (&worker, f), written),
    ensures
        crate::ssl::ssl_step(worker, SslInput::<M>::Decrypted(outcome), worker, decrypted),
        crate::ssl::ssl_step(worker, SslInput::<M>::Resolved(Some(f)), worker, sent),
        writes_frame(written, f),
{
}

/// A message to write is always resolved, whatever the state of the handshake,
/// and nothing else is; the worker stays as it is.
pub proof fn law_messages_are_resolved<M>(
    pre: SslStreamThread,
    input: SslInput<M>,
    post: SslStreamThread,
    step: SslStep<M>,
    m: M,
)
    requires
        crate::ssl::ssl_step(pre, input, post, step),
    ensures
        step.next == SslAction::Resolve(m) <==> input == SslInput::Received(
            Some(SslThreadData::PlainData(m)),
        ),
        step.next == SslAction::Resolve(m) ==> step.respond is None && post == pre,
{
}

/// A frame to decrypt is always handed over for decryption, whatever the state
/// of the handshake, and nothing else is; the worker stays as it is.
pub proof fn law_frames_are_decrypted<M>(
    pre: SslStreamThread,
    input: SslInput<M>,
    post: SslStreamThread,
    step: SslStep<M>,
    f: AndroidAutoFrame,
)
    requires
        crate::ssl::ssl_step(pre, input, post, step),
    ensures
        step.next == SslAction::<M>::Decrypt(f) <==> input == SslInput::Received(
            Some(SslThreadData::<M>::DecryptMe(f)),
        ),
        step.next == SslAction::<M>::Decrypt(f) ==> step.respond is None && post == pre,
{
}

/// The frame that a round has to send, if any: one that was received to be
/// written, or one that a message was resolved to.
pub open spec fn frame_to_send<M>(input: SslInput<M>) -> Option<AndroidAutoFrame> {
    match input {
        SslInput::Received(Some(SslThreadData::Frame(f))) => Some(f),
        SslInput::Resolved(found) => found,
        _ => None,
    }
}

/// A frame is written exactly if it was to be sent, and is in the clear or comes
/// after the handshake; it is written unchanged.
pub proof fn law_frames_are_written<M>(
    pre: SslStreamThread,
    input: SslInput<M>,
    post: SslStreamThread,
    step: SslStep<M>,
    f: AndroidAutoFrame,
)
    requires
        crate::ssl::ssl_step(pre, input, post, step),
    ensures
        writes_frame(step, f) <==> frame_to_send(input) == Some(f) && (!f.header.frame.encryption
            || pre.hs_completed),
        step.next matches SslAction::Write { stage, payload } ==> (stage is Frame
            <==> payload is Frame),
        step.next matches SslAction::Write { payload: WritePayload::Frame(g), .. } ==> writes_frame(
            step,
            g,
        ),
{
}

/// Nothing is dropped but what has to be: the worker passes over an input only
/// if that is an encrypted frame to send before the handshake has completed, a
/// message that no channel takes, a second start request, a frame that could not
/// be decrypted before the handshake has completed, a write that went well, or
/// handshake data after which nothing waits to be sent.
pub proof fn law_nothing_else_is_dropped<M>(
    pre: SslStreamThread,
    input: SslInput<M>,
    post: SslStreamThread,
    step: SslStep<M>,
)
    requires
        crate::ssl::ssl_step(pre, input, post, step),
        crate::handshake_laws::only_waits(step),
    ensures
        match input {
            SslInput::Received(Some(SslThreadData::Frame(f))) => f.header.frame.encryption
                && !pre.hs_completed,
            SslInput::Received(Some(SslThreadData::HandshakeStart)) => pre.hs_started,
            SslInput::Received(Some(SslThreadData::HandshakeData(_))) => crate::tls::tls_outgoing(
                post.stream,
            ).len() == 0,
            SslInput::Received(_) => false,
            SslInput::Decrypted(outcome) => outcome is Err && !pre.hs_completed,
            SslInput::Resolved(Some(f)) => f.header.frame.encryption && !pre.hs_completed,
            SslInput::Resolved(None) => true,
            SslInput::Announced(heard) => heard is Ok && crate::tls::tls_outgoing(
                pre.stream,
            ).len() == 0,
            SslInput::Written(_, outcome) => outcome is Written,
        },
{
}

/// What has to be passed over is passed over: a message that no channel takes,
/// and a write that went well, lead back to waiting.
pub proof fn law_worker_goes_on<M>(
    pre: SslStreamThread,
    stage: WriteStage,
    post: SslStreamThread,
    step: SslStep<M>,
)
    requires
        crate::ssl::ssl_step(pre, SslInput::<M>::Resolved(None), post, step)
            || crate::ssl::ssl_step(
            pre,
            SslInput::<M>::Written(stage, WriteOutcome::Written),
            post,
            step,
        ),
    ensures
        crate::handshake_laws::only_waits(step),
{
}

/// The worker ends without an error exactly when there are no more messages.
pub proof fn law_ends_with_the_messages<M>(
    pre: SslStreamThread,
    input: SslInput<M>,
    post: SslStreamThread,
    step: SslStep<M>,
)
    requires
        crate::ssl::ssl_step(pre, input, post, step),
    ensures
        step.next == SslAction::<M>::Exit(Ok(())) <==> input == SslInput::<M>::Received(None),
        step.next == SslAction::<M>::Exit(Ok(())) ==> step.respond is None && post == pre,
{
}

/// Besides handshake data, the worker fails exactly on a frame that could not be
/// decrypted after the handshake, on an announcement that nobody heard, and on a
/// write that went wrong.
pub proof fn law_failures<M>(
    pre: SslStreamThread,
    input: SslInput<M>,
    post: SslStreamThread,
    step: SslStep<M>,
)
    requires
        crate::ssl::ssl_step(pre, input, post, step),
        !(input matches SslInput::Received(Some(SslThreadData::HandshakeData(_)))),
    ensures
        exits_with_error(step) <==> match input {
            SslInput::Decrypted(outcome) => outcome is Err && pre.hs_completed,
            SslInput::Announced(heard) => heard is Err,
            SslInput::Written(_, outcome) => !(outcome is Written),
            _ => false,
        },
        input matches SslInput::Announced(Err(reason)) ==> (
        step.next matches SslAction::Exit(Err(text)) && text@ == reason@),
        input matches SslInput::Written(_, WriteOutcome::BuildFailed(reason)) ==> (
        step.next matches SslAction::Exit(Err(text)) && text@ == reason@),
        input matches SslInput::Written(stage, WriteOutcome::WriteFailed(failure)) ==> (
        step.next matches SslAction::Exit(Err(text)) && text@ == crate::ssl::failure_text(
            stage,
            failure,
        )),
{
}

/// A failure is told with its reason, in both places, and nothing else happens.
pub proof fn law_fail_tells_why<M>(text: String, step: SslStep<M>)
    requires
        call_ensures(fail::<M>, (text,), step),
    ensures
        step.respond matches Some(SslThreadResponse::ExitError(told)) && told@ == text@,
        step.next matches SslAction::Exit(Err(reason)) && reason@ == text@,
{
}

/// The reason given for a failed write names what happened, in the words of its
/// stage, and passes on the error where there is no word for it.
pub proof fn law_write_failures_are_named(stage: WriteStage, failure: WriteFailure, text: String)
    requires
        call_ensures(write_failure_text, (stage, failure), text),
    ensures
        failure matches WriteFailure::Other { display, debug } ==> text@ == if stage is Frame {
            "Unexpected("@ + debug@ + ")"@
        } else {
            "write error: "@ + display@
        },
        failure is TimedOut ==> text@ == if stage is Frame {
            "Timeout"@
        } else if stage is HandshakeStart {
            "write timed out"@
        } else {
            "Timed out"@
        },
        failure is UnexpectedEof ==> text@ == if stage is HandshakeStart {
            "write disconnected"@
        } else {
            "Disconnected"@
        },
        text@ == crate::ssl::failure_text(stage, failure),
{
}

/// A write is followed by a flush if it went well, and one of an ordinary frame
/// in any case.
pub proof fn law_flushes(stage: WriteStage, written: bool, r: bool)
    requires
        call_ensures(WriteStage::flushes, (&stage, written), r),
    ensures
        written ==> r,
        !written ==> (r <==> stage is Frame),
{
}

/// The messages received to be written in the first `n` rounds.
pub open spec fn messages_received<M>(inputs: Seq<SslInput<M>>, n: int) -> Seq<M>
    decreases n,
{
    if n <= 0 {
        seq![]
    } else {
        match inputs[n - 1] {
            SslInput::Received(Some(SslThreadData::PlainData(m))) => messages_received(
                inputs,
                n - 1,
            ).push(m),
            _ => messages_received(inputs, n - 1),
        }
    }
}

/// The messages that the first `n` rounds have resolved.
pub open spec fn messages_resolved<M>(steps: Seq<SslStep<M>>, n: int) -> Seq<M>
    decreases n,
{
    if n <= 0 {
        seq![]
    } else {
        match steps[n - 1].next {
            SslAction::Resolve(m) => messages_resolved(steps, n - 1).push(m),
            _ => messages_resolved(steps, n - 1),
        }
    }
}

/// The frames received to be decrypted in the first `n` rounds.
pub open spec fn frames_received<M>(inputs: Seq<SslInput<M>>, n: int) -> Seq<AndroidAutoFrame>
    decreases n,
{
    if n <= 0 {
        seq![]
    } else {
        match inputs[n - 1] {
            SslInput::Received(Some(SslThreadData::DecryptMe(f))) => frames_received(
                inputs,
                n - 1,
            ).push(f),
            _ => frames_received(inputs, n - 1),
        }
    }
}

/// The frames that the first `n` rounds hand over for decryption.
pub open spec fn frames_handed_over<M>(steps: Seq<SslStep<M>>, n: int) -> Seq<AndroidAutoFrame>
    decreases n,
{
    if n <= 0 {
        seq![]
    } else {
        match steps[n - 1].next {
            SslAction::Decrypt(f) => frames_handed_over(steps, n - 1).push(f),
            _ => frames_handed_over(steps, n - 1),
        }
    }
}

/// The frames that decryption brought back in the first `n` rounds.
pub open spec fn frames_decrypted<M>(inputs: Seq<SslInput<M>>, n: int) -> Seq<AndroidAutoFrame>
    decreases n,
{
    if n <= 0 {
        seq![]
    } else {
        match inputs[n - 1] {
            SslInput::Decrypted(Ok(f)) => frames_decrypted(inputs, n - 1).push(f),
            _ => frames_decrypted(inputs, n - 1),
        }
    }
}

/// The frames that the first `n` rounds hand to the rest of the program.
pub open spec fn frames_delivered<M>(steps: Seq<SslStep<M>>, n: int) -> Seq<AndroidAutoFrame>
    decreases n,
{
    if n <= 0 {
        seq![]
    } else {
        match steps[n - 1].respond {
            Some(SslThreadResponse::Data(f)) => frames_delivered(steps, n - 1).push(f),
            _ => frames_delivered(steps, n - 1),
        }
    }
}

/// Over a run, nothing on its way through the worker is lost, repeated or
/// reordered: the messages resolved are those received, the frames handed over
/// for decryption are those received for it, and the frames delivered are those
/// that decryption brought back.
pub proof fn law_traffic_keeps_its_order<M>(
    pres: Seq<SslStreamThread>,
    inputs: Seq<SslInput<M>>,
    posts: Seq<SslStreamThread>,
    steps: Seq<SslStep<M>>,
    n: int,
)
    requires
        ssl_run(pres, inputs, posts, steps),
        0 <= n <= steps.len(),
    ensures
        messages_resolved(steps, n) == messages_received(inputs, n),
        frames_handed_over(steps, n) == frames_received(inputs, n),
        frames_delivered(steps, n) == frames_decrypted(inputs, n),
    decreases n,
{
    if n > 0 {
        law_traffic_keeps_its_order(pres, inputs, posts, steps, n - 1);
        let _ = steps[n - 1];
    }
}

/// A start request after the first flight was sent changes nothing and takes
/// nothing from the TLS engine.
pub proof fn law_duplicate_start_is_ignored<M>(
    pre: SslStreamThread,
    post: SslStreamThread,
    step: SslStep<M>,
)
    requires
        pre.hs_started,
        crate::ssl::ssl_step(
            pre,
            SslInput::Received(Some(SslThreadData::<M>::HandshakeStart)),
            post,
            step,
        ),
    ensures
        post == pre,
        crate::handshake_laws::only_waits(step),
{
}

/// A frame that cannot be decrypted is dropped while the handshake is under
/// way, and ends the worker afterwards.
pub proof fn law_undecryptable_frames<M>(
    pre: SslStreamThread,
    reason: String,
    post: SslStreamThread,
    step: SslStep<M>,
)
    requires
        crate::ssl::ssl_step(pre, SslInput::<M>::Decrypted(Err(reason)), post, step),
    ensures
        post == pre,
        !pre.hs_completed ==> crate::handshake_laws::only_waits(step),
        pre.hs_completed ==> (step.next matches SslAction::Exit(Err(text)) && text@
            == "frame error "@ + reason@),
{
}

/// The worker ends with an error exactly when it reports one, and gives the
/// same reason in both places.
pub proof fn law_errors_are_reported<M>(
    pre: SslStreamThread,
    input: SslInput<M>,
    post: SslStreamThread,
    step: SslStep<M>,
)
    requires
        crate::ssl::ssl_step(pre, input, post, step),
    ensures
        exits_with_error(step) <==> step.respond matches Some(SslThreadResponse::ExitError(_)),
        step.next matches SslAction::Exit(Err(reason)) ==> (
        step.respond matches Some(SslThreadResponse::ExitError(told)) && told@ == reason@),
{
}

/// Frames reach the rest of the program only after decryption, unchanged.
pub proof fn law_only_decrypted_frames_are_delivered<M>(
    pre: SslStreamThread,
    input: SslInput<M>,
    post: SslStreamThread,
    step: SslStep<M>,
    f: AndroidAutoFrame,
)
    requires
        crate::ssl::ssl_step(pre, input, post, step),
    ensures
        step.respond == Some(SslThreadResponse::Data(f)) <==> input == SslInput::<M>::Decrypted(
            Ok(f),
        ),
        step.respond matches Some(SslThreadResponse::Data(_)) ==> step.next is Receive && post
            == pre,
        !(step.respond matches Some(SslThreadResponse::HandshakeComplete)),
{
}

/// The two flags of the worker are never taken back.
pub proof fn law_flags_only_rise<M>(
    pre: SslStreamThread,
    input: SslInput<M>,
    post: SslStreamThread,
    step: SslStep<M>,
)
    requires
        crate::ssl::ssl_step(pre, input, post, step),
    ensures
        pre.hs_started ==> post.hs_started,
        pre.hs_completed ==> post.hs_completed,
{
}

/// A sound worker stays sound, and completion is announced only when the TLS
/// engine is done with the handshake.
pub proof fn law_completion_is_genuine<M>(
    pre: SslStreamThread,
    input: SslInput<M>,
    post: SslStreamThread,
    step: SslStep<M>,
)
    requires
        crate::ssl::ssl_step(pre, input, post, step),
        sound(pre),
    ensures
        sound(post),
        step.next is Announce ==> post.hs_completed && !crate::tls::tls_handshaking(post.stream),
{
}

/// The worker never goes on with a TLS engine that it brought to send a closing
/// alert: if none was sent before a round, none was sent after it, unless the
/// worker fails.
pub proof fn law_no_alert_without_failure<M>(
    pre: SslStreamThread,
    input: SslInput<M>,
    post: SslStreamThread,
    step: SslStep<M>,
)
    requires
        crate::ssl::ssl_step(pre, input, post, step),
        !crate::tls::tls_alert_sent(pre.stream),
        !exits_with_error(step),
    ensures
        !crate::tls::tls_alert_sent(post.stream),
{
}

/// Handshake bytes are neither lost, repeated nor reordered: what a step sends,
/// followed by what still waits, extends what waited before.
pub proof fn law_handshake_bytes_are_conserved<M>(
    pre: SslStreamThread,
    input: SslInput<M>,
    post: SslStreamThread,
    step: SslStep<M>,
)
    requires
        crate::ssl::ssl_step(pre, input, post, step),
    ensures
        crate::tls::tls_outgoing(pre.stream).is_prefix_of(
            handshake_bytes(step) + crate::tls::tls_outgoing(post.stream),
        ),
{
    if handshake_bytes(step).len() == 0 {
        assert(handshake_bytes(step) + crate::tls::tls_outgoing(post.stream)
            =~= crate::tls::tls_outgoing(post.stream));
    }
}

/// A start request before the first flight was sent sends the bytes that the TLS
/// engine gives up for it, and nothing stands in its way.
pub proof fn law_start_sends_the_first_flight<M>(
    pre: SslStreamThread,
    post: SslStreamThread,
    step: SslStep<M>,
)
    requires
        !pre.hs_started,
        crate::ssl::ssl_step(
            pre,
            SslInput::Received(Some(SslThreadData::<M>::HandshakeStart)),
            post,
            step,
        ),
    ensures
        step.respond is None,
        step.next matches SslAction::Write {
            stage: WriteStage::HandshakeStart,
            payload: WritePayload::Handshake(_),
        },
        handshake_bytes(step).len() == crate::tls::tls_flight_len(pre.stream),
        handshake_bytes(step) + crate::tls::tls_outgoing(post.stream) == crate::tls::tls_outgoing(
            pre.stream,
        ),
{
}

/// A later flight of the handshake is never empty.
pub proof fn law_flights_are_not_empty<M>(
    pre: SslStreamThread,
    input: SslInput<M>,
    post: SslStreamThread,
    step: SslStep<M>,
)
    requires
        crate::ssl::ssl_step(pre, input, post, step),
        step.next matches SslAction::Write { stage: WriteStage::HandshakeFlight, .. },
    ensures
        handshake_bytes(step).len() > 0,
{
}

/// All handshake bytes that the first `n` rounds of a run put on the wire.
pub open spec fn sent_bytes<M>(steps: Seq<SslStep<M>>, n: int) -> Seq<u8>
    decreases n,
{
    if n <= 0 {
        seq![]
    } else {
        sent_bytes(steps, n - 1) + handshake_bytes(steps[n - 1])
    }
}

/// Over a whole run in which nothing else takes bytes from the TLS engine, what
/// waited at the start goes out first, in order: all that
/// was sent, followed by what still waits, begins with it.
pub proof fn law_handshake_stream<M>(
    pres: Seq<SslStreamThread>,
    inputs: Seq<SslInput<M>>,
    posts: Seq<SslStreamThread>,
    steps: Seq<SslStep<M>>,
    n: int,
)
    requires
        ssl_run(pres, inputs, posts, steps),
        0 < n <= steps.len(),
        forall|i: int|
            #![trigger posts[i]]
            0 <= i < n - 1 ==> crate::tls::tls_outgoing(pres[i + 1].stream)
                == crate::tls::tls_outgoing(posts[i].stream),
    ensures
        crate::tls::tls_outgoing(pres[0].stream).is_prefix_of(
            sent_bytes(steps, n) + crate::tls::tls_outgoing(posts[n - 1].stream),
        ),
    decreases n,
{
    let k = n - 1;
    let _ = steps[k];
    law_handshake_bytes_are_conserved(pres[k], inputs[k], posts[k], steps[k]);
    let first = crate::tls::tls_outgoing(pres[0].stream);
    let before = crate::tls::tls_outgoing(pres[k].stream);
    let after = handshake_bytes(steps[k]) + crate::tls::tls_outgoing(posts[k].stream);
    assert(sent_bytes(steps, n) + crate::tls::tls_outgoing(posts[k].stream) =~= sent_bytes(steps, k)
        + after);
    if k > 0 {
        law_handshake_stream(pres, inputs, posts, steps, k);
        assert(before == crate::tls::tls_outgoing(posts[k - 1].stream));
        let mid = sent_bytes(steps, k) + before;
        assert(first.is_prefix_of(mid));
        assert(mid.is_prefix_of(sent_bytes(steps, k) + after));
    } else {
        assert(sent_bytes(steps, k) + after =~= after);
    }
}

/// Over a run, a flag that is up after one round is up before every later one.
proof fn lemma_flags_persist<M>(
    pres: Seq<SslStreamThread>,
    inputs: Seq<SslInput<M>>,
    posts: Seq<SslStreamThread>,
    steps: Seq<SslStep<M>>,
    i: int,
    j: int,
)
    requires
        ssl_run(pres, inputs, posts, steps),
        0 <= i < j < steps.len(),
    ensures
        posts[i].hs_started ==> pres[j].hs_started,
        posts[i].hs_completed ==> pres[j].hs_completed,
    decreases j - i,
{
    if j > i + 1 {
        lemma_flags_persist(pres, inputs, posts, steps, i, j - 1);
        let _ = steps[j - 1];
        law_flags_only_rise(pres[j - 1], inputs[j - 1], posts[j - 1], steps[j - 1]);
    }
    let _ = posts[j - 1];
}

/// Whether `input` is an outcome of `action`.
pub open spec fn answers<M>(action: SslAction<M>, input: SslInput<M>) -> bool {
    match (action, input) {
        (SslAction::Receive, SslInput::Received(_)) => true,
        (SslAction::Decrypt(_), SslInput::Decrypted(_)) => true,
        (SslAction::Resolve(_), SslInput::Resolved(_)) => true,
        (SslAction::Announce, SslInput::Announced(_)) => true,
        (SslAction::Write { stage, .. }, SslInput::Written(written, _)) => written == stage,
        _ => false,
    }
}

/// How many more rounds an action can lead to before the worker waits for the
/// next message or ends.
pub open spec fn rounds_left<M>(action: SslAction<M>) -> nat {
    match action {
        SslAction::Receive | SslAction::Exit(_) => 0,
        SslAction::Decrypt(_) | SslAction::Write { .. } => 1,
        SslAction::Resolve(_) | SslAction::Announce => 2,
    }
}

/// Every message is dealt with in a bounded number of rounds: each outcome
/// brings the worker closer to waiting for the next message or to its end.
pub proof fn law_every_message_is_finished<M>(
    action: SslAction<M>,
    pre: SslStreamThread,
    input: SslInput<M>,
    post: SslStreamThread,
    step: SslStep<M>,
)
    requires
        answers(action, input),
        crate::ssl::ssl_step(pre, input, post, step),
    ensures
        rounds_left(step.next) <= 2,
        !(action is Receive) ==> rounds_left(step.next) < rounds_left(action),
{
}

/// Completion is announced at most once in a run.
pub proof fn law_announced_at_most_once<M>(
    pres: Seq<SslStreamThread>,
    inputs: Seq<SslInput<M>>,
    posts: Seq<SslStreamThread>,
    steps: Seq<SslStep<M>>,
    i: int,
    j: int,
)
    requires
        ssl_run(pres, inputs, posts, steps),
        0 <= i < j < steps.len(),
        steps[i].next is Announce,
    ensures
        !(steps[j].next is Announce),
{
    lemma_flags_persist(pres, inputs, posts, steps, i, j);
}

/// Once the first flight of the handshake is on the wire, no later round of the
/// run starts the handshake again.
pub proof fn law_started_at_most_once<M>(
    pres: Seq<SslStreamThread>,
    inputs: Seq<SslInput<M>>,
    posts: Seq<SslStreamThread>,
    steps: Seq<SslStep<M>>,
    i: int,
    j: int,
)
    requires
        ssl_run(pres, inputs, posts, steps),
        0 <= i < j < steps.len(),
        inputs[i] == SslInput::<M>::Written(WriteStage::HandshakeStart, WriteOutcome::Written),
    ensures
        !(steps[j].next matches SslAction::Write { stage: WriteStage::HandshakeStart, .. }),
{
    let _ = steps[i];
    lemma_flags_persist(pres, inputs, posts, steps, i, j);
    let _ = steps[j];
}

} // verus!
