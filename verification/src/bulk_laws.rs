//! What holds of every run of the bulk reader and the bulk writer.

use vstd::prelude::*;

use crate::bulk::{
    AndroidAutoUsb, DrainStep, ReadEvent, ReadNext, ReadStep, ReaderModel, TransferPoll,
    UsbBulkReader, UsbBulkWriter, WriteStep,
};

verus! {

/// The bytes that an event brings.
pub open spec fn arrived(event: ReadEvent) -> Seq<u8> {
    match event {
        ReadEvent::Completed(Ok(data)) => data@,
        _ => seq![],
    }
}

/// The bytes that a step hands on.
pub open spec fn delivered(step: ReadStep) -> Seq<u8> {
    match step.next {
        ReadNext::Deliver(out) => out@,
        _ => seq![],
    }
}

/// How many transfers an event takes out of flight.
pub open spec fn completions(event: ReadEvent) -> nat {
    if event is Completed {
        1
    } else {
        0
    }
}

/// All bytes that the first `n` events bring.
pub open spec fn total_arrived(events: Seq<ReadEvent>, n: int) -> Seq<u8>
    decreases n,
{
    if n <= 0 {
        seq![]
    } else {
        total_arrived(events, n - 1) + arrived(events[n - 1])
    }
}

/// All bytes that the first `n` steps hand on.
pub open spec fn total_delivered(steps: Seq<ReadStep>, n: int) -> Seq<u8>
    decreases n,
{
    if n <= 0 {
        seq![]
    } else {
        total_delivered(steps, n - 1) + delivered(steps[n - 1])
    }
}

/// How many transfers complete in the first `n` events.
pub open spec fn total_completions(events: Seq<ReadEvent>, n: int) -> nat
    decreases n,
{
    if n <= 0 {
        0
    } else {
        total_completions(events, n - 1) + completions(events[n - 1])
    }
}

/// How many transfers the first `n` steps submit.
pub open spec fn total_submitted(steps: Seq<ReadStep>, n: int) -> nat
    decreases n,
{
    if n <= 0 {
        0
    } else {
        total_submitted(steps, n - 1) + steps[n - 1].submit as nat
    }
}

/// A run of the reader: event `i` takes it from `states[i]` to `states[i + 1]`.
pub open spec fn reader_run(
    states: Seq<ReaderModel>,
    events: Seq<ReadEvent>,
    rooms: Seq<nat>,
    steps: Seq<ReadStep>,
) -> bool {
    &&& states.len() == events.len() + 1
    &&& rooms.len() == events.len()
    &&& steps.len() == events.len()
    &&& forall|i: int|
        #![trigger steps[i]]
        0 <= i < steps.len() ==> states[i].accepts(events[i]) && crate::bulk::read_step(
            states[i],
            events[i],
            rooms[i],
            states[i + 1],
            steps[i],
        )
}

/// A step towards reading is one of the steps that the laws speak of.
pub proof fn law_poll_read_is_a_step(
    reader: &mut UsbBulkReader,
    event: ReadEvent,
    room: usize,
    step: ReadStep,
)
    requires
        call_ensures(UsbBulkReader::poll_read, (reader, event, room), step),
    ensures
        crate::bulk::read_step(old(reader)@, event, room as nat, final(reader)@, step),
        final(reader).wf(),
{
}

/// Handing on what is at hand gives as much of it as there is room for, from the
/// front, and keeps the rest; something is handed on whenever there is something
/// and room for it. With nothing at hand, the next transfer is looked at.
pub proof fn law_draining_fills_the_room(bytes: Seq<u8>, room: nat, left: Seq<u8>, next: ReadNext)
    requires
        crate::bulk::drained(bytes, room, left, next),
    ensures
        next is Deliver <==> bytes.len() > 0,
        next is PollTransfer <==> bytes.len() == 0,
        next matches ReadNext::Deliver(out) ==> {
            &&& out@.len() <= room
            &&& out@ + left == bytes
            &&& out@.len() == room || left.len() == 0
            &&& room > 0 ==> out@.len() > 0
        },
        next is PollTransfer ==> left.len() == 0,
{
    if next is Deliver {
        assert(next->Deliver_0@ + left =~= bytes);
    }
}

/// A reader gets as much as is at hand and as it has room for: the smaller of
/// the two. Bytes that have just arrived are at hand at once, and an empty
/// delivery, which would pass for the end of the stream, happens only without
/// room.
pub proof fn law_reads_fill_the_room(
    pre: ReaderModel,
    event: ReadEvent,
    room: nat,
    post: ReaderModel,
    step: ReadStep,
)
    requires
        pre.accepts(event),
        crate::bulk::read_step(pre, event, room, post, step),
    ensures
        step.next is Deliver <==> (pre.undelivered + arrived(event)).len() > 0,
        delivered(step).len() == if (pre.undelivered + arrived(event)).len() <= room {
            (pre.undelivered + arrived(event)).len()
        } else {
            room
        },
        delivered(step) + post.undelivered == pre.undelivered + arrived(event),
        step.next is Deliver && delivered(step).len() == 0 ==> room == 0,
{
    let hand = pre.undelivered + arrived(event);
    match event {
        ReadEvent::Begin => {
            assert(hand =~= pre.undelivered);
        },
        ReadEvent::Completed(Ok(data)) => {
            assert(hand =~= data@);
        },
        _ => {},
    }
    assert(delivered(step) + post.undelivered =~= hand);
}

/// With nothing at hand, the reader looks for a completed transfer when it is
/// asked to read or got an empty one, waits exactly when none has completed, and
/// fails exactly when one failed, for that reason.
pub proof fn law_reads_without_bytes(
    pre: ReaderModel,
    event: ReadEvent,
    room: nat,
    post: ReaderModel,
    step: ReadStep,
)
    requires
        pre.accepts(event),
        crate::bulk::read_step(pre, event, room, post, step),
    ensures
        step.next is PollTransfer <==> (pre.undelivered + arrived(event)).len() == 0 && (
        event is Begin || (event matches ReadEvent::Completed(Ok(_)))),
        step.next is Pending <==> event is NotReady,
        step.next is Fail <==> (event matches ReadEvent::Completed(Err(_))),
        event matches ReadEvent::Completed(Err(reason)) ==> (
        step.next matches ReadNext::Fail(text) && text@ == "usb bulk in transfer failed: "@
            + reason@),
{
}

/// Four transfers are submitted when the reader is first asked to read, one for
/// every transfer that completes, and none otherwise. They all ask for the same
/// number of bytes.
pub proof fn law_transfers_are_replaced(
    pre: ReaderModel,
    event: ReadEvent,
    room: nat,
    post: ReaderModel,
    step: ReadStep,
)
    requires
        pre.accepts(event),
        crate::bulk::read_step(pre, event, room, post, step),
    ensures
        step.submit == if event is Completed {
            1int
        } else if event is Begin && !pre.primed {
            4
        } else {
            0
        },
        post.primed,
        post.request_len == pre.request_len,
        post.in_flight() == 4,
{
}

/// A reader can be asked to read at any time; transfers are looked at exactly
/// when they are in flight and nothing is left to hand on.
pub proof fn law_when_transfers_are_looked_at(state: ReaderModel, event: ReadEvent)
    ensures
        event is Begin ==> state.accepts(event),
        !(event is Begin) ==> (state.accepts(event) <==> state.primed && state.undelivered.len()
            == 0),
{
}

/// A new reader has nothing in flight and nothing at hand, and its transfers ask
/// for thirty-two packets, however large those are.
pub proof fn law_new_reader(max_packet_size: usize, reader: UsbBulkReader, asked: usize)
    requires
        call_ensures(UsbBulkReader::new, (max_packet_size,), reader),
        call_ensures(UsbBulkReader::request_len, (&reader,), asked),
    ensures
        max_packet_size > 0 ==> asked == 32 * max_packet_size,
        max_packet_size == 0 ==> asked == 32,
        reader@.request_len == asked,
        !reader@.primed,
        reader@.undelivered == Seq::<u8>::empty(),
        reader@.in_flight() == 0,
        reader.wf(),
{
}

/// The interface has both directions exactly if both endpoints are there, and
/// they are a new reader and a new writer, which stay what they are apart.
pub proof fn law_both_directions(
    ep_in: Option<usize>,
    ep_out: bool,
    usb: Option<AndroidAutoUsb>,
    halves: (UsbBulkReader, UsbBulkWriter),
)
    requires
        call_ensures(AndroidAutoUsb::new, (ep_in, ep_out), usb),
        usb matches Some(both) ==> call_ensures(AndroidAutoUsb::into_split, (both,), halves),
    ensures
        usb is Some <==> ep_in is Some && ep_out,
        usb is Some ==> {
            &&& ep_in->0 > 0 ==> halves.0@.request_len == 32 * ep_in->0
            &&& ep_in->0 == 0 ==> halves.0@.request_len == 32
            &&& !halves.0@.primed
            &&& halves.0@.undelivered == Seq::<u8>::empty()
            &&& halves.0.wf()
            &&& !halves.1@
        },
{
}

/// No byte is lost, repeated or reordered: all that was handed on, followed by
/// what is still at hand, is what was at hand at first, followed by all that
/// arrived.
pub proof fn law_bytes_are_conserved(
    states: Seq<ReaderModel>,
    events: Seq<ReadEvent>,
    rooms: Seq<nat>,
    steps: Seq<ReadStep>,
    n: int,
)
    requires
        reader_run(states, events, rooms, steps),
        0 <= n <= steps.len(),
    ensures
        total_delivered(steps, n) + states[n].undelivered == states[0].undelivered + total_arrived(
            events,
            n,
        ),
    decreases n,
{
    if n == 0 {
        assert(total_delivered(steps, n) + states[n].undelivered =~= states[0].undelivered
            + total_arrived(events, n));
    } else {
        let k = n - 1;
        law_bytes_are_conserved(states, events, rooms, steps, k);
        let step = steps[k];
        let event = events[k];
        let before = states[k].undelivered;
        assert(delivered(step) + states[n].undelivered =~= before + arrived(event));
        assert(total_delivered(steps, n) + states[n].undelivered =~= total_delivered(steps, k) + (
        delivered(step) + states[n].undelivered));
        assert(total_delivered(steps, k) + (before + arrived(event)) =~= (total_delivered(steps, k)
            + before) + arrived(event));
        assert((states[0].undelivered + total_arrived(events, k)) + arrived(event)
            =~= states[0].undelivered + total_arrived(events, n));
    }
}

/// The pipeline keeps its depth: what was in flight at first, with all that was
/// submitted and without all that completed, is what is in flight now.
pub proof fn law_pipeline_depth(
    states: Seq<ReaderModel>,
    events: Seq<ReadEvent>,
    rooms: Seq<nat>,
    steps: Seq<ReadStep>,
    n: int,
)
    requires
        reader_run(states, events, rooms, steps),
        0 <= n <= steps.len(),
    ensures
        states[0].in_flight() + total_submitted(steps, n) == states[n].in_flight()
            + total_completions(events, n),
    decreases n,
{
    if n > 0 {
        law_pipeline_depth(states, events, rooms, steps, n - 1);
        let _ = steps[n - 1];
    }
}

/// The reader looks for a completed transfer only with the whole pipeline in
/// flight and nothing left to hand on.
pub proof fn law_polls_a_full_pipeline(
    pre: ReaderModel,
    event: ReadEvent,
    room: nat,
    post: ReaderModel,
    step: ReadStep,
)
    requires
        pre.accepts(event),
        crate::bulk::read_step(pre, event, room, post, step),
        step.next is PollTransfer,
    ensures
        post.in_flight() == crate::bulk::NUM_TRANSFERS,
        post.accepts(ReadEvent::NotReady),
        forall|outcome: Result<Vec<u8>, String>| post.accepts(ReadEvent::Completed(outcome)),
{
}

/// How many transfers the writer has in flight.
pub open spec fn writer_in_flight(pending: bool) -> nat {
    if pending {
        1
    } else {
        0
    }
}

/// What the writer is asked to do.
pub enum WriterCall {
    /// Write these bytes.
    Write(Seq<u8>),
    /// Flush or shut down.
    Drain,
}

/// What the writer answers.
pub enum WriterAnswer {
    /// To a write.
    Write(WriteStep),
    /// To a flush or a shutdown.
    Drain(DrainStep),
}

/// Whether the writer may answer so, and is left with a transfer in flight or
/// not.
pub open spec fn writer_step(
    pre: bool,
    call: WriterCall,
    polled: Option<TransferPoll>,
    post: bool,
    answer: WriterAnswer,
) -> bool {
    &&& polled is Some <==> pre
    &&& match (call, answer) {
        (WriterCall::Write(buf), WriterAnswer::Write(step)) => crate::bulk::write_step(
            polled,
            buf,
            post,
            step,
        ),
        (WriterCall::Drain, WriterAnswer::Drain(step)) => crate::bulk::drain_step(
            polled,
            post,
            step,
        ),
        _ => false,
    }
}

/// Whether a transfer has to be waited for.
pub open spec fn must_wait(polled: Option<TransferPoll>) -> bool {
    polled == Some(TransferPoll::NotReady)
}

/// Why a transfer failed, if it did.
pub open spec fn failed(polled: Option<TransferPoll>) -> Option<Seq<char>> {
    match polled {
        Some(TransferPoll::Failed(reason)) => Some(reason@),
        _ => None,
    }
}

/// Writing is one of the steps that the laws speak of.
pub proof fn law_poll_write_is_a_step(
    writer: &mut UsbBulkWriter,
    polled: Option<TransferPoll>,
    buf: &[u8],
    step: WriteStep,
)
    requires
        call_ensures(UsbBulkWriter::poll_write, (writer, polled, buf), step),
        polled is Some <==> old(writer)@,
    ensures
        writer_step(
            old(writer)@,
            WriterCall::Write(buf@),
            polled,
            final(writer)@,
            WriterAnswer::Write(step),
        ),
{
}

/// Waiting for the transfer in flight, flushing and shutting down are the same
/// step, which is one of those that the laws speak of.
pub proof fn law_poll_drain_is_a_step(
    writer: &mut UsbBulkWriter,
    polled: Option<TransferPoll>,
    step: DrainStep,
)
    requires
        call_ensures(UsbBulkWriter::poll_drain, (writer, polled), step) || call_ensures(
            UsbBulkWriter::poll_flush,
            (writer, polled),
            step,
        ) || call_ensures(UsbBulkWriter::poll_shutdown, (writer, polled), step),
        polled is Some <==> old(writer)@,
    ensures
        writer_step(
            old(writer)@,
            WriterCall::Drain,
            polled,
            final(writer)@,
            WriterAnswer::Drain(step),
        ),
{
}

/// A new writer has nothing in flight, and a writer says whether it has.
pub proof fn law_new_writer(writer: UsbBulkWriter, in_flight: bool)
    requires
        call_ensures(UsbBulkWriter::new, (), writer),
        call_ensures(UsbBulkWriter::in_flight, (&writer,), in_flight),
    ensures
        !writer@,
        !in_flight,
{
}

/// A write waits exactly while the previous transfer has not completed, fails
/// exactly if it failed, for that reason, and is accepted whole otherwise.
pub proof fn law_writes_are_accepted_whole(
    pre: bool,
    buf: Seq<u8>,
    polled: Option<TransferPoll>,
    post: bool,
    step: WriteStep,
)
    requires
        writer_step(pre, WriterCall::Write(buf), polled, post, WriterAnswer::Write(step)),
    ensures
        step is Pending <==> must_wait(polled),
        step is Fail <==> failed(polled) is Some,
        step matches WriteStep::Fail(text) ==> text@ == "usb bulk out transfer failed: "@ + failed(
            polled,
        )->0,
        step matches WriteStep::Accept { submit, count } ==> {
            &&& count == buf.len()
            &&& buf.len() > 0 ==> submit is Some && submit->0@ == buf
            &&& buf.len() == 0 ==> submit is None
        },
        post == (must_wait(polled) || submits(WriterAnswer::Write(step))),
{
}

/// A flush or a shutdown waits exactly while the transfer in flight has not
/// completed, fails exactly if it failed, for that reason, and is done
/// otherwise.
pub proof fn law_drains_wait_for_the_transfer(
    pre: bool,
    polled: Option<TransferPoll>,
    post: bool,
    step: DrainStep,
)
    requires
        writer_step(pre, WriterCall::Drain, polled, post, WriterAnswer::Drain(step)),
    ensures
        step is Pending <==> must_wait(polled),
        step is Fail <==> failed(polled) is Some,
        step matches DrainStep::Fail(text) ==> text@ == "usb bulk out transfer failed: "@ + failed(
            polled,
        )->0,
        post == must_wait(polled),
{
}

/// The bytes that the writer says it accepted.
pub open spec fn accepted(call: WriterCall, answer: WriterAnswer) -> Seq<u8> {
    match (call, answer) {
        (
            WriterCall::Write(buf),
            WriterAnswer::Write(WriteStep::Accept { count, .. }),
        ) => buf.take(count as int),
        _ => seq![],
    }
}

/// The bytes that the writer submits.
pub open spec fn submitted(answer: WriterAnswer) -> Seq<u8> {
    match answer {
        WriterAnswer::Write(WriteStep::Accept { submit: Some(bytes), .. }) => bytes@,
        _ => seq![],
    }
}

/// Whether the writer submits a transfer.
pub open spec fn submits(answer: WriterAnswer) -> bool {
    answer matches WriterAnswer::Write(WriteStep::Accept { submit: Some(_), .. })
}

/// Whether the transfer in flight came to an end.
pub open spec fn ended(polled: Option<TransferPoll>) -> bool {
    polled matches Some(p) && !(p is NotReady)
}

/// A run of the writer.
pub open spec fn writer_run(
    states: Seq<bool>,
    calls: Seq<WriterCall>,
    polls: Seq<Option<TransferPoll>>,
    answers: Seq<WriterAnswer>,
) -> bool {
    &&& states.len() == calls.len() + 1
    &&& polls.len() == calls.len()
    &&& answers.len() == calls.len()
    &&& forall|i: int|
        #![trigger answers[i]]
        0 <= i < answers.len() ==> writer_step(
            states[i],
            calls[i],
            polls[i],
            states[i + 1],
            answers[i],
        )
}

/// All bytes accepted in the first `n` calls.
pub open spec fn total_accepted(
    calls: Seq<WriterCall>,
    answers: Seq<WriterAnswer>,
    n: int,
) -> Seq<u8>
    decreases n,
{
    if n <= 0 {
        seq![]
    } else {
        total_accepted(calls, answers, n - 1) + accepted(calls[n - 1], answers[n - 1])
    }
}

/// All bytes submitted in the first `n` calls.
pub open spec fn total_written(answers: Seq<WriterAnswer>, n: int) -> Seq<u8>
    decreases n,
{
    if n <= 0 {
        seq![]
    } else {
        total_written(answers, n - 1) + submitted(answers[n - 1])
    }
}

/// The wire sees exactly the bytes that were accepted, in order.
pub proof fn law_written_is_accepted(
    states: Seq<bool>,
    calls: Seq<WriterCall>,
    polls: Seq<Option<TransferPoll>>,
    answers: Seq<WriterAnswer>,
    n: int,
)
    requires
        writer_run(states, calls, polls, answers),
        0 <= n <= answers.len(),
    ensures
        total_written(answers, n) == total_accepted(calls, answers, n),
    decreases n,
{
    if n > 0 {
        let k = n - 1;
        law_written_is_accepted(states, calls, polls, answers, k);
        let answer = answers[k];
        assert(submitted(answer) =~= accepted(calls[k], answer));
    }
}

/// The buffers, other than empty ones, that the writer accepts in the first `n`
/// calls.
pub open spec fn accepted_buffers(
    calls: Seq<WriterCall>,
    answers: Seq<WriterAnswer>,
    n: int,
) -> Seq<Seq<u8>>
    decreases n,
{
    if n <= 0 {
        seq![]
    } else {
        let before = accepted_buffers(calls, answers, n - 1);
        match (calls[n - 1], answers[n - 1]) {
            (WriterCall::Write(buf), WriterAnswer::Write(WriteStep::Accept { .. })) if buf.len()
                > 0 => before.push(buf),
            _ => before,
        }
    }
}

/// The transfers that the writer submits in the first `n` calls.
pub open spec fn transfers(answers: Seq<WriterAnswer>, n: int) -> Seq<Seq<u8>>
    decreases n,
{
    if n <= 0 {
        seq![]
    } else {
        let before = transfers(answers, n - 1);
        if submits(answers[n - 1]) {
            before.push(submitted(answers[n - 1]))
        } else {
            before
        }
    }
}

/// Every accepted buffer is a transfer of its own: the transfers are, one for
/// one and in order, the buffers that were accepted, other than empty ones.
pub proof fn law_one_transfer_per_buffer(
    states: Seq<bool>,
    calls: Seq<WriterCall>,
    polls: Seq<Option<TransferPoll>>,
    answers: Seq<WriterAnswer>,
    n: int,
)
    requires
        writer_run(states, calls, polls, answers),
        0 <= n <= answers.len(),
    ensures
        transfers(answers, n) == accepted_buffers(calls, answers, n),
    decreases n,
{
    if n > 0 {
        law_one_transfer_per_buffer(states, calls, polls, answers, n - 1);
        let _ = answers[n - 1];
    }
}

/// At most one transfer is in flight: one is submitted only when the previous
/// one has ended or there was none.
pub proof fn law_one_transfer_at_a_time(
    pre: bool,
    call: WriterCall,
    polled: Option<TransferPoll>,
    post: bool,
    answer: WriterAnswer,
)
    requires
        writer_step(pre, call, polled, post, answer),
    ensures
        submits(answer) ==> !pre || ended(polled),
        writer_in_flight(pre) + (if submits(answer) {
            1nat
        } else {
            0
        }) == writer_in_flight(post) + (if ended(polled) {
            1nat
        } else {
            0
        }),
{
}

} // verus!
