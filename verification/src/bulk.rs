//! Moving bytes over the two bulk endpoints of the accessory interface.
//!
//! Both directions use a fresh buffer for every transfer. On controllers with
//! weak DMA ordering a recycled buffer can surface stale bytes of a previous
//! transfer; a buffer that was never used before cannot.

use vstd::prelude::*;
use vstd::slice::{slice_subrange, slice_to_vec};

verus! {

/// The address of the bulk IN endpoint of the accessory interface.
pub const BULK_IN_ENDPOINT: u8 = 0x81;

/// The address of the bulk OUT endpoint of the accessory interface.
pub const BULK_OUT_ENDPOINT: u8 = 0x01;

/// Number of bulk IN transfers kept in flight to keep the pipe saturated.
pub const NUM_TRANSFERS: usize = 4;

/// Number of packets that an IN transfer asks for, so that a whole frame
/// arrives in one transfer.
pub const PACKETS_PER_TRANSFER: usize = 32;

/// What the reader reacts to.
#[derive(Debug, PartialEq, Eq)]
pub enum ReadEvent {
    /// Somebody wants to read.
    Begin,
    /// A transfer completed, with these bytes or with this error.
    Completed(Result<Vec<u8>, String>),
    /// No transfer has completed yet.
    NotReady,
}

/// What the reader does last.
#[derive(Debug, PartialEq, Eq)]
pub enum ReadNext {
    /// See whether a transfer has completed.
    PollTransfer,
    /// Hand these bytes to whoever reads.
    Deliver(Vec<u8>),
    /// Tell whoever reads that it failed.
    Fail(String),
    /// Tell whoever reads to wait.
    Pending,
}

/// One step of the reader.
#[derive(Debug, PartialEq, Eq)]
pub struct ReadStep {
    /// How many transfers to submit first, each with a new buffer.
    pub submit: usize,
    /// What to do next.
    pub next: ReadNext,
}

/// The reader, seen from outside.
pub struct ReaderModel {
    /// How many bytes each transfer asks for.
    pub request_len: nat,
    /// Whether the first batch of transfers has been submitted.
    pub primed: bool,
    /// The bytes that have arrived and have not been handed on.
    pub undelivered: Seq<u8>,
}

impl ReaderModel {
    /// How many transfers are in flight between steps.
    pub open spec fn in_flight(self) -> nat {
        if self.primed {
            NUM_TRANSFERS as nat
        } else {
            0
        }
    }

    /// Whether the event can happen now: transfers are looked at only when some
    /// are in flight and no bytes are left to hand on.
    pub open spec fn accepts(self, event: ReadEvent) -> bool {
        event is Begin || (self.primed && self.undelivered.len() == 0)
    }
}

/// Whether `next` and `left` are right when `bytes` are at hand and whoever
/// reads has room for `room` of them.
pub open spec fn drained(bytes: Seq<u8>, room: nat, left: Seq<u8>, next: ReadNext) -> bool {
    if bytes.len() == 0 {
        &&& next is PollTransfer
        &&& left.len() == 0
    } else {
        let n = if bytes.len() < room {
            bytes.len()
        } else {
            room
        };
        &&& next matches ReadNext::Deliver(out)
        &&& out@ == bytes.take(n as int)
        &&& left == bytes.skip(n as int)
    }
}

/// Whether `step` and `post` are what comes of `event` in state `pre`.
pub open spec fn read_step(
    pre: ReaderModel,
    event: ReadEvent,
    room: nat,
    post: ReaderModel,
    step: ReadStep,
) -> bool {
    &&& post.request_len == pre.request_len
    &&& match event {
        ReadEvent::Begin => {
            &&& post.primed
            &&& step.submit == if pre.primed {
                0
            } else {
                NUM_TRANSFERS
            }
            &&& drained(pre.undelivered, room, post.undelivered, step.next)
        },
        ReadEvent::Completed(Ok(data)) => {
            &&& post.primed == pre.primed
            &&& step.submit == 1
            &&& drained(data@, room, post.undelivered, step.next)
        },
        ReadEvent::Completed(Err(reason)) => {
            &&& post.primed == pre.primed
            &&& post.undelivered == pre.undelivered
            &&& step.submit == 1
            &&& step.next matches ReadNext::Fail(text)
            &&& text@ == "usb bulk in transfer failed: "@ + reason@
        },
        ReadEvent::NotReady => {
            &&& post.primed == pre.primed
            &&& post.undelivered == pre.undelivered
            &&& step.submit == 0
            &&& step.next is Pending
        },
    }
}

/// A reader over a bulk IN endpoint. It keeps several transfers in flight and
/// replaces each one that completes by a new one, with a new buffer.
#[derive(Debug)]
pub struct UsbBulkReader {
    /// A completed transfer that is being handed on, with the position reached.
    current: Option<(Vec<u8>, usize)>,
    /// How many bytes each transfer asks for.
    req_len: usize,
    /// Whether the first batch of transfers has been submitted.
    primed: bool,
}

impl View for UsbBulkReader {
    type V = ReaderModel;

    closed spec fn view(&self) -> ReaderModel {
        ReaderModel {
            request_len: self.req_len as nat,
            primed: self.primed,
            undelivered: match self.current {
                Some((data, cursor)) => data@.skip(cursor as int),
                None => seq![],
            },
        }
    }
}

impl UsbBulkReader {
    /// The position reached lies within the transfer.
    pub closed spec fn wf(&self) -> bool {
        self.current matches Some((data, cursor)) ==> cursor <= data@.len()
    }

    /// A reader for an endpoint whose packets hold up to `max_packet_size`
    /// bytes. Transfers ask for a nonzero multiple of that, as they have to.
    pub fn new(max_packet_size: usize) -> (r: Self)
        requires
            max_packet_size * PACKETS_PER_TRANSFER <= usize::MAX,
        ensures
            r.wf(),
            r@.request_len == PACKETS_PER_TRANSFER * if max_packet_size == 0 {
                1
            } else {
                max_packet_size as nat
            },
            r@.request_len > 0,
            max_packet_size > 0 ==> r@.request_len % (max_packet_size as nat) == 0,
            !r@.primed,
            r@.undelivered == Seq::<u8>::empty(),
    {
        let mps: usize = if max_packet_size < 1 {
            1
        } else {
            max_packet_size
        };
        proof {
            vstd::arithmetic::div_mod::lemma_mod_multiples_basic(
                PACKETS_PER_TRANSFER as int,
                mps as int,
            );
        }
        UsbBulkReader { current: None, req_len: mps * PACKETS_PER_TRANSFER, primed: false }
    }

    /// How many bytes each transfer asks for.
    pub fn request_len(&self) -> (r: usize)
        ensures
            r == self@.request_len,
    {
        self.req_len
    }

    /// Hands on what is at hand, or looks for more.
    fn drain(&mut self, room: usize) -> (next: ReadNext)
        requires
            old(self).wf(),
        ensures
            final(self).wf(),
            final(self)@.request_len == old(self)@.request_len,
            final(self)@.primed == old(self)@.primed,
            drained(old(self)@.undelivered, room as nat, final(self)@.undelivered, next),
    {
        let ghost bytes = self@.undelivered;
        match self.current.take() {
            None => ReadNext::PollTransfer,
            Some((data, cursor)) => {
                assert(bytes =~= data@.skip(cursor as int));
                if cursor < data.len() {
                    let available: usize = data.len() - cursor;
                    let n: usize = if available < room {
                        available
                    } else {
                        room
                    };
                    let out = slice_to_vec(slice_subrange(data.as_slice(), cursor, cursor + n));
                    assert(out@ =~= bytes.take(n as int));
                    assert(data@.skip(cursor + n) =~= bytes.skip(n as int));
                    self.current = Some((data, cursor + n));
                    ReadNext::Deliver(out)
                } else {
                    ReadNext::PollTransfer
                }
            },
        }
    }

    /// One step towards reading. `room` is how many bytes whoever reads can
    /// take.
    pub fn poll_read(&mut self, event: ReadEvent, room: usize) -> (step: ReadStep)
        requires
            old(self).wf(),
            old(self)@.accepts(event),
        ensures
            final(self).wf(),
            read_step(old(self)@, event, room as nat, final(self)@, step),
    {
        match event {
            ReadEvent::Begin => {
                let submit: usize = if self.primed {
                    0
                } else {
                    NUM_TRANSFERS
                };
                self.primed = true;
                assert(self@.undelivered == old(self)@.undelivered);
                let next = self.drain(room);
                ReadStep { submit, next }
            },
            ReadEvent::Completed(Ok(data)) => {
                let ghost arrived = data@;
                self.current = Some((data, 0));
                assert(self@.undelivered =~= arrived);
                let next = self.drain(room);
                ReadStep { submit: 1, next }
            },
            ReadEvent::Completed(Err(reason)) => ReadStep {
                submit: 1,
                next: ReadNext::Fail(
                    "usb bulk in transfer failed: ".to_owned().concat(reason.as_str()),
                ),
            },
            ReadEvent::NotReady => ReadStep { submit: 0, next: ReadNext::Pending },
        }
    }
}

/// What became of the transfer that the writer waits for.
#[derive(Debug, PartialEq, Eq)]
pub enum TransferPoll {
    /// It has not completed yet.
    NotReady,
    /// It completed.
    Done,
    /// It failed, for this reason.
    Failed(String),
}

/// Where the writer stands with the previous transfer.
#[derive(Debug, PartialEq, Eq)]
pub enum DrainStep {
    /// It has to be waited for.
    Pending,
    /// It is out of the way.
    Ready,
    /// It failed.
    Fail(String),
}

/// What comes of a write.
#[derive(Debug, PartialEq, Eq)]
pub enum WriteStep {
    /// The previous transfer has to be waited for.
    Pending,
    /// The previous transfer failed.
    Fail(String),
    /// The bytes are accepted.
    Accept {
        /// The transfer to submit, in a buffer of its own.
        submit: Option<Vec<u8>>,
        /// How many bytes were accepted.
        count: usize,
    },
}

/// Whether `step` and `post` are what comes of looking at the previous
/// transfer, where `post` says whether one is in flight afterwards.
pub open spec fn drain_step(polled: Option<TransferPoll>, post: bool, step: DrainStep) -> bool {
    match polled {
        None => !post && step is Ready,
        Some(TransferPoll::NotReady) => post && step is Pending,
        Some(TransferPoll::Done) => !post && step is Ready,
        Some(TransferPoll::Failed(reason)) => {
            &&& !post
            &&& step matches DrainStep::Fail(text)
            &&& text@ == "usb bulk out transfer failed: "@ + reason@
        },
    }
}

/// Whether `step` and `post` are what comes of a write: nothing is submitted
/// before the previous transfer is out of the way, and then all of the bytes
/// go out as one transfer.
pub open spec fn write_step(
    polled: Option<TransferPoll>,
    buf: Seq<u8>,
    post: bool,
    step: WriteStep,
) -> bool {
    match polled {
        Some(TransferPoll::NotReady) => post && step is Pending,
        Some(TransferPoll::Failed(reason)) => {
            &&& !post
            &&& step matches WriteStep::Fail(text)
            &&& text@ == "usb bulk out transfer failed: "@ + reason@
        },
        _ => {
            &&& post == (buf.len() > 0)
            &&& step matches WriteStep::Accept { submit, count }
            &&& count == buf.len()
            &&& submit is Some <==> buf.len() > 0
            &&& submit matches Some(bytes) ==> bytes@ == buf
        },
    }
}

/// A writer over a bulk OUT endpoint. Every write is a transfer of its own, in
/// a buffer of its own, and they go out one after the other.
#[derive(Debug)]
pub struct UsbBulkWriter {
    /// Whether a submitted transfer is still in flight.
    pending: bool,
}

impl View for UsbBulkWriter {
    type V = bool;

    /// Whether a transfer is in flight.
    closed spec fn view(&self) -> bool {
        self.pending
    }
}

impl UsbBulkWriter {
    /// A writer with nothing in flight.
    pub fn new() -> (r: Self)
        ensures
            !r@,
    {
        UsbBulkWriter { pending: false }
    }

    /// Whether a transfer is in flight. Only then may its completion be asked
    /// for.
    pub fn in_flight(&self) -> (r: bool)
        ensures
            r == self@,
    {
        self.pending
    }

    /// Looks at the transfer in flight, if there is one. `polled` is what
    /// became of it.
    pub fn poll_drain(&mut self, polled: Option<TransferPoll>) -> (step: DrainStep)
        requires
            polled is Some <==> old(self)@,
        ensures
            drain_step(polled, final(self)@, step),
    {
        match polled {
            None => DrainStep::Ready,
            Some(TransferPoll::NotReady) => DrainStep::Pending,
            Some(TransferPoll::Done) => {
                self.pending = false;
                DrainStep::Ready
            },
            Some(TransferPoll::Failed(reason)) => {
                self.pending = false;
                DrainStep::Fail(
                    "usb bulk out transfer failed: ".to_owned().concat(reason.as_str()),
                )
            },
        }
    }

    /// Writes `buf`. The previous transfer is finished first, so that frames
    /// go out in order and back-pressure is applied.
    pub fn poll_write(&mut self, polled: Option<TransferPoll>, buf: &[u8]) -> (step: WriteStep)
        requires
            polled is Some <==> old(self)@,
        ensures
            write_step(polled, buf@, final(self)@, step),
    {
        match self.poll_drain(polled) {
            DrainStep::Pending => WriteStep::Pending,
            DrainStep::Fail(text) => WriteStep::Fail(text),
            DrainStep::Ready => {
                if buf.len() == 0 {
                    return WriteStep::Accept { submit: None, count: 0 };
                }
                self.pending = true;
                WriteStep::Accept { submit: Some(slice_to_vec(buf)), count: buf.len() }
            },
        }
    }

    /// Flushes: waits for the transfer in flight.
    pub fn poll_flush(&mut self, polled: Option<TransferPoll>) -> (step: DrainStep)
        requires
            polled is Some <==> old(self)@,
        ensures
            drain_step(polled, final(self)@, step),
    {
        self.poll_drain(polled)
    }

    /// Shuts down: waits for the transfer in flight.
    pub fn poll_shutdown(&mut self, polled: Option<TransferPoll>) -> (step: DrainStep)
        requires
            polled is Some <==> old(self)@,
        ensures
            drain_step(polled, final(self)@, step),
    {
        self.poll_drain(polled)
    }
}

/// Both directions of the accessory interface.
#[derive(Debug)]
pub struct AndroidAutoUsb {
    /// The reader over the IN endpoint.
    pub ep_in: UsbBulkReader,
    /// The writer over the OUT endpoint.
    pub ep_out: UsbBulkWriter,
}

impl AndroidAutoUsb {
    /// Both directions, if both endpoints could be opened. `ep_in` is the packet
    /// size of the IN endpoint, `ep_out` whether the OUT endpoint is open.
    pub fn new(ep_in: Option<usize>, ep_out: bool) -> (r: Option<Self>)
        requires
            ep_in matches Some(max_packet_size) ==> max_packet_size * PACKETS_PER_TRANSFER
                <= usize::MAX,
        ensures
            r is Some <==> ep_in is Some && ep_out,
            r matches Some(usb) ==> {
                &&& usb.ep_in.wf()
                &&& usb.ep_in@.request_len == PACKETS_PER_TRANSFER * if ep_in->0 == 0 {
                    1
                } else {
                    ep_in->0 as nat
                }
                &&& !usb.ep_in@.primed
                &&& usb.ep_in@.undelivered == Seq::<u8>::empty()
                &&& !usb.ep_out@
            },
    {
        if let Some(max_packet_size) = ep_in {
            if ep_out {
                return Some(
                    AndroidAutoUsb {
                        ep_in: UsbBulkReader::new(max_packet_size),
                        ep_out: UsbBulkWriter::new(),
                    },
                );
            }
        }
        None
    }

    /// The two directions, apart.
    pub fn into_split(self) -> (r: (UsbBulkReader, UsbBulkWriter))
        ensures
            r == (self.ep_in, self.ep_out),
    {
        (self.ep_in, self.ep_out)
    }
}

} // verus!
