//! Log lines for the raw bytes that cross the USB bulk endpoints, and for the
//! frames of the control channel.

use vstd::prelude::*;
use vstd::slice::slice_subrange;

use crate::frame::AndroidAutoFrame;
use crate::text::{push_decimal, push_hex_list};

verus! {

/// The largest transfer that counts as handshake-sized, and the largest number
/// of bytes that a log line shows.
pub const RAW_LOG_CAP: usize = 64;

/// How prominent a log line is.
#[derive(Debug, Clone, Copy, PartialEq, Eq, Structural)]
pub enum LogLevel {
    /// Worth seeing in normal operation.
    Info,
    /// Too frequent for normal operation.
    Debug,
}

/// A line for the log.
#[derive(Debug, PartialEq, Eq)]
pub struct RawLog {
    /// How prominent the line is.
    pub level: LogLevel,
    /// What it says.
    pub text: String,
}

/// The bytes of a chunk that its log line shows: all of a small chunk, the
/// head of a large one.
pub open spec fn shown(bytes: Seq<u8>) -> Seq<u8> {
    if bytes.len() <= RAW_LOG_CAP {
        bytes
    } else {
        bytes.take(RAW_LOG_CAP as int)
    }
}

/// The text that is logged for a chunk.
pub open spec fn raw_log_text(label: Seq<char>, bytes: Seq<u8>) -> Seq<char> {
    label + " raw "@ + crate::text::decimal(bytes.len()) + " bytes: "@ + crate::text::hex_list(
        shown(bytes),
    )
}

/// Whether `line` is what the log says of a chunk: nothing of an empty one,
/// otherwise its label, its length and the bytes shown, at a level that goes
/// by its size.
pub open spec fn logs_chunk(line: Option<RawLog>, label: Seq<char>, bytes: Seq<u8>) -> bool {
    &&& line is Some <==> bytes.len() > 0
    &&& line matches Some(l) ==> {
        &&& l.level == if bytes.len() <= RAW_LOG_CAP {
            LogLevel::Info
        } else {
            LogLevel::Debug
        }
        &&& l.text@ == raw_log_text(label, bytes)
    }
}

/// The log line for a raw USB chunk. The displayed bytes are capped; small
/// (handshake-sized) transfers are logged at info, larger ones at debug.
pub fn log_raw(label: &str, bytes: &[u8]) -> (line: Option<RawLog>)
    ensures
        logs_chunk(line, label@, bytes@),
{
    if bytes.len() == 0 {
        return None;
    }
    let cap: usize = if bytes.len() < RAW_LOG_CAP {
        bytes.len()
    } else {
        RAW_LOG_CAP
    };
    let mut text = String::new();
    text.append(label);
    text.append(" raw ");
    push_decimal(&mut text, bytes.len());
    text.append(" bytes: ");
    push_hex_list(&mut text, slice_subrange(bytes, 0, cap));
    proof {
        assert(bytes@.subrange(0, cap as int) =~= shown(bytes@));
        assert(text@ =~= raw_log_text(label@, bytes@));
    }
    let level = if bytes.len() <= RAW_LOG_CAP {
        LogLevel::Info
    } else {
        LogLevel::Debug
    };
    Some(RawLog { level, text })
}

/// The text that is logged for a frame in the clear on the control channel: its
/// header as `Debug` shows it, the length of its payload, and the head of the
/// payload.
pub open spec fn control_trace_text(direction: Seq<char>, f: AndroidAutoFrame) -> Seq<char> {
    direction
        + " control frame FrameHeader { channel_id: 0, frame: FrameHeaderContents { encryption: false, other_flags: "@
        + crate::text::decimal(f.header.frame.other_flags as nat) + " } } len="@
        + crate::text::decimal(f.data@.len()) + " data="@ + crate::text::hex_list(shown(f.data@))
}

/// The log line for a frame that is sent or received. Only what travels in the
/// clear on the control channel is logged, so that the version and ssl handshake
/// can be diagnosed byte for byte; the displayed bytes are capped.
pub fn control_trace(direction: &str, f: &AndroidAutoFrame) -> (text: Option<String>)
    ensures
        text is Some <==> f.header.channel_id == 0 && !f.encrypted(),
        text matches Some(t) ==> t@ == control_trace_text(direction@, *f),
{
    if f.header.channel_id != 0 || f.header.frame.get_encryption() {
        return None;
    }
    let bytes = f.data.as_slice();
    let cap: usize = if bytes.len() < RAW_LOG_CAP {
        bytes.len()
    } else {
        RAW_LOG_CAP
    };
    let mut text = String::new();
    text.append(direction);
    text.append(
        " control frame FrameHeader { channel_id: 0, frame: FrameHeaderContents { encryption: false, other_flags: ",
    );
    push_decimal(&mut text, f.header.frame.other_flags as usize);
    text.append(" } } len=");
    push_decimal(&mut text, bytes.len());
    text.append(" data=");
    push_hex_list(&mut text, slice_subrange(bytes, 0, cap));
    proof {
        assert(bytes@.subrange(0, cap as int) =~= shown(f.data@));
        assert(text@ =~= control_trace_text(direction@, *f));
    }
    Some(text)
}

/// An endpoint reader or writer whose raw bytes are logged. It sits below the
/// framing layer, so that the exact on-wire transfer boundaries and contents
/// are visible.
#[derive(Debug)]
pub struct LoggingIo<T> {
    /// The wrapped endpoint reader or writer.
    pub inner: T,
    /// A short label identifying the direction in the logs.
    pub label: &'static str,
}

impl<T> LoggingIo<T> {
    /// Wraps an endpoint with raw-byte logging under the given label.
    pub fn new(inner: T, label: &'static str) -> (r: Self)
        ensures
            r.inner == inner,
            r.label@ == label@,
    {
        LoggingIo { inner, label }
    }

    /// What to log once the inner reader was polled. `filled` is the filled
    /// part of the caller's buffer after the poll, `before` the length it had
    /// before, and `ready` says whether the poll completed without an error.
    pub fn poll_read(&self, before: usize, filled: &[u8], ready: bool) -> (line: Option<RawLog>)
        requires
            ready ==> before <= filled@.len(),
        ensures
            !ready ==> line is None,
            ready ==> logs_chunk(line, self.label@, filled@.skip(before as int)),
    {
        if !ready {
            return None;
        }
        let fresh = slice_subrange(filled, before, filled.len());
        assert(fresh@ =~= filled@.skip(before as int));
        log_raw(self.label, fresh)
    }

    /// What to log once the inner writer was polled with `buf`: the bytes that
    /// it accepted, if it accepted any.
    pub fn poll_write(&self, buf: &[u8], written: Option<usize>) -> (line: Option<RawLog>)
        requires
            written matches Some(n) ==> n <= buf@.len(),
        ensures
            written is None ==> line is None,
            written matches Some(n) ==> logs_chunk(line, self.label@, buf@.take(n as int)),
    {
        match written {
            None => None,
            Some(n) => {
                let sent = slice_subrange(buf, 0, n);
                assert(sent@ =~= buf@.take(n as int));
                log_raw(self.label, sent)
            },
        }
    }
}

} // verus!
