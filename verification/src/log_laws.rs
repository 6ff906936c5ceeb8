//! What holds of every log line: that it can be read back.

use vstd::prelude::*;

use crate::frame::AndroidAutoFrame;
use crate::raw_log::{control_trace, log_raw, LogLevel, LoggingIo, RawLog};
use crate::text::{push_decimal, push_hex_list};

verus! {

/// The number that a text of decimal digits stands for.
pub open spec fn number_read(text: Seq<char>) -> int
    decreases text.len(),
{
    if text.len() == 0 {
        0
    } else {
        10 * number_read(text.drop_last()) + (text.last() as int - '0' as int)
    }
}

/// The value of a lower-case hexadecimal digit, or -1 if `c` is none.
pub open spec fn hex_digit_read(c: char) -> int {
    if '0' as int <= c as int <= '9' as int {
        c as int - '0' as int
    } else if 'a' as int <= c as int <= 'f' as int {
        c as int - 'a' as int + 10
    } else {
        -1
    }
}

/// The byte that two hexadecimal digits, from position `at` of a text on, stand
/// for, or -1 if they are none.
pub open spec fn byte_read(text: Seq<char>, at: int) -> int {
    let high = hex_digit_read(text[at]);
    let low = hex_digit_read(text[at + 1]);
    if high < 0 || low < 0 {
        -1
    } else {
        16 * high + low
    }
}

/// Whether a comma and a space follow the two digits of byte `i` in a text in
/// which the first byte is at position `at`.
pub open spec fn separated(text: Seq<char>, at: int, i: int) -> bool {
    text[at + 4 * i + 2] == ',' && text[at + 4 * i + 3] == ' '
}

/// A number in decimal reads back as that number, is made of digits alone, and
/// does not begin with a zero unless it is zero.
pub proof fn law_decimals_read_back(n: nat)
    ensures
        number_read(crate::text::decimal(n)) == n,
        crate::text::decimal(n).len() > 0,
        forall|i: int|
            0 <= i < crate::text::decimal(n).len() ==> '0' as int <= (
            #[trigger] crate::text::decimal(n)[i]) as int <= '9' as int,
        n > 0 ==> crate::text::decimal(n)[0] != '0',
        n == 0 ==> crate::text::decimal(n) == seq!['0'],
    decreases n,
{
    let text = crate::text::decimal(n);
    if n >= 10 {
        law_decimals_read_back(n / 10);
        assert(text.drop_last() =~= crate::text::decimal(n / 10));
    } else {
        assert(text.drop_last() =~= Seq::<char>::empty());
        assert(number_read(text.drop_last()) == 0);
    }
}

/// Bytes written out read back as those bytes: each as two hexadecimal digits,
/// one after the other, with a comma and a space in between.
proof fn lemma_hex_items_read_back(bytes: Seq<u8>)
    ensures
        bytes.len() == 0 ==> crate::text::hex_items(bytes).len() == 0,
        bytes.len() > 0 ==> crate::text::hex_items(bytes).len() == 4 * bytes.len() - 2,
        forall|i: int|
            0 <= i < bytes.len() ==> byte_read(crate::text::hex_items(bytes), 4 * i)
                == #[trigger] bytes[i],
        forall|i: int|
            0 <= i < bytes.len() - 1 ==> #[trigger] separated(crate::text::hex_items(bytes), 0, i),
    decreases bytes.len(),
{
    let items = crate::text::hex_items(bytes);
    if bytes.len() > 0 {
        let b = bytes.last();
        let pair = crate::text::hex_byte(b);
        assert(byte_read(pair, 0) == b);
        if bytes.len() == 1 {
            assert(items =~= pair);
        } else {
            let k = bytes.len() - 1;
            let before = bytes.drop_last();
            let head = crate::text::hex_items(before);
            lemma_hex_items_read_back(before);
            assert(items =~= head + seq![',', ' '] + pair);
            assert forall|i: int| 0 <= i < bytes.len() implies byte_read(items, 4 * i)
                == #[trigger] bytes[i] by {
                if i < k {
                    assert(before[i] == bytes[i]);
                    assert(items[4 * i] == head[4 * i]);
                    assert(items[4 * i + 1] == head[4 * i + 1]);
                } else {
                    assert(items[4 * i] == pair[0]);
                    assert(items[4 * i + 1] == pair[1]);
                }
            }
            assert forall|i: int| 0 <= i < bytes.len() - 1 implies #[trigger] separated(
                items,
                0,
                i,
            ) by {
                if i < k - 1 {
                    assert(separated(head, 0, i));
                    assert(items[4 * i + 2] == head[4 * i + 2]);
                    assert(items[4 * i + 3] == head[4 * i + 3]);
                }
            }
        }
    }
}

/// A list of bytes reads back as those bytes, all of them and in order: in
/// brackets, each as two hexadecimal digits, with a comma and a space in
/// between, and nothing more.
pub proof fn law_hex_lists_read_back(bytes: Seq<u8>)
    ensures
        crate::text::hex_list(bytes).len() == if bytes.len() == 0 {
            2int
        } else {
            4 * bytes.len() as int
        },
        crate::text::hex_list(bytes).first() == '[',
        crate::text::hex_list(bytes).last() == ']',
        forall|i: int|
            0 <= i < bytes.len() ==> byte_read(crate::text::hex_list(bytes), 4 * i + 1)
                == #[trigger] bytes[i],
        forall|i: int|
            0 <= i < bytes.len() - 1 ==> #[trigger] separated(crate::text::hex_list(bytes), 1, i),
{
    lemma_hex_items_read_back(bytes);
    let items = crate::text::hex_items(bytes);
    let list = crate::text::hex_list(bytes);
    assert(forall|j: int| 0 <= j < items.len() ==> list[j + 1] == #[trigger] items[j]);
    assert forall|i: int| 0 <= i < bytes.len() implies byte_read(list, 4 * i + 1)
        == #[trigger] bytes[i] by {
        assert(byte_read(items, 4 * i) == bytes[i]);
        assert(list[4 * i + 1] == items[4 * i]);
        assert(list[4 * i + 2] == items[4 * i + 1]);
    }
    assert forall|i: int| 0 <= i < bytes.len() - 1 implies #[trigger] separated(list, 1, i) by {
        assert(separated(items, 0, i));
        assert(list[4 * i + 3] == items[4 * i + 2]);
        assert(list[4 * i + 4] == items[4 * i + 3]);
    }
}

/// Numbers and bytes are added at the end of a text, and change nothing of it.
pub proof fn law_rendering_appends(number: &mut String, n: usize, list: &mut String, bytes: &[u8])
    requires
        call_ensures(push_decimal, (number, n), ()),
        call_ensures(push_hex_list, (list, bytes), ()),
    ensures
        final(number)@ == old(number)@ + crate::text::decimal(n as nat),
        final(list)@ == old(list)@ + crate::text::hex_list(bytes@),
{
}

/// The first 64 of some bytes, or all of them if there are fewer.
pub open spec fn head(bytes: Seq<u8>) -> Seq<u8> {
    bytes.take(if bytes.len() < 64 {
        bytes.len() as int
    } else {
        64
    })
}

/// Whether `line` is the log line for a chunk: there is one exactly if the chunk
/// is not empty; it names the label, the true length, and the first 64 bytes; and
/// it is prominent exactly if the chunk has no more than those.
pub open spec fn tells_of_chunk(line: Option<RawLog>, label: Seq<char>, bytes: Seq<u8>) -> bool {
    &&& line is None <==> bytes.len() == 0
    &&& line matches Some(l) ==> {
        &&& l.level is Info <==> bytes.len() <= 64
        &&& l.text@ == label + " raw "@ + crate::text::decimal(bytes.len()) + " bytes: "@
            + crate::text::hex_list(head(bytes))
    }
}

/// Every chunk that is not empty is logged, with its true length and its first
/// bytes.
pub proof fn law_chunks_are_logged(label: &str, bytes: &[u8], line: Option<RawLog>)
    requires
        call_ensures(log_raw, (label, bytes), line),
    ensures
        tells_of_chunk(line, label@, bytes@),
{
    assert(bytes@.take(bytes@.len() as int) =~= bytes@);
}

/// What a read added to the buffer is logged, and nothing that was there before;
/// a read that brought nothing is not.
pub proof fn law_reads_are_logged<T>(
    io: LoggingIo<T>,
    before: usize,
    filled: &[u8],
    ready: bool,
    line: Option<RawLog>,
)
    requires
        call_ensures(LoggingIo::<T>::poll_read, (&io, before, filled, ready), line),
        ready ==> before <= filled@.len(),
    ensures
        !ready ==> line is None,
        ready ==> tells_of_chunk(
            line,
            io.label@,
            filled@.subrange(before as int, filled@.len() as int),
        ),
{
    if ready {
        let fresh = filled@.subrange(before as int, filled@.len() as int);
        assert(filled@.skip(before as int) =~= fresh);
        assert(fresh.take(fresh.len() as int) =~= fresh);
    }
}

/// What a write had accepted is logged, and nothing beyond it; a write that had
/// nothing accepted is not.
pub proof fn law_writes_are_logged<T>(
    io: LoggingIo<T>,
    buf: &[u8],
    written: Option<usize>,
    line: Option<RawLog>,
)
    requires
        call_ensures(LoggingIo::<T>::poll_write, (&io, buf, written), line),
        written matches Some(n) ==> n <= buf@.len(),
    ensures
        written is None ==> line is None,
        written matches Some(n) ==> tells_of_chunk(line, io.label@, buf@.subrange(0, n as int)),
{
    if let Some(n) = written {
        let sent = buf@.subrange(0, n as int);
        assert(buf@.take(n as int) =~= sent);
        assert(sent.take(sent.len() as int) =~= sent);
    }
}

/// Logging wraps what it is given, under the label it is given.
pub proof fn law_logging_wraps<T>(inner: T, label: &'static str, io: LoggingIo<T>)
    requires
        call_ensures(LoggingIo::<T>::new, (inner, label), io),
    ensures
        io.inner == inner,
        io.label@ == label@,
{
}

/// Every frame in the clear on the control channel is traced, with its flags, the
/// true length of its payload and its first bytes; no other frame is.
pub proof fn law_control_frames_are_traced(
    direction: &str,
    f: AndroidAutoFrame,
    text: Option<String>,
)
    requires
        call_ensures(control_trace, (direction, &f), text),
    ensures
        text is Some <==> f.header.channel_id == 0 && !f.header.frame.encryption,
        text matches Some(t) ==> t@ == direction@
            + " control frame FrameHeader { channel_id: 0, frame: FrameHeaderContents { encryption: false, other_flags: "@
            + crate::text::decimal(f.header.frame.other_flags as nat) + " } } len="@
            + crate::text::decimal(f.data@.len()) + " data="@ + crate::text::hex_list(
            head(f.data@),
        ),
{
    assert(f.data@.take(f.data@.len() as int) =~= f.data@);
}

} // verus!
