//! The reading side of the link: what becomes of each frame that arrives.

use vstd::prelude::*;

use crate::frame::{AndroidAutoFrame, FrameHeader};
use crate::ssl::SslThreadResponse;

verus! {

/// What the reading task learns.
#[derive(Debug, PartialEq, Eq)]
pub enum ReaderInput {
    /// The task begins, or is done with a frame.
    Ready,
    /// A header was read, or none was there yet, or reading failed.
    Header(Result<Option<FrameHeader>, String>),
    /// A frame was read, or is not complete yet, or reading failed.
    Frame(Result<Option<AndroidAutoFrame>, String>),
}

/// What the reading task does next.
#[derive(Debug, PartialEq, Eq)]
pub enum ReaderAction {
    /// Read a header, from its first byte on.
    ReadHeader,
    /// Read the frame that this header announces.
    ReadFrame(FrameHeader),
    /// Hand the frame to the ssl worker for decryption.
    Decrypt(AndroidAutoFrame),
    /// Hand this to the rest of the program.
    Deliver(SslThreadResponse),
    /// Hand this to the rest of the program and stop reading.
    Stop(SslThreadResponse),
}

/// Whether `action` ends the task with this reason.
pub open spec fn stops_with(action: ReaderAction, reason: Seq<char>) -> bool {
    &&& action matches ReaderAction::Stop(SslThreadResponse::ExitError(text))
    &&& text@ == "read error: "@ + reason
}

/// Whether `action` is right for `input`.
pub open spec fn reader_action(input: ReaderInput, action: ReaderAction) -> bool {
    match input {
        ReaderInput::Ready => action == ReaderAction::ReadHeader,
        ReaderInput::Header(Ok(Some(header))) => action == ReaderAction::ReadFrame(header),
        ReaderInput::Header(Ok(None)) => action == ReaderAction::ReadHeader,
        ReaderInput::Header(Err(reason)) => stops_with(action, reason@),
        ReaderInput::Frame(Ok(Some(f))) => if f.encrypted() {
            action == ReaderAction::Decrypt(f)
        } else {
            action == ReaderAction::Deliver(SslThreadResponse::Data(f))
        },
        ReaderInput::Frame(Ok(None)) => action == ReaderAction::ReadHeader,
        ReaderInput::Frame(Err(reason)) => stops_with(action, reason@),
    }
}

/// The action that ends the task: the connection went away or produced an
/// unrecoverable read error.
fn stop(reason: String) -> (action: ReaderAction)
    ensures
        stops_with(action, reason@),
{
    ReaderAction::Stop(
        SslThreadResponse::ExitError("read error: ".to_owned().concat(reason.as_str())),
    )
}

/// One round of the reading task. Encrypted frames go to the ssl worker, frames
/// in the clear go straight on, and a read error ends the task.
pub fn route(input: ReaderInput) -> (action: ReaderAction)
    ensures
        reader_action(input, action),
{
    match input {
        ReaderInput::Ready => ReaderAction::ReadHeader,
        ReaderInput::Header(Ok(Some(header))) => ReaderAction::ReadFrame(header),
        ReaderInput::Header(Ok(None)) => ReaderAction::ReadHeader,
        ReaderInput::Header(Err(reason)) => stop(reason),
        ReaderInput::Frame(Ok(Some(f))) => {
            if f.header.frame.get_encryption() {
                ReaderAction::Decrypt(f)
            } else {
                ReaderAction::Deliver(SslThreadResponse::Data(f))
            }
        },
        ReaderInput::Frame(Ok(None)) => ReaderAction::ReadHeader,
        ReaderInput::Frame(Err(reason)) => stop(reason),
    }
}

/// One round of the reading task is one of the rounds that the laws speak of.
pub proof fn law_route_is_a_round(input: ReaderInput, action: ReaderAction)
    requires
        call_ensures(route, (input,), action),
    ensures
        reader_action(input, action),
{
}

/// The encryption flag of a header is read as it is.
pub proof fn law_encryption_flag_is_read(flags: crate::frame::FrameHeaderContents, r: bool)
    requires
        call_ensures(crate::frame::FrameHeaderContents::get_encryption, (&flags,), r),
    ensures
        r == flags.encryption,
{
}

/// The task goes on to read a frame exactly when a header was read, and it is
/// the frame that this header announces, with all that the header says.
pub proof fn law_every_header_is_followed(
    input: ReaderInput,
    action: ReaderAction,
    channel_id: u8,
    encryption: bool,
    other_flags: u8,
)
    requires
        reader_action(input, action),
    ensures
        (action matches ReaderAction::ReadFrame(asked) && asked.channel_id == channel_id
            && asked.frame.encryption == encryption && asked.frame.other_flags == other_flags) <==> (
        input matches ReaderInput::Header(Ok(Some(read))) && read.channel_id == channel_id
            && read.frame.encryption == encryption && read.frame.other_flags == other_flags),
{
}

/// Every frame that was read goes to one place, unchanged: to the ssl worker
/// exactly if it is encrypted, to the rest of the program exactly if it is not.
/// Nothing else goes there.
pub proof fn law_every_frame_is_routed(
    input: ReaderInput,
    action: ReaderAction,
    f: AndroidAutoFrame,
)
    requires
        reader_action(input, action),
    ensures
        action == ReaderAction::Decrypt(f) <==> input == ReaderInput::Frame(Ok(Some(f)))
            && f.header.frame.encryption,
        action == ReaderAction::Deliver(SslThreadResponse::Data(f)) <==> input
            == ReaderInput::Frame(Ok(Some(f))) && !f.header.frame.encryption,
        action matches ReaderAction::Deliver(r) ==> r is Data,
{
}

/// The task turns to the next header exactly when it begins or is done with a
/// frame, and when there was no header or no whole frame to be had yet.
pub proof fn law_next_header_is_read(input: ReaderInput, action: ReaderAction)
    requires
        reader_action(input, action),
    ensures
        action is ReadHeader <==> {
            ||| input is Ready
            ||| input == ReaderInput::Header(Ok(None))
            ||| input == ReaderInput::Frame(Ok(None))
        },
{
}

/// The headers that the first `n` rounds read.
pub open spec fn headers_read(inputs: Seq<ReaderInput>, n: int) -> Seq<FrameHeader>
    decreases n,
{
    if n <= 0 {
        seq![]
    } else {
        match inputs[n - 1] {
            ReaderInput::Header(Ok(Some(header))) => headers_read(inputs, n - 1).push(header),
            _ => headers_read(inputs, n - 1),
        }
    }
}

/// The headers of the frames that the first `n` rounds ask for.
pub open spec fn headers_followed(actions: Seq<ReaderAction>, n: int) -> Seq<FrameHeader>
    decreases n,
{
    if n <= 0 {
        seq![]
    } else {
        match actions[n - 1] {
            ReaderAction::ReadFrame(header) => headers_followed(actions, n - 1).push(header),
            _ => headers_followed(actions, n - 1),
        }
    }
}

/// Over a run, the frames asked for are, in order, those that the headers read
/// announced.
pub proof fn law_headers_are_followed_in_order(
    inputs: Seq<ReaderInput>,
    actions: Seq<ReaderAction>,
    n: int,
)
    requires
        reader_run(inputs, actions),
        0 <= n <= actions.len(),
    ensures
        headers_followed(actions, n) == headers_read(inputs, n),
    decreases n,
{
    if n > 0 {
        law_headers_are_followed_in_order(inputs, actions, n - 1);
        let _ = actions[n - 1];
    }
}

/// An encrypted frame never reaches the rest of the program undecrypted: what
/// the reading task delivers travelled in the clear.
pub proof fn law_no_ciphertext_is_delivered(
    input: ReaderInput,
    action: ReaderAction,
    f: AndroidAutoFrame,
)
    requires
        reader_action(input, action),
        action == ReaderAction::Deliver(SslThreadResponse::Data(f)),
    ensures
        !f.header.frame.encryption,
        input == ReaderInput::Frame(Ok(Some(f))),
{
}

/// The frame that an input brings, if any.
pub open spec fn frame_read(input: ReaderInput) -> Option<AndroidAutoFrame> {
    match input {
        ReaderInput::Frame(Ok(Some(f))) => Some(f),
        _ => None,
    }
}

/// The frame that an action hands to the ssl worker, if any.
pub open spec fn frame_to_decrypt(action: ReaderAction) -> Option<AndroidAutoFrame> {
    match action {
        ReaderAction::Decrypt(f) => Some(f),
        _ => None,
    }
}

/// The frame that an action hands to the rest of the program, if any.
pub open spec fn frame_to_deliver(action: ReaderAction) -> Option<AndroidAutoFrame> {
    match action {
        ReaderAction::Deliver(SslThreadResponse::Data(f)) => Some(f),
        _ => None,
    }
}

/// `frames`, followed by `f` if there is one.
pub open spec fn with_frame(
    frames: Seq<AndroidAutoFrame>,
    f: Option<AndroidAutoFrame>,
) -> Seq<AndroidAutoFrame> {
    match f {
        Some(f) => frames.push(f),
        None => frames,
    }
}

/// The frames that the first `n` rounds read.
pub open spec fn frames_read(inputs: Seq<ReaderInput>, n: int) -> Seq<AndroidAutoFrame>
    decreases n,
{
    if n <= 0 {
        seq![]
    } else {
        with_frame(frames_read(inputs, n - 1), frame_read(inputs[n - 1]))
    }
}

/// The frames that the first `n` rounds hand to the ssl worker.
pub open spec fn frames_to_decrypt(actions: Seq<ReaderAction>, n: int) -> Seq<AndroidAutoFrame>
    decreases n,
{
    if n <= 0 {
        seq![]
    } else {
        with_frame(frames_to_decrypt(actions, n - 1), frame_to_decrypt(actions[n - 1]))
    }
}

/// The frames that the first `n` rounds hand to the rest of the program.
pub open spec fn frames_to_deliver(actions: Seq<ReaderAction>, n: int) -> Seq<AndroidAutoFrame>
    decreases n,
{
    if n <= 0 {
        seq![]
    } else {
        with_frame(frames_to_deliver(actions, n - 1), frame_to_deliver(actions[n - 1]))
    }
}

/// A run of the reading task: round `i` answers `inputs[i]` with `actions[i]`.
pub open spec fn reader_run(inputs: Seq<ReaderInput>, actions: Seq<ReaderAction>) -> bool {
    &&& inputs.len() == actions.len()
    &&& forall|i: int|
        #![trigger actions[i]]
        0 <= i < actions.len() ==> reader_action(inputs[i], actions[i])
}

/// Every frame that is read is handed on once, in the order of reading: those in
/// the clear to the rest of the program, the encrypted ones to the ssl worker.
pub proof fn law_frames_are_handed_on_in_order(
    inputs: Seq<ReaderInput>,
    actions: Seq<ReaderAction>,
    n: int,
)
    requires
        reader_run(inputs, actions),
        0 <= n <= actions.len(),
    ensures
        frames_to_deliver(actions, n) == frames_read(inputs, n).filter(
            |f: AndroidAutoFrame| !f.header.frame.encryption,
        ),
        frames_to_decrypt(actions, n) == frames_read(inputs, n).filter(
            |f: AndroidAutoFrame| f.header.frame.encryption,
        ),
    decreases n,
{
    reveal(Seq::filter);
    if n > 0 {
        law_frames_are_handed_on_in_order(inputs, actions, n - 1);
        let _ = actions[n - 1];
        if let Some(f) = frame_read(inputs[n - 1]) {
            let before = frames_read(inputs, n - 1);
            assert(before.push(f).drop_last() =~= before);
            assert(before.push(f).last() == f);
        }
    }
}

/// The reading task stops exactly when reading failed, and says why.
pub proof fn law_stops_only_on_errors(input: ReaderInput, action: ReaderAction)
    requires
        reader_action(input, action),
    ensures
        action is Stop <==> (input matches ReaderInput::Header(Err(_))) || (
        input matches ReaderInput::Frame(Err(_))),
        action matches ReaderAction::Stop(r) ==> r is ExitError,
        input matches ReaderInput::Header(Err(reason)) ==> (
        action matches ReaderAction::Stop(SslThreadResponse::ExitError(text)) && text@
            == "read error: "@ + reason@),
        input matches ReaderInput::Frame(Err(reason)) ==> (
        action matches ReaderAction::Stop(SslThreadResponse::ExitError(text)) && text@
            == "read error: "@ + reason@),
{
}

} // verus!
