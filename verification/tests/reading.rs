use android_auto_link::frame::{AndroidAutoFrame, FrameHeader, FrameHeaderContents};
use android_auto_link::mux::{route, ReaderAction, ReaderInput};
use android_auto_link::ssl::SslThreadResponse;

fn header(encryption: bool) -> FrameHeader {
    FrameHeader { channel_id: 0, frame: FrameHeaderContents { encryption, other_flags: 0 } }
}

fn frame(encryption: bool) -> AndroidAutoFrame {
    AndroidAutoFrame { header: header(encryption), data: vec![1, 2, 3] }
}

#[test]
fn headers_lead_to_frames() {
    assert_eq!(route(ReaderInput::Ready), ReaderAction::ReadHeader);
    assert_eq!(route(ReaderInput::Header(Ok(None))), ReaderAction::ReadHeader);
    assert_eq!(
        route(ReaderInput::Header(Ok(Some(header(true))))),
        ReaderAction::ReadFrame(header(true))
    );
    assert_eq!(route(ReaderInput::Frame(Ok(None))), ReaderAction::ReadHeader);
}

#[test]
fn frames_go_where_they_belong() {
    assert_eq!(
        route(ReaderInput::Frame(Ok(Some(frame(true))))),
        ReaderAction::Decrypt(frame(true))
    );
    assert_eq!(
        route(ReaderInput::Frame(Ok(Some(frame(false))))),
        ReaderAction::Deliver(SslThreadResponse::Data(frame(false)))
    );
}

#[test]
fn frames_are_handed_on_in_order() {
    let mut delivered = Vec::new();
    let mut to_decrypt = Vec::new();
    for i in 0..6u8 {
        let mut f = frame(i % 3 == 0);
        f.data = vec![i];
        match route(ReaderInput::Frame(Ok(Some(f)))) {
            ReaderAction::Deliver(SslThreadResponse::Data(f)) => delivered.push(f.data[0]),
            ReaderAction::Decrypt(f) => to_decrypt.push(f.data[0]),
            other => panic!("unexpected: {:?}", other),
        }
        assert_eq!(route(ReaderInput::Frame(Ok(None))), ReaderAction::ReadHeader);
    }
    assert_eq!(delivered, vec![1, 2, 4, 5]);
    assert_eq!(to_decrypt, vec![0, 3]);
}

#[test]
fn read_errors_stop_the_reader() {
    let stopped = ReaderAction::Stop(SslThreadResponse::ExitError(
        "read error: Disconnected".to_string(),
    ));
    assert_eq!(route(ReaderInput::Header(Err("Disconnected".to_string()))), stopped);
    assert_eq!(route(ReaderInput::Frame(Err("Disconnected".to_string()))), stopped);
}

#[test]
fn the_encryption_flag_is_read() {
    assert!(header(true).frame.get_encryption());
    assert!(!header(false).frame.get_encryption());
}
