use android_auto_link::frame::{AndroidAutoFrame, FrameHeader, FrameHeaderContents};
use android_auto_link::raw_log::{control_trace, log_raw, LogLevel, LoggingIo};
use android_auto_link::text::{push_decimal, push_hex_list};

#[test]
fn empty_chunks_are_not_logged() {
    assert_eq!(log_raw("usb in", &[]), None);
}

#[test]
fn small_chunks_are_logged_at_info() {
    let line = log_raw("usb in", &[0x00, 0x0a, 0xff]).unwrap();
    assert_eq!(line.level, LogLevel::Info);
    assert_eq!(line.text, "usb in raw 3 bytes: [00, 0a, ff]");
    let line = log_raw("x", &[7; 64]).unwrap();
    assert_eq!(line.level, LogLevel::Info);
}

#[test]
fn large_chunks_are_logged_at_debug_and_capped() {
    let bytes: Vec<u8> = (0..=255).collect();
    let line = log_raw("out", &bytes).unwrap();
    assert_eq!(line.level, LogLevel::Debug);
    assert_eq!(line.text, format!("out raw 256 bytes: {:02x?}", &bytes[..64]));
    let line = log_raw("out", &bytes[..65]).unwrap();
    assert_eq!(line.level, LogLevel::Debug);
    assert_eq!(line.text, format!("out raw 65 bytes: {:02x?}", &bytes[..64]));
}

#[test]
fn numbers_and_bytes_are_rendered() {
    let mut out = String::from("n=");
    push_decimal(&mut out, 0);
    out.push(' ');
    push_decimal(&mut out, 1234567890);
    assert_eq!(out, "n=0 1234567890");
    let mut out = String::new();
    push_decimal(&mut out, usize::MAX);
    assert_eq!(out, format!("{}", usize::MAX));
    let mut out = String::new();
    push_hex_list(&mut out, &[]);
    push_hex_list(&mut out, &[0x9f]);
    assert_eq!(out, "[][9f]");
}

#[test]
fn reads_are_logged_past_what_was_there() {
    let io = LoggingIo::new(5, "in");
    assert_eq!(io.inner, 5);
    assert_eq!(io.label, "in");
    assert_eq!(io.poll_read(2, &[1, 2, 3, 4], true).unwrap().text, "in raw 2 bytes: [03, 04]");
    assert_eq!(io.poll_read(4, &[1, 2, 3, 4], true), None);
    assert_eq!(io.poll_read(0, &[1, 2], false), None);
}

#[test]
fn writes_are_logged_as_far_as_accepted() {
    let io = LoggingIo::new((), "out");
    assert_eq!(io.poll_write(&[1, 2, 3], Some(1)).unwrap().text, "out raw 1 bytes: [01]");
    assert_eq!(io.poll_write(&[1, 2, 3], Some(0)), None);
    assert_eq!(io.poll_write(&[1, 2, 3], None), None);
}

fn frame(channel_id: u8, encryption: bool, other_flags: u8, data: Vec<u8>) -> AndroidAutoFrame {
    let frame = FrameHeaderContents { encryption, other_flags };
    AndroidAutoFrame { header: FrameHeader { channel_id, frame }, data }
}

#[test]
fn control_frames_in_the_clear_are_traced() {
    let f = frame(0, false, 3, vec![0x00, 0x01, 0xfe]);
    assert_eq!(
        control_trace("TX", &f).unwrap(),
        format!("TX control frame {:?} len=3 data=[00, 01, fe]", f.header)
    );
    let f = frame(0, false, 255, vec![]);
    assert_eq!(
        control_trace("RX", &f).unwrap(),
        format!("RX control frame {:?} len=0 data=[]", f.header)
    );
}

#[test]
fn traced_payloads_are_capped() {
    let bytes: Vec<u8> = (0..100).collect();
    let text = control_trace("RX", &frame(0, false, 0, bytes.clone())).unwrap();
    assert!(text.ends_with(&format!(" len=100 data={:02x?}", &bytes[..64])));
    let text = control_trace("RX", &frame(0, false, 0, bytes[..64].to_vec())).unwrap();
    assert!(text.ends_with(&format!(" len=64 data={:02x?}", &bytes[..64])));
}

#[test]
fn other_frames_are_not_traced() {
    assert_eq!(control_trace("TX", &frame(1, false, 3, vec![1])), None);
    assert_eq!(control_trace("TX", &frame(0, true, 3, vec![1])), None);
    assert_eq!(control_trace("TX", &frame(7, true, 3, vec![1])), None);
}
