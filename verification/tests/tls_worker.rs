use std::io::Write;
use std::sync::Arc;

use android_auto_link::frame::{AndroidAutoFrame, FrameHeader, FrameHeaderContents};
use android_auto_link::ssl::{
    fail, judge, send_handshake, write_failure_text, HandshakeVerdict, SslAction, SslInput,
    SslStep, SslStreamThread, SslThreadData, SslThreadResponse, WriteFailure, WriteOutcome,
    WritePayload, WriteStage,
};
use android_auto_link::tls::{absorb, emit, TlsReport};
use rustls::pki_types::{CertificateDer, PrivateKeyDer, PrivatePkcs8KeyDer, ServerName};

/// A self-signed certificate for `phone.test`.
const CERTIFICATE: [u8; 314] = [
    0x30, 0x82, 0x01, 0x36, 0x30, 0x81, 0xdc, 0xa0, 0x03, 0x02, 0x01, 0x02, 0x02, 0x01, 0x01, 0x30,
    0x0a, 0x06, 0x08, 0x2a, 0x86, 0x48, 0xce, 0x3d, 0x04, 0x03, 0x02, 0x30, 0x10, 0x31, 0x0e, 0x30,
    0x0c, 0x06, 0x03, 0x55, 0x04, 0x03, 0x0c, 0x05, 0x70, 0x68, 0x6f, 0x6e, 0x65, 0x30, 0x1e, 0x17,
    0x0d, 0x30, 0x30, 0x30, 0x31, 0x30, 0x31, 0x30, 0x30, 0x30, 0x30, 0x30, 0x30, 0x5a, 0x17, 0x0d,
    0x34, 0x39, 0x31, 0x32, 0x33, 0x31, 0x30, 0x30, 0x30, 0x30, 0x30, 0x30, 0x5a, 0x30, 0x10, 0x31,
    0x0e, 0x30, 0x0c, 0x06, 0x03, 0x55, 0x04, 0x03, 0x0c, 0x05, 0x70, 0x68, 0x6f, 0x6e, 0x65, 0x30,
    0x59, 0x30, 0x13, 0x06, 0x07, 0x2a, 0x86, 0x48, 0xce, 0x3d, 0x02, 0x01, 0x06, 0x08, 0x2a, 0x86,
    0x48, 0xce, 0x3d, 0x03, 0x01, 0x07, 0x03, 0x42, 0x00, 0x04, 0x98, 0x08, 0x30, 0x6c, 0xdd, 0x59,
    0xd2, 0x00, 0x66, 0x9a, 0x63, 0x89, 0xe5, 0x7d, 0x5d, 0x96, 0x67, 0x9b, 0xc5, 0x59, 0x76, 0xb7,
    0xa9, 0x9a, 0x57, 0x89, 0xe5, 0x3e, 0x57, 0x53, 0x84, 0xf4, 0xf0, 0x5d, 0x81, 0x9f, 0x6f, 0x48,
    0x09, 0x01, 0x97, 0xda, 0x06, 0xe8, 0x99, 0xd4, 0x0e, 0xaf, 0x02, 0x06, 0x29, 0x1d, 0x01, 0x78,
    0x9c, 0x9f, 0xee, 0xe2, 0xc7, 0xe2, 0x6c, 0xa2, 0x9d, 0xfd, 0xa3, 0x27, 0x30, 0x25, 0x30, 0x15,
    0x06, 0x03, 0x55, 0x1d, 0x11, 0x04, 0x0e, 0x30, 0x0c, 0x82, 0x0a, 0x70, 0x68, 0x6f, 0x6e, 0x65,
    0x2e, 0x74, 0x65, 0x73, 0x74, 0x30, 0x0c, 0x06, 0x03, 0x55, 0x1d, 0x13, 0x01, 0x01, 0xff, 0x04,
    0x02, 0x30, 0x00, 0x30, 0x0a, 0x06, 0x08, 0x2a, 0x86, 0x48, 0xce, 0x3d, 0x04, 0x03, 0x02, 0x03,
    0x49, 0x00, 0x30, 0x46, 0x02, 0x21, 0x00, 0xc8, 0xcf, 0x02, 0x6d, 0xe8, 0x4c, 0x4c, 0x2a, 0x63,
    0x20, 0xbd, 0x0c, 0x95, 0xb4, 0xf9, 0x2a, 0x35, 0xa7, 0x8a, 0x1f, 0x2a, 0xf2, 0x1c, 0xdb, 0x27,
    0x36, 0xa6, 0x19, 0x68, 0xab, 0x98, 0xdf, 0x02, 0x21, 0x00, 0x96, 0xb2, 0xa9, 0xa3, 0x5b, 0x04,
    0xd5, 0xae, 0x1d, 0x84, 0x1d, 0xc9, 0x6e, 0x0a, 0x05, 0xfd, 0x6a, 0x53, 0x0d, 0x42, 0x38, 0x6c,
    0x21, 0x11, 0x77, 0xb0, 0xf9, 0x13, 0x02, 0x00, 0x39, 0xdd,
];

/// The key that goes with it.
const KEY: [u8; 138] = [
    0x30, 0x81, 0x87, 0x02, 0x01, 0x00, 0x30, 0x13, 0x06, 0x07, 0x2a, 0x86, 0x48, 0xce, 0x3d, 0x02,
    0x01, 0x06, 0x08, 0x2a, 0x86, 0x48, 0xce, 0x3d, 0x03, 0x01, 0x07, 0x04, 0x6d, 0x30, 0x6b, 0x02,
    0x01, 0x01, 0x04, 0x20, 0xe3, 0x67, 0x7d, 0x11, 0xea, 0x70, 0x5a, 0x2c, 0x6d, 0x51, 0xbc, 0x55,
    0x7e, 0x6f, 0x55, 0xdb, 0xb6, 0x5d, 0x18, 0x32, 0xf5, 0x77, 0x5c, 0xb7, 0x51, 0xe1, 0x87, 0xa4,
    0xdc, 0xa5, 0x3e, 0x3a, 0xa1, 0x44, 0x03, 0x42, 0x00, 0x04, 0x98, 0x08, 0x30, 0x6c, 0xdd, 0x59,
    0xd2, 0x00, 0x66, 0x9a, 0x63, 0x89, 0xe5, 0x7d, 0x5d, 0x96, 0x67, 0x9b, 0xc5, 0x59, 0x76, 0xb7,
    0xa9, 0x9a, 0x57, 0x89, 0xe5, 0x3e, 0x57, 0x53, 0x84, 0xf4, 0xf0, 0x5d, 0x81, 0x9f, 0x6f, 0x48,
    0x09, 0x01, 0x97, 0xda, 0x06, 0xe8, 0x99, 0xd4, 0x0e, 0xaf, 0x02, 0x06, 0x29, 0x1d, 0x01, 0x78,
    0x9c, 0x9f, 0xee, 0xe2, 0xc7, 0xe2, 0x6c, 0xa2, 0x9d, 0xfd,
];

fn client() -> rustls::client::ClientConnection {
    let mut roots = rustls::RootCertStore::empty();
    roots.add(CertificateDer::from(CERTIFICATE.to_vec())).unwrap();
    let config = rustls::ClientConfig::builder()
        .with_root_certificates(roots)
        .with_no_client_auth();
    let name = ServerName::try_from("phone.test").unwrap();
    rustls::client::ClientConnection::new(Arc::new(config), name).unwrap()
}

fn server() -> rustls::server::ServerConnection {
    let config = rustls::ServerConfig::builder()
        .with_no_client_auth()
        .with_single_cert(
            vec![CertificateDer::from(CERTIFICATE.to_vec())],
            PrivateKeyDer::Pkcs8(PrivatePkcs8KeyDer::from(KEY.to_vec())),
        )
        .unwrap();
    rustls::server::ServerConnection::new(Arc::new(config)).unwrap()
}

fn frame(channel_id: u8, encryption: bool, data: &[u8]) -> AndroidAutoFrame {
    AndroidAutoFrame {
        header: FrameHeader {
            channel_id,
            frame: FrameHeaderContents { encryption, other_flags: 3 },
        },
        data: data.to_vec(),
    }
}

fn idle() -> SslStep<u32> {
    SslStep { respond: None, next: SslAction::Receive }
}

fn failure(text: &str) -> SslStep<u32> {
    SslStep {
        respond: Some(SslThreadResponse::ExitError(text.to_string())),
        next: SslAction::Exit(Err(text.to_string())),
    }
}

fn write_of(f: AndroidAutoFrame) -> SslStep<u32> {
    SslStep {
        respond: None,
        next: SslAction::Write { stage: WriteStage::Frame, payload: WritePayload::Frame(f) },
    }
}

fn flight(step: SslStep<u32>, expected: WriteStage) -> Vec<u8> {
    assert_eq!(step.respond, None);
    match step.next {
        SslAction::Write { stage, payload: WritePayload::Handshake(bytes) } => {
            assert_eq!(stage, expected);
            bytes
        }
        other => panic!("not a flight: {:?}", other),
    }
}

fn receive(worker: &mut SslStreamThread, m: SslThreadData<u32>) -> SslStep<u32> {
    worker.run(SslInput::Received(Some(m)))
}

fn start(worker: &mut SslStreamThread) -> Vec<u8> {
    let step = receive(worker, SslThreadData::HandshakeStart);
    flight(step, WriteStage::HandshakeStart)
}

fn feed(server: &mut rustls::server::ServerConnection, bytes: &[u8]) {
    let mut rest = bytes;
    while !rest.is_empty() {
        server.read_tls(&mut rest).unwrap();
        server.process_new_packets().unwrap();
    }
}

fn take(server: &mut rustls::server::ServerConnection) -> Vec<u8> {
    let mut out = Vec::new();
    while server.wants_write() {
        server.write_tls(&mut out).unwrap();
    }
    out
}

/// A worker and a peer that have completed the handshake.
fn connected() -> (SslStreamThread, rustls::server::ServerConnection) {
    let mut worker = SslStreamThread::new(client());
    let mut peer = server();
    let hello = start(&mut worker);
    worker.run::<u32>(SslInput::Written(WriteStage::HandshakeStart, WriteOutcome::Written));
    feed(&mut peer, &hello);
    let reply = take(&mut peer);
    let step = receive(&mut worker, SslThreadData::HandshakeData(reply));
    assert_eq!(step, SslStep { respond: None, next: SslAction::Announce });
    let step = worker.run(SslInput::Announced(Ok(())));
    feed(&mut peer, &flight(step, WriteStage::HandshakeFlight));
    (worker, peer)
}

#[test]
fn a_new_worker_has_done_nothing() {
    let worker = SslStreamThread::new(client());
    assert!(!worker.hs_started);
    assert!(!worker.hs_completed);
    assert!(worker.stream.is_handshaking());
}

#[test]
fn handshake_runs_to_completion() {
    let mut worker = SslStreamThread::new(client());
    let mut peer = server();

    let hello = start(&mut worker);
    // A TLS handshake record that carries a client hello.
    assert_eq!(hello[0], 22);
    assert_eq!(hello[5], 1);
    assert!(!worker.hs_started);
    assert!(!worker.stream.wants_write());
    let step = worker.run(SslInput::Written(WriteStage::HandshakeStart, WriteOutcome::Written));
    assert_eq!(step, idle());
    assert!(worker.hs_started);

    feed(&mut peer, &hello);
    let reply = take(&mut peer);
    let step = receive(&mut worker, SslThreadData::HandshakeData(reply));
    assert_eq!(step, SslStep { respond: None, next: SslAction::Announce });
    assert!(worker.hs_completed);
    assert!(worker.stream.wants_write());

    // The last flight goes out after the announcement.
    let step = worker.run(SslInput::Announced(Ok(())));
    let last = flight(step, WriteStage::HandshakeFlight);
    assert!(!last.is_empty());
    assert!(!worker.stream.wants_write());
    assert!(peer.is_handshaking());
    feed(&mut peer, &last);
    assert!(!peer.is_handshaking());
    let step = worker.run(SslInput::Written(WriteStage::HandshakeFlight, WriteOutcome::Written));
    assert_eq!(step, idle());

    // Later handshake data announces nothing again.
    let tickets = take(&mut peer);
    let step = receive(&mut worker, SslThreadData::HandshakeData(tickets));
    assert_eq!(step, idle());
    assert!(worker.hs_completed);
}

#[test]
fn partial_handshake_data_is_waited_for() {
    let mut worker = SslStreamThread::new(client());
    let mut peer = server();
    let hello = start(&mut worker);
    feed(&mut peer, &hello);
    let reply = take(&mut peer);
    let step = receive(&mut worker, SslThreadData::HandshakeData(reply[..10].to_vec()));
    assert_eq!(step, idle());
    assert!(!worker.hs_completed);
    let step = receive(&mut worker, SslThreadData::HandshakeData(reply[10..].to_vec()));
    assert_eq!(step, SslStep { respond: None, next: SslAction::Announce });
}

#[test]
fn duplicate_start_is_ignored() {
    let mut worker = SslStreamThread::new(client());
    start(&mut worker);
    worker.run::<u32>(SslInput::Written(WriteStage::HandshakeStart, WriteOutcome::Written));
    let step = receive(&mut worker, SslThreadData::HandshakeStart);
    assert_eq!(step, idle());
    assert!(worker.hs_started);
}

#[test]
fn a_start_that_was_not_written_does_not_count() {
    let mut worker = SslStreamThread::new(client());
    start(&mut worker);
    let step = worker.run(SslInput::Written(
        WriteStage::HandshakeStart,
        WriteOutcome::WriteFailed(WriteFailure::TimedOut),
    ));
    assert_eq!(step, failure("write timed out"));
    assert!(!worker.hs_started);
}

#[test]
fn garbage_in_the_handshake_ends_the_worker() {
    let mut worker = SslStreamThread::new(client());
    start(&mut worker);
    let step = receive(&mut worker, SslThreadData::HandshakeData(vec![0xff; 16]));
    match step.respond {
        Some(SslThreadResponse::ExitError(text)) => assert_eq!(text, "InvalidMessage(InvalidContentType)"),
        other => panic!("no error: {:?}", other),
    }
    assert!(matches!(step.next, SslAction::Exit(Err(_))));
    assert!(!worker.hs_completed);
}

#[test]
fn alerts_go_with_failures() {
    let mut worker = SslStreamThread::new(client());
    let mut peer = server();
    let hello = start(&mut worker);
    feed(&mut peer, &hello);
    let reply = take(&mut peer);
    let step = receive(&mut worker, SslThreadData::HandshakeData(reply[..10].to_vec()));
    assert_eq!(step, idle());
    assert!(!worker.stream.wants_write());

    // A TLS record that carries an alert.
    let mut worker = SslStreamThread::new(client());
    start(&mut worker);
    let step = receive(&mut worker, SslThreadData::HandshakeData(vec![0xff; 16]));
    assert_eq!(step, failure("InvalidMessage(InvalidContentType)"));
    assert_eq!(emit(&mut worker.stream).unwrap()[0], 21);

    // A failed engine repeats its error and sends nothing more.
    let step = receive(&mut worker, SslThreadData::HandshakeData(vec![0xff; 16]));
    assert_eq!(step, failure("InvalidMessage(InvalidContentType)"));
    assert!(!worker.stream.wants_write());
}

#[test]
fn a_peer_that_closes_ends_the_worker() {
    let (mut worker, mut peer) = connected();
    peer.send_close_notify();
    let bytes = take(&mut peer);
    let step = receive(&mut worker, SslThreadData::HandshakeData(bytes));
    assert_eq!(step, failure("peer closed connection during handshake"));
}

#[test]
fn a_full_engine_ends_the_worker() {
    let (mut worker, mut peer) = connected();
    peer.writer().write_all(&[7; 40000]).unwrap();
    let bytes = take(&mut peer);
    let mut last = idle();
    for piece in bytes.chunks(1000) {
        last = receive(&mut worker, SslThreadData::HandshakeData(piece.to_vec()));
        if last != idle() {
            break;
        }
    }
    assert_eq!(last, failure("read_tls: received plaintext buffer full"));
}

#[test]
fn an_announcement_nobody_hears_ends_the_worker() {
    let mut worker = SslStreamThread::new(client());
    let step = worker.run(SslInput::Announced(Err("channel closed".to_string())));
    assert_eq!(step, failure("channel closed"));
}

#[test]
fn encrypted_frames_are_discarded_before_completion() {
    let mut worker = SslStreamThread::new(client());
    let step = receive(&mut worker, SslThreadData::Frame(frame(4, true, &[1, 2])));
    assert_eq!(step, idle());
    let step = worker.run(SslInput::Resolved(Some(frame(4, true, &[1, 2]))));
    assert_eq!(step, idle());
    assert_eq!(worker.send_or_discard::<u32>(frame(0, true, &[])), idle());
}

#[test]
fn encrypted_frames_are_written_after_completion() {
    let (mut worker, _peer) = connected();
    let step = receive(&mut worker, SslThreadData::Frame(frame(4, true, &[1, 2])));
    assert_eq!(step, write_of(frame(4, true, &[1, 2])));
    let step = worker.run(SslInput::Resolved(Some(frame(5, true, &[3]))));
    assert_eq!(step, write_of(frame(5, true, &[3])));
}

#[test]
fn plain_frames_are_always_written() {
    let mut worker = SslStreamThread::new(client());
    let step = receive(&mut worker, SslThreadData::Frame(frame(0, false, &[9])));
    assert_eq!(step, write_of(frame(0, false, &[9])));
    assert_eq!(worker.write_frame_now::<u32>(frame(1, true, &[])), write_of(frame(1, true, &[])));
    let step = worker.run(SslInput::Written(WriteStage::Frame, WriteOutcome::Written));
    assert_eq!(step, idle());
    assert!(!worker.hs_started);
}

#[test]
fn messages_are_resolved_first() {
    let mut worker = SslStreamThread::new(client());
    let step = receive(&mut worker, SslThreadData::PlainData(17));
    assert_eq!(step, SslStep { respond: None, next: SslAction::Resolve(17) });
    let step = worker.run(SslInput::Resolved(None));
    assert_eq!(step, idle());
    let step = worker.run(SslInput::Resolved(Some(frame(2, false, &[5]))));
    assert_eq!(step, write_of(frame(2, false, &[5])));
}

#[test]
fn undecryptable_frames_before_completion_are_dropped() {
    let mut worker = SslStreamThread::new(client());
    let step = receive(&mut worker, SslThreadData::DecryptMe(frame(3, true, &[1])));
    assert_eq!(step, SslStep { respond: None, next: SslAction::Decrypt(frame(3, true, &[1])) });
    let step = worker.run(SslInput::Decrypted(Err("InappropriateMessage".to_string())));
    assert_eq!(step, idle());
}

#[test]
fn undecryptable_frames_after_completion_are_fatal() {
    let (mut worker, _peer) = connected();
    let step = worker.run(SslInput::Decrypted(Err("DecryptError".to_string())));
    assert_eq!(step, failure("frame error DecryptError"));
}

#[test]
fn decrypted_frames_are_delivered() {
    let mut worker = SslStreamThread::new(client());
    let step: SslStep<u32> = worker.run(SslInput::Decrypted(Ok(frame(3, true, &[8, 9]))));
    assert_eq!(
        step,
        SslStep {
            respond: Some(SslThreadResponse::Data(frame(3, true, &[8, 9]))),
            next: SslAction::Receive,
        }
    );
}

#[test]
fn the_end_of_messages_ends_the_worker() {
    let mut worker = SslStreamThread::new(client());
    let step: SslStep<u32> = worker.run(SslInput::Received(None));
    assert_eq!(step, SslStep { respond: None, next: SslAction::Exit(Ok(())) });
}

#[test]
fn write_failures_are_named() {
    let other = || WriteFailure::Other {
        display: "broken pipe".to_string(),
        debug: "Kind(BrokenPipe)".to_string(),
    };
    let text = write_failure_text;
    assert_eq!(text(WriteStage::Frame, WriteFailure::TimedOut), "Timeout");
    assert_eq!(text(WriteStage::Frame, WriteFailure::UnexpectedEof), "Disconnected");
    assert_eq!(text(WriteStage::Frame, other()), "Unexpected(Kind(BrokenPipe))");
    assert_eq!(text(WriteStage::HandshakeStart, WriteFailure::TimedOut), "write timed out");
    assert_eq!(text(WriteStage::HandshakeStart, WriteFailure::UnexpectedEof), "write disconnected");
    assert_eq!(text(WriteStage::HandshakeStart, other()), "write error: broken pipe");
    assert_eq!(text(WriteStage::HandshakeFlight, WriteFailure::TimedOut), "Timed out");
    assert_eq!(text(WriteStage::HandshakeFlight, WriteFailure::UnexpectedEof), "Disconnected");
    assert_eq!(text(WriteStage::HandshakeFlight, other()), "write error: broken pipe");
}

#[test]
fn failed_writes_end_the_worker() {
    let mut worker = SslStreamThread::new(client());
    let step = worker.run(SslInput::Written(
        WriteStage::Frame,
        WriteOutcome::BuildFailed("TooLong".to_string()),
    ));
    assert_eq!(step, failure("TooLong"));
    let step = worker.run(SslInput::Written(
        WriteStage::HandshakeFlight,
        WriteOutcome::WriteFailed(WriteFailure::UnexpectedEof),
    ));
    assert_eq!(step, failure("Disconnected"));
    assert_eq!(fail::<u32>("why".to_string()), failure("why"));
}

#[test]
fn frames_are_flushed_even_after_a_failure() {
    assert!(WriteStage::Frame.flushes(true));
    assert!(WriteStage::Frame.flushes(false));
    assert!(WriteStage::HandshakeStart.flushes(true));
    assert!(!WriteStage::HandshakeStart.flushes(false));
    assert!(WriteStage::HandshakeFlight.flushes(true));
    assert!(!WriteStage::HandshakeFlight.flushes(false));
}

#[test]
fn reports_are_judged() {
    let report = |peer_closed, handshaking| TlsReport::Processed { peer_closed, handshaking };
    assert_eq!(judge(false, report(false, false)), HandshakeVerdict::Announce);
    assert_eq!(judge(true, report(false, false)), HandshakeVerdict::Continue);
    assert_eq!(judge(false, report(false, true)), HandshakeVerdict::Continue);
    assert_eq!(
        judge(false, report(true, false)),
        HandshakeVerdict::Fail("peer closed connection during handshake".to_string())
    );
    assert_eq!(
        judge(false, TlsReport::ReadFailed("full".to_string())),
        HandshakeVerdict::Fail("read_tls: full".to_string())
    );
    assert_eq!(
        judge(true, TlsReport::ProtocolFailed("BadRecord".to_string())),
        HandshakeVerdict::Fail("BadRecord".to_string())
    );
}

#[test]
fn handshake_bytes_become_a_write() {
    let step: SslStep<u32> = send_handshake(WriteStage::HandshakeFlight, Ok(vec![1, 2]));
    assert_eq!(flight(step, WriteStage::HandshakeFlight), vec![1, 2]);
    let step: SslStep<u32> = send_handshake(WriteStage::HandshakeStart, Err("full".to_string()));
    assert_eq!(step, failure("write_tls: full"));
}

#[test]
fn the_engine_gives_up_its_bytes_once() {
    let mut conn = client();
    assert!(conn.wants_write());
    let hello = emit(&mut conn).unwrap();
    assert!(!hello.is_empty());
    assert!(!conn.wants_write());
    assert_eq!(emit(&mut conn), Ok(vec![]));
}

#[test]
fn the_engine_reports_what_it_absorbed() {
    let mut conn = client();
    let mut peer = server();
    let hello = emit(&mut conn).unwrap();
    feed(&mut peer, &hello);
    let reply = take(&mut peer);
    assert_eq!(
        absorb(&mut conn, &reply[..7].to_vec()),
        TlsReport::Processed { peer_closed: false, handshaking: true }
    );
    assert_eq!(
        absorb(&mut conn, &reply[7..].to_vec()),
        TlsReport::Processed { peer_closed: false, handshaking: false }
    );
    assert_eq!(
        absorb(&mut conn, &vec![0xff; 16]),
        TlsReport::ProtocolFailed("InvalidMessage(InvalidContentType)".to_string())
    );
}
