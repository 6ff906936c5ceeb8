use android_auto_link::bulk::{
    AndroidAutoUsb, DrainStep, ReadEvent, ReadNext, ReadStep, TransferPoll, UsbBulkReader,
    UsbBulkWriter, WriteStep, BULK_IN_ENDPOINT, BULK_OUT_ENDPOINT,
};

fn deliver(submit: usize, bytes: &[u8]) -> ReadStep {
    ReadStep { submit, next: ReadNext::Deliver(bytes.to_vec()) }
}

fn poll(submit: usize) -> ReadStep {
    ReadStep { submit, next: ReadNext::PollTransfer }
}

fn completed(bytes: &[u8]) -> ReadEvent {
    ReadEvent::Completed(Ok(bytes.to_vec()))
}

#[test]
fn transfers_ask_for_whole_packets() {
    assert_eq!(UsbBulkReader::new(512).request_len(), 16384);
    assert_eq!(UsbBulkReader::new(1).request_len(), 32);
    assert_eq!(UsbBulkReader::new(0).request_len(), 32);
}

#[test]
fn the_reader_primes_the_pipeline_once() {
    let mut reader = UsbBulkReader::new(512);
    assert_eq!(reader.poll_read(ReadEvent::Begin, 10), poll(4));
    assert_eq!(
        reader.poll_read(ReadEvent::NotReady, 10),
        ReadStep { submit: 0, next: ReadNext::Pending }
    );
    assert_eq!(reader.poll_read(ReadEvent::Begin, 10), poll(0));
}

#[test]
fn bytes_come_out_in_order() {
    let mut reader = UsbBulkReader::new(512);
    assert_eq!(reader.poll_read(ReadEvent::Begin, 2), poll(4));
    assert_eq!(reader.poll_read(completed(&[1, 2, 3, 4, 5]), 2), deliver(1, &[1, 2]));
    assert_eq!(reader.poll_read(ReadEvent::Begin, 2), deliver(0, &[3, 4]));
    assert_eq!(reader.poll_read(ReadEvent::Begin, 9), deliver(0, &[5]));
    assert_eq!(reader.poll_read(ReadEvent::Begin, 9), poll(0));
    assert_eq!(reader.poll_read(completed(&[6]), 9), deliver(1, &[6]));
}

#[test]
fn the_pipeline_stays_full() {
    let mut reader = UsbBulkReader::new(512);
    let mut in_flight = 0;
    let mut received = Vec::new();
    let mut event = ReadEvent::Begin;
    for i in 0..20u8 {
        let step = reader.poll_read(event, 3);
        in_flight += step.submit;
        assert_eq!(in_flight, 4);
        event = match step.next {
            ReadNext::PollTransfer => {
                in_flight -= 1;
                completed(&[i, i, i, i])
            }
            ReadNext::Deliver(bytes) => {
                received.extend(bytes);
                ReadEvent::Begin
            }
            other => panic!("unexpected: {:?}", other),
        };
    }
    assert_eq!(&received[..8], &[0, 0, 0, 0, 3, 3, 3, 3]);
}

#[test]
fn empty_transfers_are_passed_over() {
    let mut reader = UsbBulkReader::new(64);
    reader.poll_read(ReadEvent::Begin, 5);
    assert_eq!(reader.poll_read(completed(&[]), 5), poll(1));
    assert_eq!(reader.poll_read(completed(&[8]), 5), deliver(1, &[8]));
}

#[test]
fn a_reader_without_room_delivers_nothing() {
    let mut reader = UsbBulkReader::new(64);
    reader.poll_read(ReadEvent::Begin, 0);
    assert_eq!(reader.poll_read(completed(&[8]), 0), deliver(1, &[]));
    assert_eq!(reader.poll_read(ReadEvent::Begin, 1), deliver(0, &[8]));
}

#[test]
fn failed_reads_are_replaced_and_reported() {
    let mut reader = UsbBulkReader::new(64);
    reader.poll_read(ReadEvent::Begin, 5);
    assert_eq!(
        reader.poll_read(ReadEvent::Completed(Err("Stall".to_string())), 5),
        ReadStep {
            submit: 1,
            next: ReadNext::Fail("usb bulk in transfer failed: Stall".to_string()),
        }
    );
    assert_eq!(reader.poll_read(ReadEvent::Begin, 5), poll(0));
}

#[test]
fn the_writer_sends_one_frame_at_a_time() {
    let mut writer = UsbBulkWriter::new();
    assert!(!writer.in_flight());
    assert_eq!(
        writer.poll_write(None, &[1, 2]),
        WriteStep::Accept { submit: Some(vec![1, 2]), count: 2 }
    );
    assert!(writer.in_flight());
    assert_eq!(writer.poll_write(Some(TransferPoll::NotReady), &[3]), WriteStep::Pending);
    assert!(writer.in_flight());
    assert_eq!(
        writer.poll_write(Some(TransferPoll::Done), &[3]),
        WriteStep::Accept { submit: Some(vec![3]), count: 1 }
    );
    assert!(writer.in_flight());
}

#[test]
fn empty_writes_submit_nothing() {
    let mut writer = UsbBulkWriter::new();
    assert_eq!(writer.poll_write(None, &[]), WriteStep::Accept { submit: None, count: 0 });
    assert!(!writer.in_flight());
}

#[test]
fn failed_writes_are_reported_once() {
    let mut writer = UsbBulkWriter::new();
    writer.poll_write(None, &[1]);
    assert_eq!(
        writer.poll_write(Some(TransferPoll::Failed("Stall".to_string())), &[2]),
        WriteStep::Fail("usb bulk out transfer failed: Stall".to_string())
    );
    assert!(!writer.in_flight());
    writer.poll_write(None, &[1]);
    assert_eq!(
        writer.poll_flush(Some(TransferPoll::Failed("Stall".to_string()))),
        DrainStep::Fail("usb bulk out transfer failed: Stall".to_string())
    );
    assert_eq!(writer.poll_flush(None), DrainStep::Ready);
}

#[test]
fn flush_and_shutdown_wait_for_the_transfer() {
    let mut writer = UsbBulkWriter::new();
    assert_eq!(writer.poll_drain(None), DrainStep::Ready);
    writer.poll_write(None, &[1]);
    assert_eq!(writer.poll_flush(Some(TransferPoll::NotReady)), DrainStep::Pending);
    assert_eq!(writer.poll_shutdown(Some(TransferPoll::Done)), DrainStep::Ready);
    assert!(!writer.in_flight());
    assert_eq!(writer.poll_shutdown(None), DrainStep::Ready);
}

#[test]
fn both_endpoints_are_needed() {
    assert_eq!(BULK_IN_ENDPOINT, 0x81);
    assert_eq!(BULK_OUT_ENDPOINT, 1);
    assert!(AndroidAutoUsb::new(None, true).is_none());
    assert!(AndroidAutoUsb::new(Some(512), false).is_none());
    let (reader, writer) = AndroidAutoUsb::new(Some(512), true).unwrap().into_split();
    assert_eq!(reader.request_len(), 16384);
    assert!(!writer.in_flight());
}

#[test]
fn every_buffer_is_a_transfer_of_its_own() {
    let buffers: [&[u8]; 4] = [&[1, 2, 3], &[], &[4], &[5, 6]];
    let mut writer = UsbBulkWriter::new();
    let mut transfers = Vec::new();
    for buf in buffers {
        let mut polled = writer.in_flight().then_some(TransferPoll::NotReady);
        loop {
            match writer.poll_write(polled, buf) {
                WriteStep::Pending => polled = Some(TransferPoll::Done),
                WriteStep::Accept { submit, count } => {
                    assert_eq!(count, buf.len());
                    transfers.extend(submit);
                    break;
                }
                WriteStep::Fail(e) => panic!("{e}"),
            }
        }
    }
    assert_eq!(transfers, vec![vec![1, 2, 3], vec![4], vec![5, 6]]);
}
