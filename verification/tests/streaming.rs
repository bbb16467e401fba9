use std::time::Duration;

use cameleon::channel::{ReceiveChannel, ReceiveIfaceInfo};
use cameleon::error::{StreamError, StreamIoCause};
use cameleon::payload::{
    read_u32_be, walk_chunks, ChunkWalk, ImageInfo, Payload, PayloadBuilder,
};
use cameleon::protocol::{
    read_u16_le, read_u32_le, read_u64_le, Leader, PayloadStatus, PayloadType, PixelFormat,
    Trailer,
};
use cameleon::stream_params::StreamParams;
use cameleon::stream_read::{
    leader_received, read_leader, read_payload, read_trailer, received, recv, trailer_received,
    PayloadRead, Transfer,
};
use cameleon::streaming_loop::{Action, CancellationPoll, Phase, Step, StreamingLoop};
use cameleon::transport::{LibUsbError, TransportError, UsbRequest};

const MONO8: u32 = 0x0108_0001;

fn leader_bytes(payload_type: u16, block_id: u64, timestamp: u64, width: u32) -> Vec<u8> {
    let mut bytes = Vec::new();
    bytes.extend_from_slice(&0x4C56_3355u32.to_le_bytes());
    bytes.extend_from_slice(&0u16.to_le_bytes());
    bytes.extend_from_slice(&52u16.to_le_bytes());
    bytes.extend_from_slice(&block_id.to_le_bytes());
    bytes.extend_from_slice(&0u16.to_le_bytes());
    bytes.extend_from_slice(&payload_type.to_le_bytes());
    bytes.extend_from_slice(&timestamp.to_le_bytes());
    if payload_type != 0x4000 {
        bytes.extend_from_slice(&MONO8.to_le_bytes());
        bytes.extend_from_slice(&width.to_le_bytes());
        bytes.extend_from_slice(&960u32.to_le_bytes());
        bytes.extend_from_slice(&16u32.to_le_bytes());
        bytes.extend_from_slice(&32u32.to_le_bytes());
        bytes.extend_from_slice(&0u16.to_le_bytes());
        bytes.extend_from_slice(&0u16.to_le_bytes());
    }
    bytes
}

fn trailer_bytes(status: u16, block_id: u64, valid_payload_size: u64, specific: &[u32]) -> Vec<u8> {
    let mut bytes = Vec::new();
    bytes.extend_from_slice(&0x5456_3355u32.to_le_bytes());
    bytes.extend_from_slice(&0u16.to_le_bytes());
    bytes.extend_from_slice(&((28 + 4 * specific.len()) as u16).to_le_bytes());
    bytes.extend_from_slice(&block_id.to_le_bytes());
    bytes.extend_from_slice(&status.to_le_bytes());
    bytes.extend_from_slice(&0u16.to_le_bytes());
    bytes.extend_from_slice(&valid_payload_size.to_le_bytes());
    for word in specific {
        bytes.extend_from_slice(&word.to_le_bytes());
    }
    bytes
}

/// One chunk record: four bytes of ID, the data and the size of the data.
fn record(data_size: usize, id: u32) -> Vec<u8> {
    let mut bytes = id.to_be_bytes().to_vec();
    bytes.extend(vec![0xAB; data_size]);
    bytes.extend_from_slice(&(data_size as u32).to_be_bytes());
    bytes
}

fn channel() -> ReceiveChannel {
    ReceiveChannel::new(ReceiveIfaceInfo {
        iface_number: 2,
        bulk_in_ep: 0x83,
    })
}

/// Parameters whose maximum payload size is 614400.
fn params() -> StreamParams {
    StreamParams::new(52, 32, 65536, 9, 24576, 0, Duration::from_millis(100))
}

fn invalid_payload(result: Result<Payload, StreamError>) -> String {
    match result {
        Err(StreamError::InvalidPayload(message)) => message,
        other => panic!("expected InvalidPayload, got {:?}", other),
    }
}

/// Drives a fresh loop up to the payload read of its first block and returns
/// the buffer that it lends out.
fn read_up_to_payload(worker: &mut StreamingLoop, leader: &[u8]) -> Vec<u8> {
    match worker.phase() {
        Phase::Boundary => {
            let action = worker.on_cancellation(CancellationPoll::Pending);
            if action == Action::TryRecvBuffer {
                worker.on_recycled(None);
            }
        }
        phase => panic!("unexpected phase {:?}", phase),
    }
    assert_eq!(worker.phase(), Phase::AwaitLeader);
    let step = worker.on_leader(Ok(leader.len()), leader);
    assert!(step.report.is_none());
    match step.next {
        Action::ReadPayload { buf, .. } => buf,
        other => panic!("unexpected action {:?}", other),
    }
}

#[test]
fn happy_path_image_block() {
    let mut worker = StreamingLoop::new(channel(), params());
    assert_eq!(worker.phase(), Phase::Boundary);

    let action = worker.on_cancellation(CancellationPoll::Pending);
    assert_eq!(action, Action::TryRecvBuffer);

    let action = worker.on_recycled(None);
    assert_eq!(
        action,
        Action::ReceiveLeader(Some(UsbRequest::ReadBulk {
            endpoint: 0x83,
            len: 52,
            timeout: Duration::from_millis(100),
        }))
    );

    let leader = leader_bytes(0x0001, 7, 123456, 640);
    let step = worker.on_leader(Ok(52), &leader);
    assert!(step.report.is_none());
    let (buf, timeout) = match step.next {
        Action::ReadPayload { buf, timeout } => (buf, timeout),
        other => panic!("unexpected action {:?}", other),
    };
    assert_eq!(buf.len(), 614400);
    assert!(buf.iter().all(|byte| *byte == 0));
    let transfers = worker.transfers();
    assert_eq!(transfers.len(), 10);
    assert_eq!(
        transfers[3],
        Transfer {
            offset: 3 * 65536,
            len: 65536
        }
    );
    assert_eq!(
        transfers[9],
        Transfer {
            offset: 9 * 65536,
            len: 24576
        }
    );
    assert_eq!(timeout, Duration::from_millis(100));
    assert_eq!(worker.phase(), Phase::AwaitPayload);

    let step = worker.on_payload(buf, Ok(614400));
    assert_eq!(
        step,
        Step {
            report: None,
            next: Action::ReceiveTrailer(Some(UsbRequest::ReadBulk {
                endpoint: 0x83,
                len: 32,
                timeout: Duration::from_millis(100),
            })),
        }
    );

    let trailer = trailer_bytes(0x0000, 7, 614400, &[480]);
    let step = worker.on_trailer(Ok(32), &trailer);
    assert_eq!(step.next, Action::PollCancellation);
    assert_eq!(worker.phase(), Phase::Boundary);
    let payload = step.report.unwrap().unwrap();
    assert_eq!(payload.id, 7);
    assert_eq!(payload.payload_type, PayloadType::Image);
    assert_eq!(
        payload.image_info,
        Some(ImageInfo {
            width: 640,
            height: 480,
            x_offset: 16,
            y_offset: 32,
            pixel_format: PixelFormat { code: MONO8 },
            image_size: 614400,
        })
    );
    assert_eq!(payload.valid_payload_size, 614400);
    assert_eq!(payload.timestamp, 123456);
    assert_eq!(payload.payload.len(), 614400);
}

#[test]
fn trailer_size_exceeds_read() {
    let mut worker = StreamingLoop::new(channel(), params());
    let leader = leader_bytes(0x0001, 7, 123456, 640);
    let buf = read_up_to_payload(&mut worker, &leader);
    worker.on_payload(buf, Ok(614400));

    let trailer = trailer_bytes(0x0000, 7, 10_000_000, &[480]);
    let step = worker.on_trailer(Ok(32), &trailer);
    assert_eq!(
        invalid_payload(step.report.unwrap()),
        "the actual read payload size is smaller than the size specified in the trailer: \
         expected 10000000, but got 614400"
    );

    // The loop goes on: the block is lost, not the session.
    assert_eq!(step.next, Action::PollCancellation);
    assert_eq!(worker.phase(), Phase::Boundary);
    assert_eq!(
        worker.on_cancellation(CancellationPoll::Pending),
        Action::TryRecvBuffer
    );
}

#[test]
fn extended_chunk_walk() {
    // An image of 1000 bytes, a chunk of 100 bytes and a chunk without data,
    // each with its ID and its size behind it.
    let mut payload = record(1000, 0x0000_0001);
    payload.extend(record(100, 0x0000_000A));
    payload.extend(record(0, 0x0000_000B));
    let valid_payload_size = (1000 + 4 + 4) + (100 + 4 + 4) + (0 + 4 + 4);
    assert_eq!(payload.len(), valid_payload_size);

    assert_eq!(
        walk_chunks(&payload, valid_payload_size),
        ChunkWalk::ImageSize(1000)
    );

    let leader = leader_bytes(0x4001, 3, 55, 40);
    let trailer = trailer_bytes(0x0000, 3, valid_payload_size as u64, &[25, 0x77]);
    let built = PayloadBuilder {
        leader: Leader::parse(&leader).unwrap(),
        payload_buf: payload.clone(),
        read_payload_size: payload.len(),
        trailer: Trailer::parse(&trailer).unwrap(),
    }
    .build()
    .unwrap();
    assert_eq!(built.payload_type, PayloadType::ImageExtendedChunk);
    assert_eq!(built.valid_payload_size, valid_payload_size);
    let info = built.image_info.unwrap();
    assert_eq!(info.image_size, 1000);
    assert_eq!(info.width, 40);
    assert_eq!(info.height, 25);
    assert_eq!(built.payload, payload);
}

#[test]
fn extended_chunk_walk_over_records_alone() {
    // The walk does not care what a record holds: with 1116 valid bytes of
    // which the last two records take 116, the record in front of them has to
    // fill the first 1000 bytes, ID and size included.
    let mut payload = record(992, 0x0000_0001);
    payload.extend(record(100, 0x0000_000A));
    payload.extend(record(0, 0x0000_000B));
    assert_eq!(payload.len(), 1116);
    assert_eq!(walk_chunks(&payload, 1116), ChunkWalk::ImageSize(992));
}

#[test]
fn extended_chunk_stops_at_offset_zero_only() {
    // Two records behind a residual of 3 bytes: the walk arrives at offset 3,
    // where no size field has room.
    let mut payload = vec![0u8; 3];
    payload.extend(record(10, 1));
    payload.extend(record(20, 2));
    assert_eq!(
        walk_chunks(&payload, payload.len()),
        ChunkWalk::SizeFieldMissing
    );

    // A residual of 6 bytes that reads as a record of 2 bytes too many.
    let mut payload = vec![0, 0, 0, 0, 0, 4];
    payload.extend(record(10, 1));
    assert_eq!(walk_chunks(&payload, payload.len()), ChunkWalk::DataTooShort);

    // The same records without residual.
    let mut payload = record(10, 1);
    payload.extend(record(20, 2));
    assert_eq!(
        walk_chunks(&payload, payload.len()),
        ChunkWalk::ImageSize(10)
    );
}

#[test]
fn extended_chunk_underflow() {
    let leader = leader_bytes(0x4001, 3, 55, 40);
    let trailer = trailer_bytes(0x0000, 3, 3, &[25, 0x77]);
    let result = PayloadBuilder {
        leader: Leader::parse(&leader).unwrap(),
        payload_buf: vec![0; 64],
        read_payload_size: 64,
        trailer: Trailer::parse(&trailer).unwrap(),
    }
    .build();
    assert_eq!(
        invalid_payload(result),
        "failed to parse chunk data: size field missing"
    );
    assert_eq!(walk_chunks(&[0u8; 64], 3), ChunkWalk::SizeFieldMissing);
    assert_eq!(walk_chunks(&[0u8; 64], 0), ChunkWalk::SizeFieldMissing);
}

#[test]
fn extended_chunk_data_larger_than_payload() {
    let mut payload = vec![0u8; 16];
    payload[12..16].copy_from_slice(&100u32.to_be_bytes());
    let leader = leader_bytes(0x4001, 3, 55, 40);
    let trailer = trailer_bytes(0x0000, 3, 16, &[25, 0x77]);
    let result = PayloadBuilder {
        leader: Leader::parse(&leader).unwrap(),
        payload_buf: payload,
        read_payload_size: 16,
        trailer: Trailer::parse(&trailer).unwrap(),
    }
    .build();
    assert_eq!(
        invalid_payload(result),
        "failed to parse chunk data: chunk data size is smaller than specified size"
    );

    // The largest size that four bytes can state.
    let mut payload = vec![0u8; 8];
    payload[4..8].copy_from_slice(&u32::MAX.to_be_bytes());
    assert_eq!(walk_chunks(&payload, 8), ChunkWalk::DataTooShort);
}

#[test]
fn cancellation_during_idle() {
    let mut worker = StreamingLoop::new(channel(), params());
    worker.on_cancellation(CancellationPoll::Pending);
    worker.on_recycled(None);

    // The read of the leader times out: nothing is reported, and the
    // cancellation signal is looked at before anything else is read.
    let step = worker.on_leader(Err(TransportError::LibUsb(LibUsbError::Timeout)), &[0u8; 52]);
    assert_eq!(
        step,
        Step {
            report: None,
            next: Action::PollCancellation
        }
    );
    assert_eq!(worker.phase(), Phase::Boundary);

    assert_eq!(
        worker.on_cancellation(CancellationPoll::Signalled),
        Action::Complete
    );
    assert_eq!(worker.phase(), Phase::Finished);
}

#[test]
fn dropped_sender_ends_the_loop() {
    let mut worker = StreamingLoop::new(channel(), params());
    assert_eq!(
        worker.on_cancellation(CancellationPoll::SenderDropped),
        Action::Complete
    );
    assert_eq!(worker.phase(), Phase::Finished);
}

/// Runs one block that succeeds and hands its payload out.
fn run_block(worker: &mut StreamingLoop, recycled: Option<Payload>, block_id: u64) -> Payload {
    assert_eq!(
        worker.on_cancellation(CancellationPoll::Pending),
        Action::TryRecvBuffer
    );
    worker.on_recycled(recycled);
    let leader = leader_bytes(0x0001, block_id, 1, 640);
    let step = worker.on_leader(Ok(52), &leader);
    let buf = match step.next {
        Action::ReadPayload { buf, .. } => buf,
        other => panic!("unexpected action {:?}", other),
    };
    worker.on_payload(buf, Ok(614400));
    let trailer = trailer_bytes(0x0000, block_id, 614400, &[480]);
    worker.on_trailer(Ok(32), &trailer).report.unwrap().unwrap()
}

#[test]
fn buffer_recycling() {
    let mut preloaded = run_block(&mut StreamingLoop::new(channel(), params()), None, 0);
    preloaded.payload[0] = 0x5A;
    let allocation = preloaded.payload.as_ptr();
    assert_eq!(preloaded.payload.len(), 614400);

    // Three blocks, each read into the buffer that the consumer hands back:
    // the one allocation serves all of them.
    let mut worker = StreamingLoop::new(channel(), params());
    let first = run_block(&mut worker, Some(preloaded), 1);
    assert_eq!(first.payload.as_ptr(), allocation);
    assert_eq!(first.payload[0], 0x5A);
    let second = run_block(&mut worker, Some(first), 2);
    assert_eq!(second.payload.as_ptr(), allocation);
    let third = run_block(&mut worker, Some(second), 3);
    assert_eq!(third.payload.as_ptr(), allocation);
    assert_eq!(third.id, 3);
    assert_eq!(third.payload.len(), 614400);
}

#[test]
fn recycled_buffer_is_cut_or_filled() {
    let recycled = |len: usize| Payload {
        id: 0,
        payload_type: PayloadType::Chunk,
        image_info: None,
        payload: vec![7; len],
        valid_payload_size: 0,
        timestamp: 0,
    };

    let mut worker = StreamingLoop::new(channel(), params());
    worker.on_cancellation(CancellationPoll::Pending);
    worker.on_recycled(Some(recycled(10)));
    let leader = leader_bytes(0x0001, 1, 1, 640);
    let buf = match worker.on_leader(Ok(52), &leader).next {
        Action::ReadPayload { buf, .. } => buf,
        other => panic!("unexpected action {:?}", other),
    };
    assert_eq!(buf.len(), 614400);
    assert!(buf[..10].iter().all(|byte| *byte == 7));
    assert!(buf[10..].iter().all(|byte| *byte == 0));

    let mut worker = StreamingLoop::new(channel(), params());
    worker.on_cancellation(CancellationPoll::Pending);
    worker.on_recycled(Some(recycled(700000)));
    let buf = match worker.on_leader(Ok(52), &leader).next {
        Action::ReadPayload { buf, .. } => buf,
        other => panic!("unexpected action {:?}", other),
    };
    assert_eq!(buf.len(), 614400);
    assert!(buf.iter().all(|byte| *byte == 7));
}

#[test]
fn failed_reads_keep_the_payload_buffer() {
    let mut worker = StreamingLoop::new(channel(), params());
    let leader = leader_bytes(0x0001, 1, 1, 640);

    // The leader cannot be read: the device is gone, which is reported.
    worker.on_cancellation(CancellationPoll::Pending);
    worker.on_recycled(None);
    let step = worker.on_leader(Err(TransportError::LibUsb(LibUsbError::NoDevice)), &leader);
    assert_eq!(step.report, Some(Err(StreamError::Disconnected)));
    assert_eq!(step.next, Action::PollCancellation);

    // The buffer was kept: the next iteration asks the consumer for none.
    let action = worker.on_cancellation(CancellationPoll::Pending);
    assert!(matches!(action, Action::ReceiveLeader(Some(_))));

    // The payload cannot be read, which is reported whatever the error is.
    let step = worker.on_leader(Ok(52), &leader);
    let mut buf = match step.next {
        Action::ReadPayload { buf, .. } => buf,
        other => panic!("unexpected action {:?}", other),
    };
    buf[0] = 0xEE;
    let allocation = buf.as_ptr();
    let step = worker.on_payload(buf, Err(StreamError::Timeout));
    assert_eq!(
        step,
        Step {
            report: Some(Err(StreamError::Timeout)),
            next: Action::PollCancellation
        }
    );

    // The trailer cannot be read.
    assert!(matches!(
        worker.on_cancellation(CancellationPoll::Pending),
        Action::ReceiveLeader(_)
    ));
    let buf = match worker.on_leader(Ok(52), &leader).next {
        Action::ReadPayload { buf, .. } => buf,
        other => panic!("unexpected action {:?}", other),
    };
    assert_eq!(buf.as_ptr(), allocation);
    assert_eq!(buf[0], 0xEE);
    worker.on_payload(buf, Ok(100));
    let step = worker.on_trailer(Err(TransportError::LibUsb(LibUsbError::Pipe)), &[]);
    assert_eq!(
        step.report,
        Some(Err(StreamError::Io(StreamIoCause::Transport(
            TransportError::LibUsb(LibUsbError::Pipe)
        ))))
    );

    // The trailer is read and is none.
    assert!(matches!(
        worker.on_cancellation(CancellationPoll::Pending),
        Action::ReceiveLeader(_)
    ));
    let buf = match worker.on_leader(Ok(52), &leader).next {
        Action::ReadPayload { buf, .. } => buf,
        other => panic!("unexpected action {:?}", other),
    };
    assert_eq!(buf.as_ptr(), allocation);
    worker.on_payload(buf, Ok(100));
    let step = worker.on_trailer(Ok(32), &[0u8; 32]);
    assert_eq!(
        invalid_payload(step.report.unwrap()),
        "invalid trailer: packet is invalid: invalid prefix magic"
    );
    assert!(matches!(
        worker.on_cancellation(CancellationPoll::Pending),
        Action::ReceiveLeader(_)
    ));
}

#[test]
fn rejected_block_gives_its_buffer_up() {
    let mut worker = StreamingLoop::new(channel(), params());
    let leader = leader_bytes(0x0001, 1, 1, 640);
    let buf = read_up_to_payload(&mut worker, &leader);
    worker.on_payload(buf, Ok(614400));
    let trailer = trailer_bytes(0xA100, 1, 614400, &[480]);
    let step = worker.on_trailer(Ok(32), &trailer);
    assert_eq!(
        invalid_payload(step.report.unwrap()),
        "trailer status indicates error: DataDiscarded"
    );
    // No buffer is left: the consumer is asked for one.
    assert_eq!(
        worker.on_cancellation(CancellationPoll::Pending),
        Action::TryRecvBuffer
    );
}

#[test]
fn leader_that_is_none_is_not_reported() {
    let mut worker = StreamingLoop::new(channel(), params());
    worker.on_cancellation(CancellationPoll::Pending);
    worker.on_recycled(None);
    let step = worker.on_leader(Ok(52), &[0u8; 52]);
    assert_eq!(
        step,
        Step {
            report: None,
            next: Action::PollCancellation
        }
    );
    let step = worker.on_cancellation(CancellationPoll::Pending);
    assert!(matches!(step, Action::ReceiveLeader(_)));
    let step = worker.on_leader(Err(TransportError::LibUsb(LibUsbError::Io)), &[0u8; 52]);
    assert_eq!(
        step.report,
        Some(Err(StreamError::Io(StreamIoCause::Transport(
            TransportError::LibUsb(LibUsbError::Io)
        ))))
    );
}

#[test]
fn loop_without_leader_or_trailer_asks_for_no_transfer() {
    let params = StreamParams::new(0, 0, 8, 1, 0, 0, Duration::from_millis(1));
    let mut worker = StreamingLoop::new(channel(), params);
    worker.on_cancellation(CancellationPoll::Pending);
    assert_eq!(worker.on_recycled(None), Action::ReceiveLeader(None));
    let leader = leader_bytes(0x4000, 1, 9, 0);
    let step = worker.on_leader(Ok(0), &leader);
    let buf = match step.next {
        Action::ReadPayload { buf, .. } => buf,
        other => panic!("unexpected action {:?}", other),
    };
    assert_eq!(buf.len(), 8);
    let step = worker.on_payload(buf, Ok(8));
    assert_eq!(step.next, Action::ReceiveTrailer(None));
    let trailer = trailer_bytes(0, 1, 8, &[0]);
    let payload = worker.on_trailer(Ok(0), &trailer).report.unwrap().unwrap();
    assert_eq!(payload.payload_type, PayloadType::Chunk);
    assert_eq!(payload.image_info, None);
    assert_eq!(payload.timestamp, 9);
    assert_eq!(payload.valid_payload_size, 8);
}

#[test]
fn read_plans() {
    let inner = channel();
    let params = params();
    let request = |len| UsbRequest::ReadBulk {
        endpoint: 0x83,
        len,
        timeout: Duration::from_millis(100),
    };

    assert_eq!(recv(&inner, &params, 0, 0), Ok(None));
    assert_eq!(recv(&inner, &params, 100, 0), Ok(None));
    assert_eq!(recv(&inner, &params, 9, 10), Err(StreamError::BufferTooSmall));
    assert_eq!(recv(&inner, &params, 10, 10), Ok(Some(request(10))));
    assert_eq!(recv(&inner, &params, 11, 10), Ok(Some(request(10))));

    assert_eq!(read_leader(&inner, &params, 52), Ok(Some(request(52))));
    assert_eq!(
        read_leader(&inner, &params, 51),
        Err(StreamError::BufferTooSmall)
    );
    assert_eq!(read_trailer(&inner, &params, 64), Ok(Some(request(32))));
    assert_eq!(
        read_trailer(&inner, &params, 31),
        Err(StreamError::BufferTooSmall)
    );

    assert_eq!(received(Ok(17)), Ok(17));
    assert_eq!(
        received(Err(TransportError::LibUsb(LibUsbError::Busy))),
        Err(StreamError::Io(StreamIoCause::Transport(
            TransportError::LibUsb(LibUsbError::Busy)
        )))
    );
}

#[test]
fn payload_transfers_fill_the_buffer() {
    let params = StreamParams::new(0, 0, 100, 3, 20, 7, Duration::ZERO);
    assert_eq!(
        read_payload(&params, 327),
        Ok(vec![
            Transfer { offset: 0, len: 100 },
            Transfer { offset: 100, len: 100 },
            Transfer { offset: 200, len: 100 },
            Transfer { offset: 300, len: 20 },
            Transfer { offset: 320, len: 7 },
        ])
    );
    assert_eq!(read_payload(&params, 326), Err(StreamError::BufferTooSmall));

    // A final size of 0 asks for no transfer.
    let params = StreamParams::new(0, 0, 100, 2, 0, 7, Duration::ZERO);
    assert_eq!(
        read_payload(&params, 1000),
        Ok(vec![
            Transfer { offset: 0, len: 100 },
            Transfer { offset: 100, len: 100 },
            Transfer { offset: 200, len: 7 },
        ])
    );
    let params = StreamParams::new(0, 0, 100, 0, 0, 0, Duration::ZERO);
    assert_eq!(read_payload(&params, 0), Ok(vec![]));

    // No buffer holds what does not fit the address space.
    let params = StreamParams::new(0, 0, usize::MAX, 2, 0, 0, Duration::ZERO);
    assert_eq!(
        read_payload(&params, usize::MAX),
        Err(StreamError::BufferTooSmall)
    );
}

#[test]
fn payload_read_adds_up_what_arrives() {
    let params = StreamParams::new(0, 0, 100, 3, 20, 0, Duration::ZERO);
    let transfers = read_payload(&params, 320).unwrap();
    let mut read = PayloadRead::new(&transfers);
    assert!(read.is_empty());
    assert_eq!(read.in_flight(), None);
    assert_eq!(read.read_len(), 0);

    // All transfers are submitted, in the order of the plan.
    let mut submitted = Vec::new();
    while let Some(transfer) = read.next_transfer() {
        submitted.push(transfer);
        assert_eq!(read.submit(Ok(())), Ok(()));
    }
    assert_eq!(submitted, transfers);
    assert!(!read.is_empty());

    // They complete in that order; a transfer may bring fewer bytes than it
    // asked for.
    assert_eq!(read.in_flight(), Some(Transfer { offset: 0, len: 100 }));
    assert_eq!(read.poll(Ok(100)), Ok(()));
    assert_eq!(read.in_flight(), Some(Transfer { offset: 100, len: 100 }));
    assert_eq!(read.poll(Ok(60)), Ok(()));
    assert_eq!(read.poll(Ok(0)), Ok(()));
    assert_eq!(read.in_flight(), Some(Transfer { offset: 300, len: 20 }));
    assert!(!read.is_empty());
    assert_eq!(read.poll(Ok(20)), Ok(()));
    assert!(read.is_empty());
    assert_eq!(read.in_flight(), None);
    assert_eq!(read.read_len(), 180);
}

#[test]
fn payload_read_fails_with_its_first_failure() {
    let params = StreamParams::new(0, 0, 100, 2, 0, 0, Duration::ZERO);
    let transfers = read_payload(&params, 200).unwrap();

    let mut read = PayloadRead::new(&transfers);
    assert_eq!(read.submit(Ok(())), Ok(()));
    assert_eq!(
        read.submit(Err(TransportError::LibUsb(LibUsbError::NoMem))),
        Err(StreamError::Io(StreamIoCause::Transport(
            TransportError::LibUsb(LibUsbError::NoMem)
        )))
    );
    // The transfer that failed is not in flight.
    assert_eq!(read.next_transfer(), Some(Transfer { offset: 100, len: 100 }));
    assert_eq!(read.in_flight(), Some(Transfer { offset: 0, len: 100 }));

    let mut read = PayloadRead::new(&transfers);
    read.submit(Ok(())).unwrap();
    read.submit(Ok(())).unwrap();
    assert_eq!(read.next_transfer(), None);
    assert_eq!(read.poll(Ok(100)), Ok(()));
    assert_eq!(
        read.poll(Err(TransportError::LibUsb(LibUsbError::Timeout))),
        Err(StreamError::Timeout)
    );
    assert_eq!(read.read_len(), 100);
    assert!(!read.is_empty());

    // A read without transfers is over at once.
    let read = PayloadRead::new(&[]);
    assert!(read.is_empty());
    assert_eq!(read.next_transfer(), None);
    assert_eq!(read.read_len(), 0);
}

#[test]
fn leader_and_trailer_outcomes() {
    let leader = leader_bytes(0x0001, 7, 123456, 640);
    let parsed = leader_received(Ok(52), &leader).unwrap();
    assert_eq!(parsed.block_id(), 7);
    assert_eq!(parsed.payload_type(), PayloadType::Image);
    assert_eq!(parsed.leader_size(), 52);

    assert_eq!(
        leader_received(Err(TransportError::LibUsb(LibUsbError::NotFound)), &leader).err(),
        Some(StreamError::Disconnected)
    );
    assert_eq!(
        leader_received(Ok(52), &leader[..10]).err(),
        Some(StreamError::InvalidPayload(
            "packet is broken: failed to fill whole buffer".into()
        ))
    );
    let mut unknown = leader.clone();
    unknown[18] = 0x02;
    assert_eq!(
        leader_received(Ok(52), &unknown).err(),
        Some(StreamError::InvalidPayload(
            "packet is invalid: invalid value for leader payload type".into()
        ))
    );

    let trailer = trailer_bytes(0xA101, 7, 99, &[480]);
    let parsed = trailer_received(Ok(32), &trailer).unwrap();
    assert_eq!(parsed.payload_status(), PayloadStatus::DataOverrun);
    assert_eq!(parsed.valid_payload_size(), 99);
    assert_eq!(parsed.block_id(), 7);
    assert_eq!(parsed.trailer_size(), 32);
    assert_eq!(
        trailer_received(Err(TransportError::InvalidDevice), &trailer).err(),
        Some(StreamError::InvalidDevice("invalid device"))
    );
    let mut unknown = trailer.clone();
    unknown[16] = 0x55;
    assert_eq!(
        trailer_received(Ok(32), &unknown).err(),
        Some(StreamError::InvalidPayload(
            "invalid trailer: packet is invalid: invalid value for trailer payload status".into()
        ))
    );
    assert_eq!(
        trailer_received(Ok(32), &trailer[..27]).err(),
        Some(StreamError::InvalidPayload(
            "invalid trailer: packet is broken: failed to fill whole buffer".into()
        ))
    );
}

#[test]
fn byte_order_of_fields() {
    let bytes = [0x01, 0x02, 0x03, 0x04, 0x05, 0x06, 0x07, 0x08, 0x09];
    assert_eq!(read_u16_le(&bytes, 1), 0x0302);
    assert_eq!(read_u32_le(&bytes, 1), 0x0504_0302);
    assert_eq!(read_u64_le(&bytes, 1), 0x0908_0706_0504_0302);
    assert_eq!(read_u32_be(&bytes, 1), 0x0203_0405);
    assert_eq!(read_u32_le(&[0xFF; 4], 0), u32::MAX);
    assert_eq!(read_u64_le(&[0xFF; 8], 0), u64::MAX);
    assert_eq!(read_u32_be(&[0xFF; 4], 0), u32::MAX);
}

#[test]
fn specific_parts_of_leader_and_trailer() {
    let leader = leader_bytes(0x4001, 1, 77, 320);
    let parsed = Leader::parse(&leader).unwrap();
    let image = parsed.image_leader().unwrap();
    assert_eq!(image.timestamp, 77);
    assert_eq!(image.pixel_format, PixelFormat { code: MONO8 });
    assert_eq!(image.width, 320);
    assert_eq!(image.height, 960);
    assert_eq!(image.x_offset, 16);
    assert_eq!(image.y_offset, 32);
    assert_eq!(image.x_padding, 0);
    assert_eq!(parsed.chunk_leader().unwrap().timestamp, 77);

    let chunk = leader_bytes(0x4000, 1, 5, 0);
    let parsed = Leader::parse(&chunk).unwrap();
    assert_eq!(parsed.payload_type(), PayloadType::Chunk);
    assert_eq!(parsed.chunk_leader().unwrap().timestamp, 5);
    assert_eq!(
        parsed.image_leader(),
        Err(TransportError::BufferIo("failed to fill whole buffer"))
    );

    let trailer = trailer_bytes(0, 1, 10, &[480, 9]);
    let parsed = Trailer::parse(&trailer).unwrap();
    assert_eq!(parsed.image_trailer().unwrap().actual_height, 480);
    let extended = parsed.image_extended_chunk_trailer().unwrap();
    assert_eq!(extended.actual_height, 480);
    assert_eq!(extended.chunk_layout_id, 9);
    assert_eq!(parsed.chunk_trailer().unwrap().chunk_layout_id, 480);

    let short = trailer_bytes(0, 1, 10, &[480]);
    let parsed = Trailer::parse(&short).unwrap();
    assert_eq!(
        parsed.image_extended_chunk_trailer(),
        Err(TransportError::BufferIo("failed to fill whole buffer"))
    );
    let none = trailer_bytes(0, 1, 10, &[]);
    let parsed = Trailer::parse(&none).unwrap();
    assert!(parsed.image_trailer().is_err());
    assert!(parsed.chunk_trailer().is_err());
}

#[test]
fn defects_of_leader_and_trailer() {
    assert_eq!(
        Leader::parse(&[0x55, 0x33]).err(),
        Some(TransportError::BufferIo("failed to fill whole buffer"))
    );
    assert_eq!(
        Leader::parse(&[0x55, 0x33, 0x56, 0x4D]).err(),
        Some(TransportError::InvalidPacket("invalid prefix magic"))
    );
    // The magic number of a trailer does not open a leader, nor the other
    // way round.
    let trailer = trailer_bytes(0, 1, 10, &[480]);
    assert_eq!(
        Leader::parse(&trailer).err(),
        Some(TransportError::InvalidPacket("invalid prefix magic"))
    );
    let leader = leader_bytes(0x0001, 1, 1, 1);
    assert_eq!(
        Trailer::parse(&leader).err(),
        Some(TransportError::InvalidPacket("invalid prefix magic"))
    );
    assert_eq!(
        Leader::parse(&leader[..19]).err(),
        Some(TransportError::BufferIo("failed to fill whole buffer"))
    );
    assert!(Leader::parse(&leader[..20]).is_ok());
    assert_eq!(
        Trailer::parse(&trailer[..17]).err(),
        Some(TransportError::BufferIo("failed to fill whole buffer"))
    );
    assert!(Trailer::parse(&trailer[..28]).is_ok());

    assert_eq!(PayloadType::from_code(0x0001), Some(PayloadType::Image));
    assert_eq!(
        PayloadType::from_code(0x4001),
        Some(PayloadType::ImageExtendedChunk)
    );
    assert_eq!(PayloadType::from_code(0x4000), Some(PayloadType::Chunk));
    assert_eq!(PayloadType::from_code(0x0000), None);
    assert_eq!(PayloadStatus::from_code(0x0000), Some(PayloadStatus::Success));
    assert_eq!(
        PayloadStatus::from_code(0xA100),
        Some(PayloadStatus::DataDiscarded)
    );
    assert_eq!(
        PayloadStatus::from_code(0xA101),
        Some(PayloadStatus::DataOverrun)
    );
    assert_eq!(PayloadStatus::from_code(0xA102), None);
    assert_eq!(PayloadStatus::DataOverrun.name(), "DataOverrun");
}

#[test]
fn image_size_is_valid_payload_size() {
    for valid_payload_size in [0u64, 1, 4096, 614400] {
        let leader = leader_bytes(0x0001, 1, 1, 640);
        let trailer = trailer_bytes(0, 1, valid_payload_size, &[480]);
        let payload = PayloadBuilder {
            leader: Leader::parse(&leader).unwrap(),
            payload_buf: vec![0; 614400],
            read_payload_size: 614400,
            trailer: Trailer::parse(&trailer).unwrap(),
        }
        .build()
        .unwrap();
        assert_eq!(
            payload.image_info.unwrap().image_size as u64,
            valid_payload_size
        );
        assert_eq!(payload.valid_payload_size as u64, valid_payload_size);
    }
}

#[test]
fn builders_of_one_type_do_not_look_at_status_or_read_size() {
    let builder = |leader: &'static [u8], trailer: &'static [u8], payload_buf: Vec<u8>| {
        PayloadBuilder {
            leader: Leader::parse(leader).unwrap(),
            payload_buf,
            read_payload_size: 0,
            trailer: Trailer::parse(trailer).unwrap(),
        }
    };
    let image = Box::leak(leader_bytes(0x0001, 7, 123456, 640).into_boxed_slice());
    let chunk = Box::leak(leader_bytes(0x4000, 8, 99, 0).into_boxed_slice());
    let discarded = Box::leak(trailer_bytes(0xA100, 7, 614400, &[480, 5]).into_boxed_slice());

    // More bytes are declared valid than were read, and the status is no
    // success: that is for `build` to reject.
    let payload = builder(image, discarded, vec![0; 16])
        .build_image_payload()
        .unwrap();
    assert_eq!(payload.id, 7);
    assert_eq!(payload.payload_type, PayloadType::Image);
    assert_eq!(payload.valid_payload_size, 614400);
    assert_eq!(payload.timestamp, 123456);
    let info = payload.image_info.unwrap();
    assert_eq!(info.image_size, 614400);
    assert_eq!(info.width, 640);
    assert_eq!(info.height, 480);
    assert_eq!(
        invalid_payload(builder(image, discarded, vec![0; 16]).build()),
        "trailer status indicates error: DataDiscarded"
    );

    let payload = builder(chunk, discarded, vec![0; 16])
        .build_chunk_payload()
        .unwrap();
    assert_eq!(payload.payload_type, PayloadType::Chunk);
    assert_eq!(payload.image_info, None);
    assert_eq!(payload.valid_payload_size, 614400);
    assert_eq!(payload.timestamp, 99);

    // The walk needs the valid bytes in the buffer, no more.
    let three = Box::leak(trailer_bytes(0, 7, 3, &[480, 5]).into_boxed_slice());
    assert_eq!(
        invalid_payload(builder(image, three, vec![0; 3]).build_image_extended_payload()),
        "failed to parse chunk data: size field missing"
    );
    let records = record(10, 1);
    let eighteen = Box::leak(trailer_bytes(0, 7, 18, &[480, 5]).into_boxed_slice());
    let payload = builder(image, eighteen, records)
        .build_image_extended_payload()
        .unwrap();
    assert_eq!(payload.image_info.unwrap().image_size, 10);
    assert_eq!(payload.valid_payload_size, 18);
}

#[test]
fn blocks_that_are_too_short_for_their_type() {
    let build = |leader: &[u8], trailer: &[u8]| {
        PayloadBuilder {
            leader: Leader::parse(leader).unwrap(),
            payload_buf: vec![0; 16],
            read_payload_size: 16,
            trailer: Trailer::parse(trailer).unwrap(),
        }
        .build()
    };
    let short = "packet is broken: failed to fill whole buffer";

    let image = leader_bytes(0x0001, 1, 1, 640);
    let chunk = leader_bytes(0x4000, 1, 1, 640);
    let mut chunk_as_image = chunk.clone();
    chunk_as_image[18..20].copy_from_slice(&0x0001u16.to_le_bytes());

    // A leader that declares an image and holds a time stamp alone.
    assert_eq!(
        invalid_payload(build(&chunk_as_image, &trailer_bytes(0, 1, 0, &[4]))),
        short
    );
    // Trailers without the part that their type has.
    assert_eq!(
        invalid_payload(build(&image, &trailer_bytes(0, 1, 0, &[]))),
        short
    );
    assert_eq!(
        invalid_payload(build(&chunk, &trailer_bytes(0, 1, 0, &[]))),
        short
    );
    let extended = leader_bytes(0x4001, 1, 1, 640);
    assert_eq!(
        invalid_payload(build(&extended, &trailer_bytes(0, 1, 0, &[4]))),
        short
    );
    assert_eq!(
        invalid_payload(build(&image, &trailer_bytes(0xA101, 1, 0, &[4]))),
        "trailer status indicates error: DataOverrun"
    );
    assert_eq!(
        invalid_payload(build(&image, &trailer_bytes(0, 1, 17, &[4]))),
        "the actual read payload size is smaller than the size specified in the trailer: \
         expected 17, but got 16"
    );
    assert!(build(&image, &trailer_bytes(0, 1, 16, &[4])).is_ok());
}
