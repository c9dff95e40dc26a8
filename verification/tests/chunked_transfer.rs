//! The chunked transfer loop: complete transfers, ranged transfers, and
//! cooperative cancellation at chunk boundaries.

use thumbserve::framing::{BlockSize, FramingHeader};
use thumbserve::protocol::{resolve_range, ByteRange};
use thumbserve::transfer::{run_transfer, Transfer, TransferStep};

fn sample_data(len: usize) -> Vec<u8> {
    (0..len).map(|i| (i % 251) as u8).collect()
}

#[test]
fn end_to_end_ranged_transfer() {
    // A 10 MB source and a request for its first 1 MB.
    let data = sample_data(10 * 1_048_576);
    let range = ByteRange { start: 0, length: Some(1_048_576) };
    let total = resolve_range(&range, data.len() as u64).unwrap();
    assert_eq!(total, 1_048_576);
    // The responder frames the transfer before the first payload byte.
    let block_size = BlockSize::from_file_size(data.len() as u64);
    let header = FramingHeader { block_size, total_length: total };
    let parsed = FramingHeader::decode(&header.encode()).unwrap();
    assert_eq!(parsed.total_length, 1_048_576);
    // The initiator's sink ends up with exactly the source's first 1 MB.
    let (sink, completed) = run_transfer(
        &data,
        range.start as usize,
        total as usize,
        parsed.block_size.size as usize,
        None,
    );
    assert!(completed);
    assert_eq!(sink.len(), 1_048_576);
    assert_eq!(&sink[..], &data[..1_048_576]);
}

#[test]
fn transfer_of_range_in_the_middle() {
    let data = sample_data(100_000);
    let range = ByteRange { start: 30_000, length: Some(40_000) };
    let total = resolve_range(&range, data.len() as u64).unwrap();
    let (sink, completed) = run_transfer(&data, 30_000, total as usize, 16_384, None);
    assert!(completed);
    assert_eq!(&sink[..], &data[30_000..70_000]);
}

#[test]
fn cancellation_stops_at_chunk_boundary() {
    let data = sample_data(200_000);
    // Flag set after the first chunk: the sink holds exactly that chunk,
    // strictly fewer bytes than the payload, and nothing more is moved.
    let (sink, completed) = run_transfer(&data, 0, 200_000, 16_384, Some(1));
    assert!(!completed);
    assert_eq!(sink.len(), 16_384);
    assert!(sink.len() < 200_000);
    assert_eq!(&sink[..], &data[..16_384]);
}

#[test]
fn cancellation_after_all_chunks_is_completion() {
    let data = sample_data(40_000);
    // 40 000 bytes in 16 384-byte blocks is three chunks.
    let (sink, completed) = run_transfer(&data, 0, 40_000, 16_384, Some(3));
    assert!(completed);
    assert_eq!(sink.len(), 40_000);
}

#[test]
fn empty_payload_completes_immediately() {
    let data = sample_data(10);
    let (sink, completed) = run_transfer(&data, 0, 0, 16_384, None);
    assert!(completed);
    assert!(sink.is_empty());
}

#[test]
fn progress_of_empty_payload_is_complete() {
    let block = BlockSize { size: 16_384 };
    let transfer = Transfer::new(&block, 0);
    assert_eq!(transfer.progress_percent(), 100);
}

#[test]
fn step_machine_walks_chunks_in_order() {
    let block = BlockSize { size: 16_384 };
    let mut transfer = Transfer::new(&block, 40_000);
    assert_eq!(transfer.progress_percent(), 0);
    match transfer.step(false) {
        TransferStep::Send { offset, len } => {
            assert_eq!((offset, len), (0, 16_384));
        }
        other => panic!("expected a chunk, got {other:?}"),
    }
    match transfer.step(false) {
        TransferStep::Send { offset, len } => {
            assert_eq!((offset, len), (16_384, 16_384));
        }
        other => panic!("expected a chunk, got {other:?}"),
    }
    assert_eq!(transfer.progress_percent(), (32_768u64 * 100 / 40_000) as u8);
    match transfer.step(false) {
        TransferStep::Send { offset, len } => {
            assert_eq!((offset, len), (32_768, 7_232));
        }
        other => panic!("expected a chunk, got {other:?}"),
    }
    assert_eq!(transfer.progress_percent(), 100);
    assert!(matches!(transfer.step(false), TransferStep::Finished));
}

#[test]
fn step_machine_honors_cancellation_between_chunks() {
    let block = BlockSize { size: 16_384 };
    let mut transfer = Transfer::new(&block, 40_000);
    assert!(matches!(transfer.step(false), TransferStep::Send { .. }));
    // The flag is observed at the next boundary: no further chunk.
    assert!(matches!(transfer.step(true), TransferStep::Cancelled));
    // A finished transfer reports completion even if the flag is set.
    assert!(matches!(transfer.step(false), TransferStep::Send { .. }));
    assert!(matches!(transfer.step(false), TransferStep::Send { .. }));
    assert!(matches!(transfer.step(true), TransferStep::Finished));
}
