//! Wire framing and the request envelope.

use thumbserve::error::TransferError;
use thumbserve::framing::{BlockSize, FramingHeader};
use thumbserve::protocol::{decode_request, encode_request, resolve_range, ByteRange,
    LibraryFileRequest};

#[test]
fn block_size_tracks_file_size() {
    assert_eq!(BlockSize::from_file_size(0).size, 16384);
    assert_eq!(BlockSize::from_file_size(65535).size, 16384);
    assert_eq!(BlockSize::from_file_size(65536).size, 65536);
    assert_eq!(BlockSize::from_file_size(1048575).size, 65536);
    assert_eq!(BlockSize::from_file_size(1048576).size, 131072);
    assert_eq!(BlockSize::from_file_size(268435455).size, 131072);
    assert_eq!(BlockSize::from_file_size(268435456).size, 262144);
    assert_eq!(BlockSize::from_file_size(u64::MAX).size, 262144);
}

#[test]
fn block_size_round_trip() {
    for size in [16384u64, 65536, 131072, 262144] {
        let b = BlockSize::from_file_size(size * 4);
        let bytes = b.to_bytes();
        assert_eq!(bytes.len(), 4);
        let parsed = BlockSize::from_bytes(&bytes).unwrap();
        assert_eq!(parsed.size, b.size);
    }
}

#[test]
fn block_size_rejects_bad_input() {
    assert_eq!(
        BlockSize::from_bytes(&[1, 2, 3]),
        Err(TransferError::MalformedHeader)
    );
    // 12345 is not in the protocol's set of block sizes.
    assert_eq!(
        BlockSize::from_bytes(&12345u32.to_le_bytes()),
        Err(TransferError::InvalidBlockSize)
    );
}

#[test]
fn header_round_trip() {
    let header = FramingHeader {
        block_size: BlockSize::from_file_size(10 * 1024 * 1024),
        total_length: 1_048_576,
    };
    let bytes = header.encode();
    assert_eq!(bytes.len(), 12);
    let parsed = FramingHeader::decode(&bytes).unwrap();
    assert_eq!(parsed.block_size.size, header.block_size.size);
    assert_eq!(parsed.total_length, header.total_length);
}

#[test]
fn header_rejects_bad_input() {
    assert_eq!(
        FramingHeader::decode(&[0u8; 11]),
        Err(TransferError::MalformedHeader)
    );
    let mut bytes = vec![9u8, 9, 9, 9];
    bytes.extend_from_slice(&42u64.to_le_bytes());
    assert_eq!(
        FramingHeader::decode(&bytes),
        Err(TransferError::InvalidBlockSize)
    );
}

#[test]
fn request_envelope_round_trip_file() {
    let req = LibraryFileRequest::File { file_path_id: 0x0011_2233_4455_6677_8899_aabb_ccdd_eeff };
    let range = ByteRange { start: 4096, length: Some(1024) };
    let bytes = encode_request(&req, &range);
    let (req2, range2) = decode_request(&bytes).unwrap();
    assert_eq!(req2, req);
    assert_eq!(range2, range);
}

#[test]
fn request_envelope_round_trip_thumbnail() {
    let req = LibraryFileRequest::Thumbnail { cas_id: "deadbeef0123".to_string() };
    let range = ByteRange { start: 0, length: None };
    let bytes = encode_request(&req, &range);
    let (req2, range2) = decode_request(&bytes).unwrap();
    assert_eq!(req2, req);
    assert_eq!(range2, range);
}

#[test]
fn request_envelope_exact_layout() {
    let req = LibraryFileRequest::Thumbnail { cas_id: "abc".to_string() };
    let range = ByteRange { start: 5, length: None };
    let bytes = encode_request(&req, &range);
    let mut expected = vec![1u8];
    expected.extend_from_slice(&3u64.to_le_bytes());
    expected.extend_from_slice(b"abc");
    expected.extend_from_slice(&5u64.to_le_bytes());
    expected.push(0);
    expected.extend_from_slice(&0u64.to_le_bytes());
    assert_eq!(bytes, expected);
}

#[test]
fn request_envelope_rejects_bad_input() {
    assert_eq!(decode_request(&[]), Err(TransferError::MalformedRequest));
    // Unknown tag.
    assert_eq!(decode_request(&[7u8; 34]), Err(TransferError::MalformedRequest));
    // Truncated file request.
    assert_eq!(decode_request(&[0u8; 20]), Err(TransferError::MalformedRequest));
    // Thumbnail whose length prefix disagrees with the payload.
    let req = LibraryFileRequest::Thumbnail { cas_id: "abcdef".to_string() };
    let range = ByteRange { start: 0, length: None };
    let mut bytes = encode_request(&req, &range);
    bytes.push(0);
    assert_eq!(decode_request(&bytes), Err(TransferError::MalformedRequest));
}

#[test]
fn range_resolution() {
    // A closed range inside the resource keeps its length.
    let range = ByteRange { start: 0, length: Some(1_048_576) };
    assert_eq!(resolve_range(&range, 10 * 1_048_576), Ok(1_048_576));
    // An open-ended range takes everything past the start.
    let range = ByteRange { start: 100, length: None };
    assert_eq!(resolve_range(&range, 1000), Ok(900));
    // An overlong range is clamped to what the resource has.
    let range = ByteRange { start: 600, length: Some(1000) };
    assert_eq!(resolve_range(&range, 1000), Ok(400));
    // A range starting past the end is invalid.
    let range = ByteRange { start: 1001, length: None };
    assert_eq!(resolve_range(&range, 1000), Err(TransferError::InvalidRange));
}
