//! Wire framing of one transfer stream: immediately after the tunnel is
//! established, and before any payload byte, the responder sends a block
//! size (4 bytes little-endian) followed by the total length of the
//! payload (8 bytes little-endian). The block size governs chunk
//! granularity for progress accounting on both sides.

use vstd::prelude::*;
use vstd::bytes::{lemma_auto_spec_u32_to_from_le_bytes, lemma_auto_spec_u64_to_from_le_bytes,
    spec_u32_from_le_bytes, spec_u32_to_le_bytes, spec_u64_from_le_bytes, spec_u64_to_le_bytes,
    u32_from_le_bytes, u32_to_le_bytes, u64_from_le_bytes, u64_to_le_bytes};
use vstd::slice::slice_subrange;
use crate::error::TransferError;

verus! {

/// The protocol's closed set of block sizes.
pub open spec fn is_valid_block_size(n: u32) -> bool {
    n == 16384 || n == 65536 || n == 131072 || n == 262144
}

/// The block size chosen for a resource of the given length: larger
/// resources use larger chunks, so progress reporting stays proportionate.
pub open spec fn block_size_for(file_size: u64) -> u32 {
    if file_size >= 268435456 {
        262144u32
    } else if file_size >= 1048576 {
        131072u32
    } else if file_size >= 65536 {
        65536u32
    } else {
        16384u32
    }
}

/// The chunk granularity of one transfer stream.
#[derive(Debug, Clone, Copy, PartialEq, Eq, Structural)]
pub struct BlockSize {
    pub size: u32,
}

impl BlockSize {
    /// Picks the block size for a resource of the given length.
    pub fn from_file_size(file_size: u64) -> (r: Self)
        ensures
            r.size == block_size_for(file_size),
            is_valid_block_size(r.size),
    {
        if file_size >= 268435456 {
            BlockSize { size: 262144 }
        } else if file_size >= 1048576 {
            BlockSize { size: 131072 }
        } else if file_size >= 65536 {
            BlockSize { size: 65536 }
        } else {
            BlockSize { size: 16384 }
        }
    }

    /// The four-byte little-endian encoding of this block size.
    pub fn to_bytes(&self) -> (r: Vec<u8>)
        ensures
            r@ == spec_u32_to_le_bytes(self.size),
            r@.len() == 4,
    {
        proof {
            lemma_auto_spec_u32_to_from_le_bytes();
        }
        u32_to_le_bytes(self.size)
    }

    /// Parses a block size, accepting only the protocol's set.
    pub fn from_bytes(bytes: &[u8]) -> (r: Result<Self, TransferError>)
        ensures
            match r {
                Ok(b) => {
                    &&& bytes@.len() == 4
                    &&& b.size == spec_u32_from_le_bytes(bytes@)
                    &&& is_valid_block_size(b.size)
                },
                Err(e) => {
                    &&& (bytes@.len() != 4 || !is_valid_block_size(spec_u32_from_le_bytes(bytes@)))
                    &&& (e == TransferError::MalformedHeader <==> bytes@.len() != 4)
                    &&& (bytes@.len() == 4 ==> e == TransferError::InvalidBlockSize)
                },
            },
    {
        if bytes.len() != 4 {
            return Err(TransferError::MalformedHeader);
        }
        let size = u32_from_le_bytes(bytes);
        if size == 16384 || size == 65536 || size == 131072 || size == 262144 {
            Ok(BlockSize { size })
        } else {
            Err(TransferError::InvalidBlockSize)
        }
    }
}

/// The framing header: block size, then payload length.
#[derive(Debug, Clone, Copy, PartialEq, Eq, Structural)]
pub struct FramingHeader {
    pub block_size: BlockSize,
    pub total_length: u64,
}

/// The twelve bytes a header puts on the wire.
pub open spec fn header_bytes_spec(h: FramingHeader) -> Seq<u8> {
    spec_u32_to_le_bytes(h.block_size.size) + spec_u64_to_le_bytes(h.total_length)
}

impl FramingHeader {
    /// Encodes the header for the wire.
    pub fn encode(&self) -> (r: Vec<u8>)
        ensures
            r@ == header_bytes_spec(*self),
            r@.len() == 12,
    {
        proof {
            lemma_auto_spec_u32_to_from_le_bytes();
            lemma_auto_spec_u64_to_from_le_bytes();
        }
        let mut r = self.block_size.to_bytes();
        let mut length_bytes = u64_to_le_bytes(self.total_length);
        r.append(&mut length_bytes);
        r
    }

    /// Parses a header. Succeeds exactly on twelve bytes whose first four
    /// name a valid block size.
    pub fn decode(bytes: &[u8]) -> (r: Result<Self, TransferError>)
        ensures
            match r {
                Ok(h) => {
                    &&& bytes@.len() == 12
                    &&& h.block_size.size == spec_u32_from_le_bytes(bytes@.subrange(0, 4))
                    &&& is_valid_block_size(h.block_size.size)
                    &&& h.total_length == spec_u64_from_le_bytes(bytes@.subrange(4, 12))
                },
                Err(e) => {
                    &&& (bytes@.len() != 12 || !is_valid_block_size(
                        spec_u32_from_le_bytes(bytes@.subrange(0, 4)),
                    ))
                    &&& (e == TransferError::MalformedHeader <==> bytes@.len() != 12)
                    &&& (bytes@.len() == 12 ==> e == TransferError::InvalidBlockSize)
                },
            },
    {
        if bytes.len() != 12 {
            return Err(TransferError::MalformedHeader);
        }
        let size_bytes = slice_subrange(bytes, 0, 4);
        let length_bytes = slice_subrange(bytes, 4, 12);
        match BlockSize::from_bytes(size_bytes) {
            Ok(block_size) => Ok(
                FramingHeader { block_size, total_length: u64_from_le_bytes(length_bytes) },
            ),
            Err(_) => Err(TransferError::InvalidBlockSize),
        }
    }
}

/// Framing round trip: a header with a valid block size decodes from its
/// own encoding to exactly itself, so both sides agree on chunk
/// granularity and payload length.
pub proof fn lemma_header_round_trip(h: FramingHeader)
    requires
        is_valid_block_size(h.block_size.size),
    ensures
        header_bytes_spec(h).len() == 12,
        spec_u32_from_le_bytes(header_bytes_spec(h).subrange(0, 4)) == h.block_size.size,
        spec_u64_from_le_bytes(header_bytes_spec(h).subrange(4, 12)) == h.total_length,
{
    lemma_auto_spec_u32_to_from_le_bytes();
    lemma_auto_spec_u64_to_from_le_bytes();
    let b = header_bytes_spec(h);
    assert(b.subrange(0, 4) =~= spec_u32_to_le_bytes(h.block_size.size));
    assert(b.subrange(4, 12) =~= spec_u64_to_le_bytes(h.total_length));
}

} // verus!
