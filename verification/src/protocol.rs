//! The request envelope a peer sends before the tunnel upgrade: a tagged
//! request naming either a file identifier or a content hash, plus the
//! byte range of the resource it wants. One stream carries exactly one
//! such exchange.

use vstd::prelude::*;
use vstd::bytes::{lemma_auto_spec_u128_to_from_le_bytes, lemma_auto_spec_u64_to_from_le_bytes,
    spec_u128_from_le_bytes, spec_u128_to_le_bytes, spec_u64_from_le_bytes, spec_u64_to_le_bytes,
    u128_from_le_bytes, u128_to_le_bytes, u64_from_le_bytes, u64_to_le_bytes};
use vstd::slice::{slice_index_get, slice_subrange, slice_to_vec};
use vstd::utf8::{is_ascii_chars, is_ascii_chars_encode_utf8};
use crate::error::TransferError;

verus! {

/// The portion of a resource a request asks for: a starting offset and,
/// unless the range is open-ended, a byte count.
#[derive(Debug, Clone, Copy, PartialEq, Eq)]
pub struct ByteRange {
    pub start: u64,
    pub length: Option<u64>,
}

/// What a peer may ask a library for: one of its files, by identifier, or
/// one thumbnail, by content hash.
#[derive(Debug, Clone, PartialEq, Eq)]
pub enum LibraryFileRequest {
    File { file_path_id: u128 },
    Thumbnail { cas_id: String },
}

/// The bytes of an ASCII character sequence, one byte per character.
pub open spec fn ascii_bytes_of(s: Seq<char>) -> Seq<u8> {
    Seq::new(s.len(), |i: int| s[i] as u8)
}

/// A request can go on the wire when a thumbnail hash is ASCII and its
/// length fits the length prefix.
pub open spec fn request_encodable(req: LibraryFileRequest) -> bool {
    match req {
        LibraryFileRequest::File { .. } => true,
        LibraryFileRequest::Thumbnail { cas_id } => is_ascii_chars(cas_id@) && cas_id@.len()
            <= u64::MAX,
    }
}

/// Wire bytes of a byte range: the start, a presence flag, and the
/// length (zero when the range is open-ended).
pub open spec fn range_bytes_spec(r: ByteRange) -> Seq<u8> {
    spec_u64_to_le_bytes(r.start) + (match r.length {
        Some(l) => seq![1u8] + spec_u64_to_le_bytes(l),
        None => seq![0u8] + spec_u64_to_le_bytes(0),
    })
}

/// Wire bytes of a request envelope: a tag byte, the request's own
/// fields, then the range.
pub open spec fn encode_request_spec(req: LibraryFileRequest, range: ByteRange) -> Seq<u8> {
    (match req {
        LibraryFileRequest::File { file_path_id } => seq![0u8] + spec_u128_to_le_bytes(
            file_path_id,
        ),
        LibraryFileRequest::Thumbnail { cas_id } => seq![1u8] + spec_u64_to_le_bytes(
            cas_id@.len() as u64,
        ) + ascii_bytes_of(cas_id@),
    }) + range_bytes_spec(range)
}

/// A well-formed range trailer: seventeen bytes whose flag is a clean
/// boolean and whose length field is zero when the flag says "none".
pub open spec fn wf_range_bytes(b: Seq<u8>) -> bool {
    &&& b.len() == 17
    &&& (b[8] == 0 || b[8] == 1)
    &&& (b[8] == 0 ==> spec_u64_from_le_bytes(b.subrange(9, 17)) == 0)
}

/// The range a well-formed trailer denotes.
pub open spec fn decoded_range_spec(b: Seq<u8>) -> ByteRange {
    ByteRange {
        start: spec_u64_from_le_bytes(b.subrange(0, 8)),
        length: if b[8] == 1 {
            Some(spec_u64_from_le_bytes(b.subrange(9, 17)))
        } else {
            None
        },
    }
}

/// A well-formed request envelope.
pub open spec fn wf_envelope(b: Seq<u8>) -> bool {
    &&& b.len() >= 1
    &&& (b[0] == 0 || b[0] == 1)
    &&& (b[0] == 0 ==> b.len() == 34 && wf_range_bytes(b.subrange(17, 34)))
    &&& (b[0] == 1 ==> {
        &&& b.len() >= 26
        &&& spec_u64_from_le_bytes(b.subrange(1, 9)) == b.len() - 26
        &&& (forall|i: int| 9 <= i < b.len() - 17 ==> b[i] < 128)
        &&& wf_range_bytes(b.subrange(b.len() - 17, b.len() as int))
    })
}

/// Relies on String::from_utf8: bytes below 128 are one-byte UTF-8
/// sequences, so they decode to exactly one ASCII character each.
#[verifier::external_body]
fn ascii_bytes_to_string(bytes: &Vec<u8>) -> (r: String)
    requires
        forall|i: int| 0 <= i < bytes@.len() ==> bytes@[i] < 128,
    ensures
        r@.len() == bytes@.len(),
        forall|i: int| 0 <= i < bytes@.len() ==> r@[i] == bytes@[i] as char,
        forall|i: int| 0 <= i < bytes@.len() ==> r@[i] as u8 == bytes@[i],
        is_ascii_chars(r@),
{
    String::from_utf8(bytes.clone()).unwrap_or_default()
}

/// Encodes a range as its wire trailer.
pub fn encode_range(range: &ByteRange) -> (r: Vec<u8>)
    ensures
        r@ == range_bytes_spec(*range),
        r@.len() == 17,
        wf_range_bytes(r@),
        decoded_range_spec(r@) == *range,
{
    proof {
        lemma_auto_spec_u64_to_from_le_bytes();
    }
    let mut r = u64_to_le_bytes(range.start);
    match range.length {
        Some(l) => {
            r.push(1);
            let mut lb = u64_to_le_bytes(l);
            r.append(&mut lb);
        },
        None => {
            r.push(0);
            let mut lb = u64_to_le_bytes(0);
            r.append(&mut lb);
        },
    }
    proof {
        assert(r@ =~= range_bytes_spec(*range));
        assert(r@.subrange(0, 8) =~= spec_u64_to_le_bytes(range.start));
        assert(r@.subrange(9, 17) =~= (match range.length {
            Some(l) => spec_u64_to_le_bytes(l),
            None => spec_u64_to_le_bytes(0),
        }));
    }
    r
}

/// Parses a range trailer.
pub fn decode_range(b: &[u8]) -> (r: Result<ByteRange, TransferError>)
    ensures
        r is Ok <==> wf_range_bytes(b@),
        r is Ok ==> r->Ok_0 == decoded_range_spec(b@) && range_bytes_spec(r->Ok_0) == b@,
        r is Err ==> r->Err_0 == TransferError::MalformedRequest,
{
    proof {
        lemma_auto_spec_u64_to_from_le_bytes();
    }
    if b.len() != 17 {
        return Err(TransferError::MalformedRequest);
    }
    let start = u64_from_le_bytes(slice_subrange(b, 0, 8));
    let flag = *slice_index_get(b, 8);
    let length_field = u64_from_le_bytes(slice_subrange(b, 9, 17));
    if flag == 1 {
        let range = ByteRange { start, length: Some(length_field) };
        proof {
            assert(range_bytes_spec(range) =~= b@);
        }
        Ok(range)
    } else if flag == 0 && length_field == 0 {
        let range = ByteRange { start, length: None };
        proof {
            assert(range_bytes_spec(range) =~= b@);
        }
        Ok(range)
    } else {
        Err(TransferError::MalformedRequest)
    }
}

/// Encodes a request envelope for the wire.
pub fn encode_request(req: &LibraryFileRequest, range: &ByteRange) -> (r: Vec<u8>)
    requires
        request_encodable(*req),
    ensures
        r@ == encode_request_spec(*req, *range),
{
    proof {
        lemma_auto_spec_u64_to_from_le_bytes();
        lemma_auto_spec_u128_to_from_le_bytes();
    }
    let mut out: Vec<u8> = Vec::new();
    match req {
        LibraryFileRequest::File { file_path_id } => {
            out.push(0);
            let mut id_bytes = u128_to_le_bytes(*file_path_id);
            out.append(&mut id_bytes);
        },
        LibraryFileRequest::Thumbnail { cas_id } => {
            out.push(1);
            let n = cas_id.as_str().unicode_len();
            let mut len_bytes = u64_to_le_bytes(n as u64);
            out.append(&mut len_bytes);
            let mut cas_bytes = cas_id.as_str().as_bytes_vec();
            proof {
                is_ascii_chars_encode_utf8(cas_id@);
                assert(cas_bytes@ =~= ascii_bytes_of(cas_id@));
            }
            out.append(&mut cas_bytes);
        },
    }
    let mut range_bytes = encode_range(range);
    out.append(&mut range_bytes);
    proof {
        assert(out@ =~= encode_request_spec(*req, *range));
    }
    out
}

/// Parses a request envelope. Succeeds exactly on well-formed envelopes,
/// and what it returns re-encodes to the very bytes it read.
pub fn decode_request(bytes: &[u8]) -> (r: Result<(LibraryFileRequest, ByteRange), TransferError>)
    ensures
        r is Ok <==> wf_envelope(bytes@),
        r is Ok ==> request_encodable(r->Ok_0.0) && encode_request_spec(r->Ok_0.0, r->Ok_0.1)
            == bytes@,
        r is Err ==> r->Err_0 == TransferError::MalformedRequest,
{
    proof {
        lemma_auto_spec_u64_to_from_le_bytes();
        lemma_auto_spec_u128_to_from_le_bytes();
    }
    let n_total = bytes.len();
    if n_total < 1 {
        return Err(TransferError::MalformedRequest);
    }
    let tag = *slice_index_get(bytes, 0);
    if tag == 0 {
        if n_total != 34 {
            return Err(TransferError::MalformedRequest);
        }
        let file_path_id = u128_from_le_bytes(slice_subrange(bytes, 1, 17));
        match decode_range(slice_subrange(bytes, 17, 34)) {
            Ok(range) => {
                let req = LibraryFileRequest::File { file_path_id };
                proof {
                    assert(encode_request_spec(req, range) =~= bytes@);
                }
                Ok((req, range))
            },
            Err(_) => Err(TransferError::MalformedRequest),
        }
    } else if tag == 1 {
        if n_total < 26 {
            return Err(TransferError::MalformedRequest);
        }
        let len_field = u64_from_le_bytes(slice_subrange(bytes, 1, 9));
        if len_field != (n_total - 26) as u64 {
            proof {
                if wf_envelope(bytes@) {
                    assert(len_field == bytes@.len() - 26);
                    assert(len_field == (n_total - 26) as u64);
                }
            }
            return Err(TransferError::MalformedRequest);
        }
        let cas_slice = slice_subrange(bytes, 9, n_total - 17);
        let cas_bytes = slice_to_vec(cas_slice);
        let mut i: usize = 0;
        let n_cas = cas_bytes.len();
        while i < n_cas
            invariant
                n_total == bytes@.len(),
                26 <= n_total,
                bytes@[0] == 1,
                cas_bytes@ == bytes@.subrange(9, n_total - 17),
                n_cas == cas_bytes@.len(),
                i <= n_cas,
                forall|j: int| 0 <= j < i ==> cas_bytes@[j] < 128,
            decreases n_cas - i,
        {
            if cas_bytes[i] >= 128 {
                proof {
                    assert(cas_bytes@[i as int] == bytes@[9 + i as int]);
                }
                return Err(TransferError::MalformedRequest);
            }
            i = i + 1;
        }
        let cas_id = ascii_bytes_to_string(&cas_bytes);
        match decode_range(slice_subrange(bytes, n_total - 17, n_total)) {
            Ok(range) => {
                let req = LibraryFileRequest::Thumbnail { cas_id };
                proof {
                    assert(ascii_bytes_of(cas_id@) =~= cas_bytes@);
                    assert(encode_request_spec(req, range) =~= bytes@);
                }
                Ok((req, range))
            },
            Err(_) => Err(TransferError::MalformedRequest),
        }
    } else {
        Err(TransferError::MalformedRequest)
    }
}

/// Round trip: every encodable request's envelope is well-formed, so the
/// parser accepts exactly what the encoder emits and hands back a value
/// that re-encodes to the same bytes.
pub proof fn lemma_envelope_round_trip(req: LibraryFileRequest, range: ByteRange)
    requires
        request_encodable(req),
    ensures
        wf_envelope(encode_request_spec(req, range)),
{
    lemma_auto_spec_u64_to_from_le_bytes();
    lemma_auto_spec_u128_to_from_le_bytes();
    let b = encode_request_spec(req, range);
    let rb = range_bytes_spec(range);
    assert(rb.subrange(9, 17) =~= (match range.length {
        Some(l) => spec_u64_to_le_bytes(l),
        None => spec_u64_to_le_bytes(0),
    }));
    match req {
        LibraryFileRequest::File { file_path_id } => {
            assert(b.len() == 34);
            assert(b[0] == 0);
            assert(b.subrange(17, 34) =~= rb);
        },
        LibraryFileRequest::Thumbnail { cas_id } => {
            let n = cas_id@.len() as int;
            assert(b.len() == 26 + n);
            assert(b[0] == 1);
            assert(b.subrange(1, 9) =~= spec_u64_to_le_bytes(cas_id@.len() as u64));
            vstd::utf8::is_ascii_chars_nat_bound(cas_id@);
            assert forall|i: int| 9 <= i < b.len() - 17 implies b[i] < 128 by {
                assert(b[i] == ascii_bytes_of(cas_id@)[i - 9]);
                assert((cas_id@[i - 9] as nat) < 128);
            }
            assert(b.subrange(b.len() - 17, b.len() as int) =~= rb);
        },
    }
}

/// The byte encoding of ASCII character sequences is injective.
pub proof fn lemma_ascii_bytes_injective(s1: Seq<char>, s2: Seq<char>)
    requires
        is_ascii_chars(s1),
        is_ascii_chars(s2),
        ascii_bytes_of(s1) == ascii_bytes_of(s2),
    ensures
        s1 == s2,
{
    let b1 = ascii_bytes_of(s1);
    let b2 = ascii_bytes_of(s2);
    assert(b1.len() == s1.len());
    assert(b2.len() == s2.len());
    assert forall|i: int| 0 <= i < s1.len() implies s1[i] == s2[i] by {
        assert(b1[i] == s1[i] as u8);
        assert(b2[i] == s2[i] as u8);
    }
    assert(s1 =~= s2);
}

/// The range trailer encoding is injective.
pub proof fn lemma_range_bytes_injective(range1: ByteRange, range2: ByteRange)
    requires
        range_bytes_spec(range1) == range_bytes_spec(range2),
    ensures
        range1 == range2,
{
    lemma_auto_spec_u64_to_from_le_bytes();
    let b = range_bytes_spec(range1);
    assert(b.subrange(0, 8) =~= spec_u64_to_le_bytes(range1.start));
    assert(b.subrange(0, 8) =~= spec_u64_to_le_bytes(range2.start));
    assert(b.subrange(9, 17) =~= (match range1.length {
        Some(l) => spec_u64_to_le_bytes(l),
        None => spec_u64_to_le_bytes(0),
    }));
    assert(b.subrange(9, 17) =~= (match range2.length {
        Some(l) => spec_u64_to_le_bytes(l),
        None => spec_u64_to_le_bytes(0),
    }));
    assert(b[8] == (match range1.length {
        Some(_) => 1u8,
        None => 0u8,
    }));
    assert(b[8] == (match range2.length {
        Some(_) => 1u8,
        None => 0u8,
    }));
}

/// The envelope encoding is injective: two encodable requests with the
/// same wire bytes ask for the same resource and the same range. With
/// the round-trip law above, the parser therefore recovers from an
/// envelope exactly the request that was encoded into it.
pub proof fn lemma_envelope_injective(
    req1: LibraryFileRequest,
    range1: ByteRange,
    req2: LibraryFileRequest,
    range2: ByteRange,
)
    requires
        request_encodable(req1),
        request_encodable(req2),
        encode_request_spec(req1, range1) == encode_request_spec(req2, range2),
    ensures
        range1 == range2,
        req1 is File <==> req2 is File,
        req1 is File ==> req1->File_file_path_id == req2->File_file_path_id,
        req1 is Thumbnail ==> req1->Thumbnail_cas_id@ == req2->Thumbnail_cas_id@,
{
    lemma_auto_spec_u64_to_from_le_bytes();
    lemma_auto_spec_u128_to_from_le_bytes();
    let b = encode_request_spec(req1, range1);
    match (req1, req2) {
        (
            LibraryFileRequest::File { file_path_id: id1 },
            LibraryFileRequest::File { file_path_id: id2 },
        ) => {
            assert(b.subrange(1, 17) =~= spec_u128_to_le_bytes(id1));
            assert(b.subrange(1, 17) =~= spec_u128_to_le_bytes(id2));
            assert(b.subrange(17, 34) =~= range_bytes_spec(range1));
            assert(b.subrange(17, 34) =~= range_bytes_spec(range2));
            lemma_range_bytes_injective(range1, range2);
        },
        (
            LibraryFileRequest::Thumbnail { cas_id: cas1 },
            LibraryFileRequest::Thumbnail { cas_id: cas2 },
        ) => {
            assert(b.subrange(1, 9) =~= spec_u64_to_le_bytes(cas1@.len() as u64));
            assert(b.subrange(1, 9) =~= spec_u64_to_le_bytes(cas2@.len() as u64));
            assert(cas1@.len() == cas2@.len());
            let n = cas1@.len() as int;
            assert(b.subrange(9, 9 + n) =~= ascii_bytes_of(cas1@));
            assert(b.subrange(9, 9 + n) =~= ascii_bytes_of(cas2@));
            lemma_ascii_bytes_injective(cas1@, cas2@);
            assert(b.subrange(9 + n, 26 + n) =~= range_bytes_spec(range1));
            assert(b.subrange(9 + n, 26 + n) =~= range_bytes_spec(range2));
            lemma_range_bytes_injective(range1, range2);
        },
        (LibraryFileRequest::File { .. }, LibraryFileRequest::Thumbnail { .. }) => {
            assert(b[0] == 0 && b[0] == 1);
        },
        (LibraryFileRequest::Thumbnail { .. }, LibraryFileRequest::File { .. }) => {
            assert(b[0] == 1 && b[0] == 0);
        },
    }
}

/// How many payload bytes a range selects from a resource of the given
/// size: `None` exactly when the range starts beyond the end; a stated
/// length is clamped to what the resource still has past the start.
pub open spec fn resolved_length_spec(range: ByteRange, resource_size: u64) -> Option<u64> {
    if range.start > resource_size {
        None
    } else {
        match range.length {
            Some(l) => if l <= resource_size - range.start {
                Some(l)
            } else {
                Some((resource_size - range.start) as u64)
            },
            None => Some((resource_size - range.start) as u64),
        }
    }
}

/// Resolves a range against a resource's size, rejecting a range that
/// starts beyond its end.
pub fn resolve_range(range: &ByteRange, resource_size: u64) -> (r: Result<u64, TransferError>)
    ensures
        match r {
            Ok(n) => resolved_length_spec(*range, resource_size) == Some(n) && range.start + n
                <= resource_size,
            Err(e) => e == TransferError::InvalidRange && resolved_length_spec(
                *range,
                resource_size,
            ) is None,
        },
{
    if range.start > resource_size {
        return Err(TransferError::InvalidRange);
    }
    let available = resource_size - range.start;
    match range.length {
        Some(l) => if l <= available {
            Ok(l)
        } else {
            Ok(available)
        },
        None => Ok(available),
    }
}

} // verus!

