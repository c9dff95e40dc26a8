//! The path authorization guard. A remote peer's content hash chooses a
//! thumbnail path; nothing about the hash can be trusted. The guard
//! admits only hashes that are genuinely hexadecimal, so every segment
//! of the derived path is a safe single path component and the path
//! provably stays inside the thumbnails root — this is the sole defense
//! against directory traversal, and it runs before any file is opened.

use vstd::prelude::*;
use crate::error::TransferError;
use crate::paths::{all_segments_safe, check_safe_segment, is_path_separator, is_safe_segment,
    path_is_within, StoragePath};
use crate::thumb_key::{get_shard_hex, is_hex_char, valid_cas_id, validate_cas_id};

verus! {

/// Every character of a valid content hash is a hexadecimal digit, and a
/// hexadecimal digit can never be a separator, a NUL, or a dot.
pub proof fn lemma_hex_char_is_plain(c: char)
    requires
        is_hex_char(c),
    ensures
        !is_path_separator(c),
        c != '\u{0}',
        c != '.',
{
}

/// The shard of a valid content hash is a safe path segment.
pub proof fn lemma_shard_segment_safe(cas_id: Seq<char>)
    requires
        valid_cas_id(cas_id),
    ensures
        is_safe_segment(cas_id.subrange(0, 3)),
{
    let shard = cas_id.subrange(0, 3);
    assert(shard.len() == 3);
    assert(seq!['.'].len() == 1);
    assert(seq!['.', '.'].len() == 2);
    assert forall|i: int| 0 <= i < shard.len() implies !is_path_separator(#[trigger] shard[i])
        && shard[i] != '\u{0}' by {
        assert(shard[i] == cas_id[i]);
        lemma_hex_char_is_plain(cas_id[i]);
    }
}

/// The file name derived from a valid content hash — the hash followed
/// by the thumbnail extension — is a safe path segment.
pub proof fn lemma_file_name_segment_safe(cas_id: Seq<char>)
    requires
        valid_cas_id(cas_id),
    ensures
        is_safe_segment(cas_id + ".webp"@),
{
    reveal_strlit(".webp");
    let name = cas_id + ".webp"@;
    assert(name.len() >= 8);
    assert(seq!['.'].len() == 1);
    assert(seq!['.', '.'].len() == 2);
    assert forall|i: int| 0 <= i < name.len() implies !is_path_separator(#[trigger] name[i])
        && name[i] != '\u{0}' by {
        if i < cas_id.len() {
            assert(name[i] == cas_id[i]);
            lemma_hex_char_is_plain(cas_id[i]);
        } else {
            assert(name[i] == ".webp"@[i - cas_id.len()]);
        }
    }
}

/// Resolves a thumbnail request from an authenticated peer of the given
/// library to the storage path it may be served from. Succeeds exactly
/// when the content hash is a valid hexadecimal hash (and the library's
/// directory name is itself a clean segment); the resolved path then
/// provably stays inside the thumbnails root, every appended segment is
/// safe, and the file name carries the thumbnail extension. Anything
/// else is rejected before any file is opened.
pub fn authorize_thumbnail_request(
    thumbnails_directory: &StoragePath,
    library_id: &str,
    cas_id: &str,
) -> (r: Result<StoragePath, TransferError>)
    ensures
        r is Ok <==> valid_cas_id(cas_id@) && is_safe_segment(library_id@),
        r is Ok ==> {
            &&& r->Ok_0@ == thumbnails_directory@ + seq![
                library_id@,
                cas_id@.subrange(0, 3),
                cas_id@ + ".webp"@,
            ]
            &&& path_is_within(r->Ok_0@, thumbnails_directory@)
            &&& all_segments_safe(
                r->Ok_0@.subrange(thumbnails_directory@.len() as int, r->Ok_0@.len() as int),
            )
        },
        r is Err ==> r->Err_0 == TransferError::PathNotAuthorized,
{
    if !validate_cas_id(cas_id) {
        return Err(TransferError::PathNotAuthorized);
    }
    if !check_safe_segment(library_id) {
        return Err(TransferError::PathNotAuthorized);
    }
    let mut path = thumbnails_directory.clone();
    path.push_segment(library_id.to_owned());
    path.push_segment(get_shard_hex(cas_id));
    path.push_segment(cas_id.to_owned().concat(".webp"));
    proof {
        let tail = seq![library_id@, cas_id@.subrange(0, 3), cas_id@ + ".webp"@];
        assert(path@ =~= thumbnails_directory@ + tail);
        crate::paths::lemma_path_within_extends(thumbnails_directory@, tail);
        lemma_shard_segment_safe(cas_id@);
        lemma_file_name_segment_safe(cas_id@);
        assert(path@.subrange(thumbnails_directory@.len() as int, path@.len() as int) =~= tail);
    }
    Ok(path)
}

} // verus!
