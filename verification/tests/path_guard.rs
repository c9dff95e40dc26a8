//! The path authorization guard: traversal attempts are rejected before
//! any file is opened.

use thumbserve::authorize::authorize_thumbnail_request;
use thumbserve::error::TransferError;
use thumbserve::paths::StoragePath;

fn root() -> StoragePath {
    StoragePath {
        segments: vec!["data".to_string(), "thumbnails".to_string()],
    }
}

#[test]
fn valid_hash_resolves_inside_root() {
    let path = authorize_thumbnail_request(&root(), "lib-1", "00c0ffee").unwrap();
    assert_eq!(
        path.segments,
        vec!["data", "thumbnails", "lib-1", "00c", "00c0ffee.webp"]
    );
}

#[test]
fn traversal_attempt_is_rejected() {
    // A crafted content hash trying to climb out of the root.
    let r = authorize_thumbnail_request(&root(), "lib-1", "../../../etc/passwd");
    assert_eq!(r.unwrap_err(), TransferError::PathNotAuthorized);
}

#[test]
fn separator_in_hash_is_rejected() {
    for cas in ["abc/def", "abc\\def", "abc\u{0}def", "..", "abc.", "a/b"] {
        let r = authorize_thumbnail_request(&root(), "lib-1", cas);
        assert_eq!(r.unwrap_err(), TransferError::PathNotAuthorized);
    }
}

#[test]
fn short_or_empty_hash_is_rejected() {
    for cas in ["", "ab", "f"] {
        let r = authorize_thumbnail_request(&root(), "lib-1", cas);
        assert_eq!(r.unwrap_err(), TransferError::PathNotAuthorized);
    }
}

#[test]
fn non_hex_hash_is_rejected() {
    let r = authorize_thumbnail_request(&root(), "lib-1", "zzz123");
    assert_eq!(r.unwrap_err(), TransferError::PathNotAuthorized);
}

#[test]
fn rejection_presents_generically_to_the_peer() {
    // A traversal rejection and a genuinely missing resource look the
    // same from outside.
    assert_eq!(
        TransferError::PathNotAuthorized.remote_presentation(),
        TransferError::ResourceNotFound.remote_presentation()
    );
    // Other errors keep their identity.
    assert_eq!(
        TransferError::InvalidRange.remote_presentation(),
        TransferError::InvalidRange
    );
}

#[test]
fn unclean_library_segment_is_rejected() {
    let r = authorize_thumbnail_request(&root(), "../other", "abc123");
    assert_eq!(r.unwrap_err(), TransferError::PathNotAuthorized);
}
