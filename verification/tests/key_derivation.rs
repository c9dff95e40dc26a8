//! Content key derivation: shards, transport keys, storage paths.

use thumbserve::paths::StoragePath;
use thumbserve::thumb_key::{get_shard_hex, get_thumbnails_directory, validate_cas_id, ThumbKey,
    ThumbnailKind};

fn path_of(segments: &[&str]) -> StoragePath {
    StoragePath { segments: segments.iter().map(|s| s.to_string()).collect() }
}

fn segments_of(path: &StoragePath) -> Vec<String> {
    path.segments.clone()
}

#[test]
fn shard_is_first_three_characters() {
    assert_eq!(get_shard_hex("abc123"), "abc");
    assert_eq!(get_shard_hex("0123456789abcdef"), "012");
    assert_eq!(get_shard_hex("fff"), "fff");
}

#[test]
fn cas_id_validation() {
    assert!(validate_cas_id("abc123"));
    assert!(validate_cas_id("ABCDEF0123"));
    assert!(validate_cas_id("fff"));
    assert!(!validate_cas_id("ab"));
    assert!(!validate_cas_id(""));
    assert!(!validate_cas_id("abz123"));
    assert!(!validate_cas_id("../../etc/passwd"));
}

#[test]
fn thumbnails_directory_appends_fixed_segment() {
    let data_dir = path_of(&["home", "data"]);
    let dir = get_thumbnails_directory(&data_dir);
    assert_eq!(segments_of(&dir), vec!["home", "data", "thumbnails"]);
}

#[test]
fn compute_path_layout_and_determinism() {
    let data_dir = path_of(&["data"]);
    let kind = ThumbnailKind::Indexed("lib-1234".to_string());
    let p1 = kind.compute_path(&data_dir, "abc123");
    let p2 = kind.compute_path(&data_dir, "abc123");
    assert_eq!(
        segments_of(&p1),
        vec!["data", "thumbnails", "lib-1234", "abc", "abc123.webp"]
    );
    assert_eq!(segments_of(&p1), segments_of(&p2));
}

#[test]
fn compute_path_ephemeral_namespace() {
    let data_dir = path_of(&["data"]);
    let p = ThumbnailKind::Ephemeral.compute_path(&data_dir, "00ff00ff");
    assert_eq!(
        segments_of(&p),
        vec!["data", "thumbnails", "ephemeral", "00f", "00ff00ff.webp"]
    );
}

#[test]
fn distinct_hashes_get_distinct_paths() {
    let data_dir = path_of(&["data"]);
    let kind = ThumbnailKind::Ephemeral;
    let p1 = kind.compute_path(&data_dir, "abc111");
    let p2 = kind.compute_path(&data_dir, "abc222");
    assert_ne!(segments_of(&p1), segments_of(&p2));
}

#[test]
fn thumb_key_fields() {
    let key = ThumbKey::new("deadbeef", &ThumbnailKind::Indexed("libx".to_string()));
    assert_eq!(key.shard_hex, "dea");
    assert_eq!(key.cas_id, "deadbeef");
    assert_eq!(key.base_directory_str, "libx");

    let key = ThumbKey::new_ephemeral("deadbeef");
    assert_eq!(key.shard_hex, "dea");
    assert_eq!(key.base_directory_str, "ephemeral");

    let key = ThumbKey::new_indexed("0055aa", "some-library");
    assert_eq!(key.shard_hex, "005");
    assert_eq!(key.cas_id, "0055aa");
    assert_eq!(key.base_directory_str, "some-library");
}
