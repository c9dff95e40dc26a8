//! Content key derivation: a content hash (`cas_id`) determines a shard
//! (its first three characters), a transport key, and a sharded storage
//! path, all purely and deterministically.

use vstd::prelude::*;
use crate::paths::StoragePath;

verus! {

/// A hexadecimal digit, as the content hashes are written.
pub open spec fn is_hex_char(c: char) -> bool {
    ||| '0' as u32 <= c as u32 && c as u32 <= '9' as u32
    ||| 'a' as u32 <= c as u32 && c as u32 <= 'f' as u32
    ||| 'A' as u32 <= c as u32 && c as u32 <= 'F' as u32
}

/// A content hash is valid when it is at least three characters of
/// hexadecimal; the first three become the shard directory name.
pub open spec fn valid_cas_id(s: Seq<char>) -> bool {
    &&& s.len() >= 3
    &&& forall|i: int| 0 <= i < s.len() ==> is_hex_char(#[trigger] s[i])
}

/// Runtime check for one hexadecimal digit.
pub fn check_hex_char(c: char) -> (b: bool)
    ensures
        b == is_hex_char(c),
{
    let v = c as u32;
    ('0' as u32 <= v && v <= '9' as u32) || ('a' as u32 <= v && v <= 'f' as u32) || ('A' as u32
        <= v && v <= 'F' as u32)
}

/// Runtime check for a valid content hash.
pub fn validate_cas_id(cas_id: &str) -> (b: bool)
    ensures
        b == valid_cas_id(cas_id@),
{
    let n = cas_id.unicode_len();
    if n < 3 {
        return false;
    }
    let mut i: usize = 0;
    while i < n
        invariant
            n == cas_id@.len(),
            3 <= n,
            i <= n,
            forall|j: int| 0 <= j < i ==> is_hex_char(#[trigger] cas_id@[j]),
        decreases n - i,
    {
        if !check_hex_char(cas_id.get_char(i)) {
            return false;
        }
        i = i + 1;
    }
    true
}

/// The shard a content hash is stored under: its first three characters.
/// The caller must have validated the hash's length; a shorter string is a
/// programmer error, not a runtime condition.
pub fn get_shard_hex(cas_id: &str) -> (r: String)
    requires
        cas_id@.len() >= 3,
    ensures
        r@ == cas_id@.subrange(0, 3),
{
    cas_id.substring_char(0, 3).to_owned()
}

/// The namespace a thumbnail is stored under: a fixed directory for
/// ephemeral items, or the string form of the owning library's identifier.
pub enum ThumbnailKind {
    Ephemeral,
    Indexed(String),
}

/// The storage subdirectory that a namespace selects.
pub open spec fn namespace_segment(kind: ThumbnailKind) -> Seq<char> {
    match kind {
        ThumbnailKind::Ephemeral => "ephemeral"@,
        ThumbnailKind::Indexed(library_id) => library_id@,
    }
}

/// The directory all thumbnails live under: `data_directory/thumbnails`.
pub fn get_thumbnails_directory(data_directory: &StoragePath) -> (r: StoragePath)
    ensures
        r@ == data_directory@.push("thumbnails"@),
{
    data_directory.child("thumbnails".to_owned())
}

/// The full storage path of one thumbnail:
/// `data_directory/thumbnails/<namespace>/<shard>/<cas_id>.webp`.
pub open spec fn storage_path_spec(
    data_directory: Seq<Seq<char>>,
    kind: ThumbnailKind,
    cas_id: Seq<char>,
) -> Seq<Seq<char>> {
    data_directory + seq![
        "thumbnails"@,
        namespace_segment(kind),
        cas_id.subrange(0, 3),
        cas_id + ".webp"@,
    ]
}

impl ThumbnailKind {
    /// Computes the storage path of the thumbnail for `cas_id` under this
    /// namespace. Pure: the result is a function of the inputs alone.
    pub fn compute_path(&self, data_directory: &StoragePath, cas_id: &str) -> (r: StoragePath)
        requires
            cas_id@.len() >= 3,
        ensures
            r@ == storage_path_spec(data_directory@, *self, cas_id@),
    {
        let mut thumb_path = get_thumbnails_directory(data_directory);
        match self {
            ThumbnailKind::Ephemeral => thumb_path.push_segment("ephemeral".to_owned()),
            ThumbnailKind::Indexed(library_id) => thumb_path.push_segment(library_id.clone()),
        }
        thumb_path.push_segment(get_shard_hex(cas_id));
        thumb_path.push_segment(cas_id.to_owned().concat(".webp"));
        proof {
            assert(thumb_path@ =~= storage_path_spec(data_directory@, *self, cas_id@));
        }
        thumb_path
    }
}

/// The transport key handed to callers so a remote peer can request the
/// thumbnail: the shard, the content hash, and the namespace directory.
pub struct ThumbKey {
    pub shard_hex: String,
    pub cas_id: String,
    pub base_directory_str: String,
}

/// What a correctly derived transport key looks like.
pub open spec fn thumb_key_spec(key: ThumbKey, cas_id: Seq<char>, kind: ThumbnailKind) -> bool {
    &&& key.shard_hex@ == cas_id.subrange(0, 3)
    &&& key.cas_id@ == cas_id
    &&& key.base_directory_str@ == namespace_segment(kind)
}

impl ThumbKey {
    /// Derives the transport key for `cas_id` under the given namespace.
    pub fn new(cas_id: &str, kind: &ThumbnailKind) -> (r: Self)
        requires
            cas_id@.len() >= 3,
        ensures
            thumb_key_spec(r, cas_id@, *kind),
    {
        ThumbKey {
            shard_hex: get_shard_hex(cas_id),
            cas_id: cas_id.to_owned(),
            base_directory_str: match kind {
                ThumbnailKind::Ephemeral => "ephemeral".to_owned(),
                ThumbnailKind::Indexed(library_id) => library_id.clone(),
            },
        }
    }

    /// Derives the transport key for an indexed item of the given library.
    pub fn new_indexed(cas_id: &str, library_id: &str) -> (r: Self)
        requires
            cas_id@.len() >= 3,
        ensures
            r.shard_hex@ == cas_id@.subrange(0, 3),
            r.cas_id@ == cas_id@,
            r.base_directory_str@ == library_id@,
    {
        ThumbKey {
            shard_hex: get_shard_hex(cas_id),
            cas_id: cas_id.to_owned(),
            base_directory_str: library_id.to_owned(),
        }
    }

    /// Derives the transport key for an ephemeral item.
    pub fn new_ephemeral(cas_id: &str) -> (r: Self)
        requires
            cas_id@.len() >= 3,
        ensures
            thumb_key_spec(r, cas_id@, ThumbnailKind::Ephemeral),
    {
        ThumbKey {
            shard_hex: get_shard_hex(cas_id),
            cas_id: cas_id.to_owned(),
            base_directory_str: "ephemeral".to_owned(),
        }
    }
}

/// Path derivation is deterministic: the storage path is a function of the
/// root, the namespace and the content hash alone, so two derivations from
/// identical inputs yield identical paths.
pub proof fn lemma_compute_path_deterministic(
    p1: Seq<Seq<char>>,
    p2: Seq<Seq<char>>,
    data_directory: Seq<Seq<char>>,
    kind: ThumbnailKind,
    cas_id: Seq<char>,
)
    requires
        p1 == storage_path_spec(data_directory, kind, cas_id),
        p2 == storage_path_spec(data_directory, kind, cas_id),
    ensures
        p1 == p2,
{
}

/// Every derived storage path stays under the thumbnails directory of
/// its data directory.
pub proof fn lemma_storage_path_under_thumbnails(
    data_directory: Seq<Seq<char>>,
    kind: ThumbnailKind,
    cas_id: Seq<char>,
)
    ensures
        crate::paths::path_is_within(
            storage_path_spec(data_directory, kind, cas_id),
            data_directory.push("thumbnails"@),
        ),
{
    let tail = seq![namespace_segment(kind), cas_id.subrange(0, 3), cas_id + ".webp"@];
    assert(storage_path_spec(data_directory, kind, cas_id) =~= data_directory.push("thumbnails"@)
        + tail);
    crate::paths::lemma_path_within_extends(data_directory.push("thumbnails"@), tail);
}

/// Distinct content hashes cannot collide: under one root and namespace
/// they derive distinct storage paths, because the file name embeds the
/// whole hash.
pub proof fn lemma_storage_path_injective(
    data_directory: Seq<Seq<char>>,
    kind: ThumbnailKind,
    cas_id_a: Seq<char>,
    cas_id_b: Seq<char>,
)
    requires
        cas_id_a != cas_id_b,
    ensures
        storage_path_spec(data_directory, kind, cas_id_a) != storage_path_spec(
            data_directory,
            kind,
            cas_id_b,
        ),
{
    let pa = storage_path_spec(data_directory, kind, cas_id_a);
    let pb = storage_path_spec(data_directory, kind, cas_id_b);
    let n = data_directory.len() as int;
    if pa == pb {
        let fa = cas_id_a + ".webp"@;
        let fb = cas_id_b + ".webp"@;
        assert(pa[n + 3] == fa);
        assert(pb[n + 3] == fb);
        assert(fa.len() == fb.len());
        assert(cas_id_a =~= fa.subrange(0, cas_id_a.len() as int));
        assert(cas_id_b =~= fb.subrange(0, cas_id_b.len() as int));
        assert(cas_id_a == cas_id_b);
        assert(false);
    }
}

} // verus!
