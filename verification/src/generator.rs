//! The thumbnail generation policy. Every decision the generator makes is
//! a pure function of plain facts: whether the target file already exists,
//! whether regeneration was requested, and what category the source's
//! extension falls in. The caller performs the filesystem work (the
//! existence probe, the decode/encode, the write) and hands the observed
//! facts in; an existence probe that failed for any reason other than
//! "not found" is reported as absent, so generation proceeds.

use vstd::prelude::*;
use crate::extension::{classify_spec, classify_extension, DocumentExtension, ImageExtension,
    MediaCategory, VideoExtension};
use crate::paths::StoragePath;
use crate::thumb_key::{namespace_segment, get_shard_hex, thumb_key_spec, ThumbKey, ThumbnailKind};

verus! {

/// One unit of thumbnailing work: the source's extension (lowercase), its
/// content hash, and where the source lives on disk.
pub struct GenerateThumbnailArgs {
    pub extension: String,
    pub cas_id: String,
    pub path: String,
}

impl GenerateThumbnailArgs {
    /// Bundles the three facts about one source file.
    pub fn new(extension: String, cas_id: String, path: String) -> (r: Self)
        ensures
            r.extension == extension,
            r.cas_id == cas_id,
            r.path == path,
    {
        GenerateThumbnailArgs { extension, cas_id, path }
    }
}

/// Whether a generation run wrote a new thumbnail or found the cache
/// already warm. Callers use the distinction for telemetry and for the
/// rate limiter, so it must be reported faithfully.
#[derive(Clone, Copy, PartialEq, Eq, Structural, Debug)]
pub enum GenerationStatus {
    Generated,
    Skipped,
}

/// What the generator decides to do for one request.
#[derive(Clone, Copy, PartialEq, Eq, Structural, Debug)]
pub enum GenerationPlan {
    /// The target exists and regeneration was not requested: reuse it.
    UseExisting,
    /// The extension is outside every thumbnailable category: succeed
    /// without writing anything.
    NoThumbnail,
    /// Decode the source as an image, scale, encode, write.
    EncodeImage(ImageExtension),
    /// Render the document's first page, scale, encode, write.
    EncodeDocument(DocumentExtension),
    /// Have the external frame extractor write the thumbnail.
    EncodeVideo(VideoExtension),
}

/// The decision, as a function of the observed facts.
pub open spec fn plan_spec(
    extension: Seq<char>,
    video_capability: bool,
    target_exists: bool,
    should_regenerate: bool,
) -> GenerationPlan {
    if target_exists && !should_regenerate {
        GenerationPlan::UseExisting
    } else {
        match classify_spec(extension, video_capability) {
            MediaCategory::Image(e) => GenerationPlan::EncodeImage(e),
            MediaCategory::Document(e) => GenerationPlan::EncodeDocument(e),
            MediaCategory::Video(e) => GenerationPlan::EncodeVideo(e),
            MediaCategory::Unsupported => GenerationPlan::NoThumbnail,
        }
    }
}

/// Whether carrying out the plan writes the target file.
pub open spec fn plan_writes(plan: GenerationPlan) -> bool {
    match plan {
        GenerationPlan::UseExisting => false,
        GenerationPlan::NoThumbnail => false,
        GenerationPlan::EncodeImage(_) => true,
        GenerationPlan::EncodeDocument(_) => true,
        GenerationPlan::EncodeVideo(_) => true,
    }
}

/// The status reported once the plan has been carried out successfully.
pub open spec fn status_of_plan(plan: GenerationPlan) -> GenerationStatus {
    if plan_writes(plan) {
        GenerationStatus::Generated
    } else {
        GenerationStatus::Skipped
    }
}

/// The storage path the generator writes, relative to the thumbnails
/// directory: `<namespace>/<shard>/<cas_id>.webp`.
pub open spec fn output_path_spec(
    thumbnails_directory: Seq<Seq<char>>,
    kind: ThumbnailKind,
    cas_id: Seq<char>,
) -> Seq<Seq<char>> {
    thumbnails_directory + seq![
        namespace_segment(kind),
        cas_id.subrange(0, 3),
        cas_id + ".webp"@,
    ]
}

/// Computes the target path for one request.
pub fn compute_output_path(
    thumbnails_directory: &StoragePath,
    kind: &ThumbnailKind,
    cas_id: &str,
) -> (r: StoragePath)
    requires
        cas_id@.len() >= 3,
    ensures
        r@ == output_path_spec(thumbnails_directory@, *kind, cas_id@),
{
    let mut output_path = match kind {
        ThumbnailKind::Ephemeral => thumbnails_directory.child("ephemeral".to_owned()),
        ThumbnailKind::Indexed(library_id) => thumbnails_directory.child(library_id.clone()),
    };
    output_path.push_segment(get_shard_hex(cas_id));
    output_path.push_segment(cas_id.to_owned().concat(".webp"));
    proof {
        assert(output_path@ =~= output_path_spec(thumbnails_directory@, *kind, cas_id@));
    }
    output_path
}

/// Decides one generation run: where the thumbnail goes, what work to do,
/// and the transport key to report. `target_exists` is the result of the
/// caller's existence probe of that same path.
pub fn generate_thumbnail(
    thumbnails_directory: &StoragePath,
    args: &GenerateThumbnailArgs,
    kind: &ThumbnailKind,
    should_regenerate: bool,
    target_exists: bool,
    video_capability: bool,
) -> (r: (StoragePath, GenerationPlan, ThumbKey))
    requires
        args.cas_id@.len() >= 3,
    ensures
        r.0@ == output_path_spec(thumbnails_directory@, *kind, args.cas_id@),
        r.1 == plan_spec(args.extension@, video_capability, target_exists, should_regenerate),
        thumb_key_spec(r.2, args.cas_id@, *kind),
{
    let output_path = compute_output_path(thumbnails_directory, kind, args.cas_id.as_str());
    let plan = if target_exists && !should_regenerate {
        GenerationPlan::UseExisting
    } else {
        match classify_extension(args.extension.as_str(), video_capability) {
            MediaCategory::Image(e) => GenerationPlan::EncodeImage(e),
            MediaCategory::Document(e) => GenerationPlan::EncodeDocument(e),
            MediaCategory::Video(e) => GenerationPlan::EncodeVideo(e),
            MediaCategory::Unsupported => GenerationPlan::NoThumbnail,
        }
    };
    let key = ThumbKey::new(args.cas_id.as_str(), kind);
    (output_path, plan, key)
}

/// The status a successfully executed plan reports.
pub fn finish_generation(plan: &GenerationPlan) -> (r: GenerationStatus)
    ensures
        r == status_of_plan(*plan),
{
    match plan {
        GenerationPlan::UseExisting => GenerationStatus::Skipped,
        GenerationPlan::NoThumbnail => GenerationStatus::Skipped,
        _ => GenerationStatus::Generated,
    }
}

/// Idempotence: once a thumbnail exists, a second run without
/// `should_regenerate` reuses it — it performs no write, so the stored
/// bytes stay exactly what the first run wrote, and it reports `Skipped`.
pub proof fn lemma_generation_idempotent(extension: Seq<char>, video_capability: bool)
    ensures
        plan_spec(extension, video_capability, true, false) == GenerationPlan::UseExisting,
        !plan_writes(plan_spec(extension, video_capability, true, false)),
        status_of_plan(plan_spec(extension, video_capability, true, false))
            == GenerationStatus::Skipped,
{
}

/// Regeneration: with `should_regenerate` set, a thumbnailable source is
/// re-encoded and rewritten every time, whether or not the target already
/// exists, and each run reports `Generated`.
pub proof fn lemma_regeneration_always_writes(
    extension: Seq<char>,
    video_capability: bool,
    target_exists: bool,
)
    requires
        classify_spec(extension, video_capability) != MediaCategory::Unsupported,
    ensures
        plan_writes(plan_spec(extension, video_capability, target_exists, true)),
        status_of_plan(plan_spec(extension, video_capability, target_exists, true))
            == GenerationStatus::Generated,
{
}

/// Unsupported extensions are a silent no-op: no file is written, no
/// error is reported, and the run counts as skipped.
pub proof fn lemma_unsupported_is_no_op(
    extension: Seq<char>,
    video_capability: bool,
    target_exists: bool,
    should_regenerate: bool,
)
    requires
        classify_spec(extension, video_capability) == MediaCategory::Unsupported,
    ensures
        !plan_writes(plan_spec(extension, video_capability, target_exists, should_regenerate)),
        status_of_plan(plan_spec(extension, video_capability, target_exists, should_regenerate))
            == GenerationStatus::Skipped,
{
}

} // verus!
