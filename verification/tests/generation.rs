//! The generation policy: cache skip, regeneration, media dispatch.

use thumbserve::extension::{classify_extension, can_generate_thumbnail_for_document,
    can_generate_thumbnail_for_image, can_generate_thumbnail_for_video, DocumentExtension,
    ImageExtension, MediaCategory, VideoExtension};
use thumbserve::generator::{finish_generation, generate_thumbnail, GenerateThumbnailArgs,
    GenerationPlan, GenerationStatus};
use thumbserve::paths::StoragePath;
use thumbserve::thumb_key::ThumbnailKind;

fn path_of(segments: &[&str]) -> StoragePath {
    StoragePath { segments: segments.iter().map(|s| s.to_string()).collect() }
}

fn args(extension: &str) -> GenerateThumbnailArgs {
    GenerateThumbnailArgs::new(
        extension.to_string(),
        "abc123".to_string(),
        "pictures/holiday.img".to_string(),
    )
}

#[test]
fn capability_checks() {
    assert!(can_generate_thumbnail_for_image(ImageExtension::Png));
    assert!(can_generate_thumbnail_for_image(ImageExtension::Heic));
    assert!(!can_generate_thumbnail_for_image(ImageExtension::Tiff));
    assert!(can_generate_thumbnail_for_document(DocumentExtension::Pdf));
    assert!(!can_generate_thumbnail_for_document(DocumentExtension::Docx));
    assert!(can_generate_thumbnail_for_video(VideoExtension::Mp4));
    assert!(!can_generate_thumbnail_for_video(VideoExtension::Swf));
    assert!(!can_generate_thumbnail_for_video(VideoExtension::Hevc));
}

#[test]
fn classification() {
    assert!(matches!(classify_extension("jpg", true), MediaCategory::Image(ImageExtension::Jpg)));
    assert!(matches!(classify_extension("pdf", true), MediaCategory::Document(DocumentExtension::Pdf)));
    assert!(matches!(classify_extension("mkv", true), MediaCategory::Video(VideoExtension::Mkv)));
    assert!(matches!(classify_extension("mkv", false), MediaCategory::Unsupported));
    assert!(matches!(classify_extension("swf", true), MediaCategory::Unsupported));
    assert!(matches!(classify_extension("tiff", true), MediaCategory::Unsupported));
    assert!(matches!(classify_extension("txt", true), MediaCategory::Unsupported));
    assert!(matches!(classify_extension("", true), MediaCategory::Unsupported));
    assert!(matches!(classify_extension("JPG", true), MediaCategory::Unsupported));
}

#[test]
fn first_run_generates_second_skips() {
    let dir = path_of(&["data", "thumbnails"]);
    let kind = ThumbnailKind::Ephemeral;
    // First run: the target does not exist yet.
    let (path1, plan1, key1) = generate_thumbnail(&dir, &args("png"), &kind, false, false, true);
    assert!(matches!(plan1, GenerationPlan::EncodeImage(ImageExtension::Png)));
    assert!(matches!(finish_generation(&plan1), GenerationStatus::Generated));
    // Second run: the target now exists and regeneration is off.
    let (path2, plan2, key2) = generate_thumbnail(&dir, &args("png"), &kind, false, true, true);
    assert!(matches!(plan2, GenerationPlan::UseExisting));
    assert!(matches!(finish_generation(&plan2), GenerationStatus::Skipped));
    // Same target and key both times; the skip performs no write.
    assert_eq!(path1.segments, path2.segments);
    assert_eq!(key1.cas_id, key2.cas_id);
    assert_eq!(key1.shard_hex, key2.shard_hex);
    assert_eq!(key1.base_directory_str, key2.base_directory_str);
}

#[test]
fn regeneration_always_writes() {
    let dir = path_of(&["data", "thumbnails"]);
    let kind = ThumbnailKind::Ephemeral;
    for exists in [false, true] {
        let (_, plan, _) = generate_thumbnail(&dir, &args("png"), &kind, true, exists, true);
        assert!(matches!(plan, GenerationPlan::EncodeImage(ImageExtension::Png)));
        assert!(matches!(finish_generation(&plan), GenerationStatus::Generated));
    }
}

#[test]
fn unsupported_extension_is_silent_no_op() {
    let dir = path_of(&["data", "thumbnails"]);
    let kind = ThumbnailKind::Ephemeral;
    let (_, plan, _) = generate_thumbnail(&dir, &args("txt"), &kind, false, false, true);
    assert!(matches!(plan, GenerationPlan::NoThumbnail));
    assert!(matches!(finish_generation(&plan), GenerationStatus::Skipped));
    // Even with regeneration forced, nothing is written and no error raised.
    let (_, plan, _) = generate_thumbnail(&dir, &args("txt"), &kind, true, true, true);
    assert!(matches!(plan, GenerationPlan::NoThumbnail));
    assert!(matches!(finish_generation(&plan), GenerationStatus::Skipped));
}

#[test]
fn output_path_is_sharded_under_namespace() {
    let dir = path_of(&["data", "thumbnails"]);
    let kind = ThumbnailKind::Indexed("lib9".to_string());
    let (path, _, _) = generate_thumbnail(&dir, &args("pdf"), &kind, false, false, false);
    assert_eq!(
        path.segments,
        vec!["data", "thumbnails", "lib9", "abc", "abc123.webp"]
    );
}

#[test]
fn video_dispatch_depends_on_capability() {
    let dir = path_of(&["t"]);
    let kind = ThumbnailKind::Ephemeral;
    let (_, with_video, _) = generate_thumbnail(&dir, &args("mp4"), &kind, false, false, true);
    assert!(matches!(with_video, GenerationPlan::EncodeVideo(VideoExtension::Mp4)));
    let (_, without_video, _) = generate_thumbnail(&dir, &args("mp4"), &kind, false, false, false);
    assert!(matches!(without_video, GenerationPlan::NoThumbnail));
}
