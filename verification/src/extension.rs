//! Classification of a source file's extension into the closed set of
//! media categories the thumbnailer handles: image, document, video, or
//! unsupported. Extensions are compared lowercase, as they are stored.

use vstd::prelude::*;

verus! {

/// Image formats the classifier recognizes. The capability check below
/// says which of them the thumbnailer can actually decode.
#[derive(Clone, Copy, PartialEq, Eq, Structural, Debug)]
pub enum ImageExtension {
    Jpg,
    Jpeg,
    Png,
    Webp,
    Gif,
    Svg,
    Heic,
    Heics,
    Heif,
    Heifs,
    Avif,
    Bmp,
    Ico,
    Tiff,
}

/// Document formats the classifier recognizes; only one of them is
/// thumbnailable today.
#[derive(Clone, Copy, PartialEq, Eq, Structural, Debug)]
pub enum DocumentExtension {
    Pdf,
    Doc,
    Docx,
    Xls,
    Xlsx,
    Ppt,
    Pptx,
}

/// Video formats the classifier recognizes. Some are explicitly excluded
/// from thumbnailing.
#[derive(Clone, Copy, PartialEq, Eq, Structural, Debug)]
pub enum VideoExtension {
    Mp4,
    Mkv,
    Mov,
    Avi,
    Webm,
    Wmv,
    Flv,
    M4v,
    Mpg,
    Swf,
    M2v,
    Hevc,
    M2ts,
    Mts,
    Ts,
}

/// Exactly one category per source file.
#[derive(Clone, Copy, PartialEq, Eq, Structural, Debug)]
pub enum MediaCategory {
    Image(ImageExtension),
    Document(DocumentExtension),
    Video(VideoExtension),
    Unsupported,
}

/// Character-wise string equality over the views.
pub fn str_eq(a: &str, b: &str) -> (r: bool)
    ensures
        r == (a@ == b@),
{
    let na = a.unicode_len();
    let nb = b.unicode_len();
    if na != nb {
        proof {
            assert(a@.len() != b@.len());
        }
        return false;
    }
    let mut i: usize = 0;
    while i < na
        invariant
            na == a@.len(),
            na == b@.len(),
            i <= na,
            forall|j: int| 0 <= j < i ==> a@[j] == b@[j],
        decreases na - i,
    {
        if a.get_char(i) != b.get_char(i) {
            return false;
        }
        i = i + 1;
    }
    proof {
        assert(a@ =~= b@);
    }
    true
}

/// Which image extension a lowercase extension string names, if any.
pub open spec fn image_extension_spec(s: Seq<char>) -> Option<ImageExtension> {
    if s == "jpg"@ {
        Some(ImageExtension::Jpg)
    } else if s == "jpeg"@ {
        Some(ImageExtension::Jpeg)
    } else if s == "png"@ {
        Some(ImageExtension::Png)
    } else if s == "webp"@ {
        Some(ImageExtension::Webp)
    } else if s == "gif"@ {
        Some(ImageExtension::Gif)
    } else if s == "svg"@ {
        Some(ImageExtension::Svg)
    } else if s == "heic"@ {
        Some(ImageExtension::Heic)
    } else if s == "heics"@ {
        Some(ImageExtension::Heics)
    } else if s == "heif"@ {
        Some(ImageExtension::Heif)
    } else if s == "heifs"@ {
        Some(ImageExtension::Heifs)
    } else if s == "avif"@ {
        Some(ImageExtension::Avif)
    } else if s == "bmp"@ {
        Some(ImageExtension::Bmp)
    } else if s == "ico"@ {
        Some(ImageExtension::Ico)
    } else if s == "tiff"@ {
        Some(ImageExtension::Tiff)
    } else {
        None
    }
}

/// Which document extension a lowercase extension string names, if any.
pub open spec fn document_extension_spec(s: Seq<char>) -> Option<DocumentExtension> {
    if s == "pdf"@ {
        Some(DocumentExtension::Pdf)
    } else if s == "doc"@ {
        Some(DocumentExtension::Doc)
    } else if s == "docx"@ {
        Some(DocumentExtension::Docx)
    } else if s == "xls"@ {
        Some(DocumentExtension::Xls)
    } else if s == "xlsx"@ {
        Some(DocumentExtension::Xlsx)
    } else if s == "ppt"@ {
        Some(DocumentExtension::Ppt)
    } else if s == "pptx"@ {
        Some(DocumentExtension::Pptx)
    } else {
        None
    }
}

/// Which video extension a lowercase extension string names, if any.
pub open spec fn video_extension_spec(s: Seq<char>) -> Option<VideoExtension> {
    if s == "mp4"@ {
        Some(VideoExtension::Mp4)
    } else if s == "mkv"@ {
        Some(VideoExtension::Mkv)
    } else if s == "mov"@ {
        Some(VideoExtension::Mov)
    } else if s == "avi"@ {
        Some(VideoExtension::Avi)
    } else if s == "webm"@ {
        Some(VideoExtension::Webm)
    } else if s == "wmv"@ {
        Some(VideoExtension::Wmv)
    } else if s == "flv"@ {
        Some(VideoExtension::Flv)
    } else if s == "m4v"@ {
        Some(VideoExtension::M4v)
    } else if s == "mpg"@ {
        Some(VideoExtension::Mpg)
    } else if s == "swf"@ {
        Some(VideoExtension::Swf)
    } else if s == "m2v"@ {
        Some(VideoExtension::M2v)
    } else if s == "hevc"@ {
        Some(VideoExtension::Hevc)
    } else if s == "m2ts"@ {
        Some(VideoExtension::M2ts)
    } else if s == "mts"@ {
        Some(VideoExtension::Mts)
    } else if s == "ts"@ {
        Some(VideoExtension::Ts)
    } else {
        None
    }
}

/// The thumbnailer can decode every recognized image format except TIFF.
pub open spec fn can_image_spec(e: ImageExtension) -> bool {
    e != ImageExtension::Tiff
}

/// Of the documents, only PDF is thumbnailable.
pub open spec fn can_document_spec(e: DocumentExtension) -> bool {
    e == DocumentExtension::Pdf
}

/// Video formats specifically excluded from thumbnailing.
pub open spec fn can_video_spec(e: VideoExtension) -> bool {
    !(e == VideoExtension::Mpg || e == VideoExtension::Swf || e == VideoExtension::M2v || e
        == VideoExtension::Hevc || e == VideoExtension::M2ts || e == VideoExtension::Mts || e
        == VideoExtension::Ts)
}

/// Orientation metadata is honored for every decodable image format
/// except the HEIF family, whose container defines orientation
/// differently; applying the rotation again there would be wrong.
pub open spec fn should_rotate_spec(e: ImageExtension) -> bool {
    !(e == ImageExtension::Heic || e == ImageExtension::Heics || e == ImageExtension::Heif || e
        == ImageExtension::Heifs)
}

/// Whether orientation correction applies to this image format.
pub fn should_apply_orientation(image_extension: ImageExtension) -> (r: bool)
    ensures
        r == should_rotate_spec(image_extension),
{
    !matches!(
        image_extension,
        ImageExtension::Heic | ImageExtension::Heics | ImageExtension::Heif | ImageExtension::Heifs
    )
}

/// Whether the thumbnailer can decode this image format.
pub fn can_generate_thumbnail_for_image(image_extension: ImageExtension) -> (r: bool)
    ensures
        r == can_image_spec(image_extension),
{
    !matches!(image_extension, ImageExtension::Tiff)
}

/// Whether the thumbnailer can render this document format.
pub fn can_generate_thumbnail_for_document(document_extension: DocumentExtension) -> (r: bool)
    ensures
        r == can_document_spec(document_extension),
{
    matches!(document_extension, DocumentExtension::Pdf)
}

/// Whether the thumbnailer can extract a frame from this video format.
pub fn can_generate_thumbnail_for_video(video_extension: VideoExtension) -> (r: bool)
    ensures
        r == can_video_spec(video_extension),
{
    !matches!(
        video_extension,
        VideoExtension::Mpg
        | VideoExtension::Swf
        | VideoExtension::M2v
        | VideoExtension::Hevc
        | VideoExtension::M2ts
        | VideoExtension::Mts
        | VideoExtension::Ts
    )
}

/// The category an extension falls in. An extension that is recognized
/// but not thumbnailable, or not recognized at all, is `Unsupported`:
/// thumbnailing it is a silent no-op, never an error. Video counts only
/// when the host can decode video (`video_capability`).
pub open spec fn classify_spec(s: Seq<char>, video_capability: bool) -> MediaCategory {
    if image_extension_spec(s) is Some {
        let e = image_extension_spec(s)->0;
        if can_image_spec(e) {
            MediaCategory::Image(e)
        } else {
            MediaCategory::Unsupported
        }
    } else if document_extension_spec(s) is Some {
        let e = document_extension_spec(s)->0;
        if can_document_spec(e) {
            MediaCategory::Document(e)
        } else {
            MediaCategory::Unsupported
        }
    } else if video_extension_spec(s) is Some {
        let e = video_extension_spec(s)->0;
        if video_capability && can_video_spec(e) {
            MediaCategory::Video(e)
        } else {
            MediaCategory::Unsupported
        }
    } else {
        MediaCategory::Unsupported
    }
}

/// Parses a lowercase extension string as an image format.
pub fn parse_image_extension(s: &str) -> (r: Option<ImageExtension>)
    ensures
        r == image_extension_spec(s@),
{
    if str_eq(s, "jpg") {
        Some(ImageExtension::Jpg)
    } else if str_eq(s, "jpeg") {
        Some(ImageExtension::Jpeg)
    } else if str_eq(s, "png") {
        Some(ImageExtension::Png)
    } else if str_eq(s, "webp") {
        Some(ImageExtension::Webp)
    } else if str_eq(s, "gif") {
        Some(ImageExtension::Gif)
    } else if str_eq(s, "svg") {
        Some(ImageExtension::Svg)
    } else if str_eq(s, "heic") {
        Some(ImageExtension::Heic)
    } else if str_eq(s, "heics") {
        Some(ImageExtension::Heics)
    } else if str_eq(s, "heif") {
        Some(ImageExtension::Heif)
    } else if str_eq(s, "heifs") {
        Some(ImageExtension::Heifs)
    } else if str_eq(s, "avif") {
        Some(ImageExtension::Avif)
    } else if str_eq(s, "bmp") {
        Some(ImageExtension::Bmp)
    } else if str_eq(s, "ico") {
        Some(ImageExtension::Ico)
    } else if str_eq(s, "tiff") {
        Some(ImageExtension::Tiff)
    } else {
        None
    }
}

/// Parses a lowercase extension string as a document format.
pub fn parse_document_extension(s: &str) -> (r: Option<DocumentExtension>)
    ensures
        r == document_extension_spec(s@),
{
    if str_eq(s, "pdf") {
        Some(DocumentExtension::Pdf)
    } else if str_eq(s, "doc") {
        Some(DocumentExtension::Doc)
    } else if str_eq(s, "docx") {
        Some(DocumentExtension::Docx)
    } else if str_eq(s, "xls") {
        Some(DocumentExtension::Xls)
    } else if str_eq(s, "xlsx") {
        Some(DocumentExtension::Xlsx)
    } else if str_eq(s, "ppt") {
        Some(DocumentExtension::Ppt)
    } else if str_eq(s, "pptx") {
        Some(DocumentExtension::Pptx)
    } else {
        None
    }
}

/// Parses a lowercase extension string as a video format.
pub fn parse_video_extension(s: &str) -> (r: Option<VideoExtension>)
    ensures
        r == video_extension_spec(s@),
{
    if str_eq(s, "mp4") {
        Some(VideoExtension::Mp4)
    } else if str_eq(s, "mkv") {
        Some(VideoExtension::Mkv)
    } else if str_eq(s, "mov") {
        Some(VideoExtension::Mov)
    } else if str_eq(s, "avi") {
        Some(VideoExtension::Avi)
    } else if str_eq(s, "webm") {
        Some(VideoExtension::Webm)
    } else if str_eq(s, "wmv") {
        Some(VideoExtension::Wmv)
    } else if str_eq(s, "flv") {
        Some(VideoExtension::Flv)
    } else if str_eq(s, "m4v") {
        Some(VideoExtension::M4v)
    } else if str_eq(s, "mpg") {
        Some(VideoExtension::Mpg)
    } else if str_eq(s, "swf") {
        Some(VideoExtension::Swf)
    } else if str_eq(s, "m2v") {
        Some(VideoExtension::M2v)
    } else if str_eq(s, "hevc") {
        Some(VideoExtension::Hevc)
    } else if str_eq(s, "m2ts") {
        Some(VideoExtension::M2ts)
    } else if str_eq(s, "mts") {
        Some(VideoExtension::Mts)
    } else if str_eq(s, "ts") {
        Some(VideoExtension::Ts)
    } else {
        None
    }
}

/// Classifies an extension string into its media category.
pub fn classify_extension(s: &str, video_capability: bool) -> (r: MediaCategory)
    ensures
        r == classify_spec(s@, video_capability),
{
    if let Some(e) = parse_image_extension(s) {
        if can_generate_thumbnail_for_image(e) {
            MediaCategory::Image(e)
        } else {
            MediaCategory::Unsupported
        }
    } else if let Some(e) = parse_document_extension(s) {
        if can_generate_thumbnail_for_document(e) {
            MediaCategory::Document(e)
        } else {
            MediaCategory::Unsupported
        }
    } else if let Some(e) = parse_video_extension(s) {
        if video_capability && can_generate_thumbnail_for_video(e) {
            MediaCategory::Video(e)
        } else {
            MediaCategory::Unsupported
        }
    } else {
        MediaCategory::Unsupported
    }
}

} // verus!
