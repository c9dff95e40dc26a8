//! The resize and orientation steps of the image pipeline. The bitmap
//! itself is opaque — decoding and encoding live with the caller — but
//! the decisions of whether and to what dimensions to resample, and
//! whether an orientation correction applies, are this crate's logic,
//! proved against [`crate::scale`] and [`crate::extension`].

use vstd::prelude::*;
use crate::extension::{should_apply_orientation, should_rotate_spec, ImageExtension};
use crate::scale::{scale_dimensions, scaled_dimensions_spec};

verus! {

#[verifier::external_type_specification]
#[verifier::external_body]
pub struct ExDynamicImage(image::DynamicImage);

#[verifier::external_type_specification]
#[verifier::external_body]
pub struct ExOrientation(image::metadata::Orientation);

/// Relies on image::imageops::resize: resamples the bitmap to the given
/// dimensions with the triangle (bilinear-class) filter.
#[verifier::external_body]
fn resize_image(img: &image::DynamicImage, width: u32, height: u32) -> (r: image::DynamicImage) {
    image::DynamicImage::ImageRgba8(
        image::imageops::resize(img, width, height, image::imageops::FilterType::Triangle),
    )
}

/// Relies on image::DynamicImage::apply_orientation: rotates and flips
/// the bitmap as the given orientation metadata prescribes.
#[verifier::external_body]
fn apply_orientation_image(img: &mut image::DynamicImage, orientation: image::metadata::Orientation) {
    img.apply_orientation(orientation);
}

/// Brings a decoded bitmap within the pixel budget. The caller reads
/// the bitmap's dimensions and passes them in as plain values; the
/// bitmap is resampled exactly when both scaled dimensions differ from
/// the source's, and a bitmap that is not resampled is handed back
/// untouched. Returns the bitmap and whether it was resampled.
pub fn resize_to_budget(img: image::DynamicImage, width: u32, height: u32) -> (r: (
    image::DynamicImage,
    bool,
))
    ensures
        r.1 == (scaled_dimensions_spec(width, height).0 != width && scaled_dimensions_spec(
            width,
            height,
        ).1 != height),
        !r.1 ==> r.0 == img,
{
    let (scaled_width, scaled_height) = scale_dimensions(width, height);
    if scaled_width != width && scaled_height != height {
        (resize_image(&img, scaled_width, scaled_height), true)
    } else {
        (img, false)
    }
}

/// Corrects a decoded bitmap's rotation and flip from the orientation
/// its decoder reported, but only for formats where that metadata is
/// semantically meaningful: the HEIF family is skipped. Absent metadata
/// (`None`) is not an error — the bitmap passes through untouched.
/// Returns whether a correction was applied.
pub fn correct_orientation(
    img: &mut image::DynamicImage,
    orientation: Option<image::metadata::Orientation>,
    extension: ImageExtension,
) -> (applied: bool)
    ensures
        applied == (orientation is Some && should_rotate_spec(extension)),
        !applied ==> *final(img) == *old(img),
{
    match orientation {
        Some(o) => {
            if should_apply_orientation(extension) {
                apply_orientation_image(img, o);
                true
            } else {
                false
            }
        },
        None => false,
    }
}

} // verus!
