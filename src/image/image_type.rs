//! Recognising a raster image's format from its first bytes.
use vstd::prelude::*;
use crate::file_type::{gif_signature, heif_signature, is_gif, is_heif, is_jpeg, is_png, is_webp, jpeg_signature, png_signature, webp_signature};

verus! {

/// The raster formats the compressor handles.
#[derive(Debug, PartialEq, Eq, Clone, Copy, Structural)]
pub enum ImageType {
    GIF,
    PNG,
    JPEG,
    WEBP,
    HEIF,
}

/// The format of an image whose first bytes are `b`, the first match in the
/// order GIF, PNG, JPEG, WebP, HEIF.
pub open spec fn image_type_of(b: Seq<u8>) -> Option<ImageType> {
    if gif_signature(b) {
        Some(ImageType::GIF)
    } else if png_signature(b) {
        Some(ImageType::PNG)
    } else if jpeg_signature(b) {
        Some(ImageType::JPEG)
    } else if webp_signature(b) {
        Some(ImageType::WEBP)
    } else if heif_signature(b) {
        Some(ImageType::HEIF)
    } else {
        None
    }
}

/// Recognises an image's format from its first bytes (the caller reads up to 24).
pub fn image_type(buf: &[u8]) -> (r: Option<ImageType>)
    ensures
        r == image_type_of(buf@),
{
    if is_gif(buf) {
        Some(ImageType::GIF)
    } else if is_png(buf) {
        Some(ImageType::PNG)
    } else if is_jpeg(buf) {
        Some(ImageType::JPEG)
    } else if is_webp(buf) {
        Some(ImageType::WEBP)
    } else if is_heif(buf) {
        Some(ImageType::HEIF)
    } else {
        None
    }
}

} // verus!
