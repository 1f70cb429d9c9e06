//! The JPEG compressor: decode, bring upright from the EXIF orientation, fit to
//! the configured size, then re-encode with the configured encoder settings.
use vstd::prelude::*;
use crate::codec::{self, jpeg_encoded, rgba_decoded, rgba_oriented};
use crate::config_json::JpegConfig;
use crate::error::CompressorError;
use crate::images::pixel_count;
use crate::options::{orientation_of, orientation_transform, resize_filter, scan_mode_named, scan_mode_of, ScanMode};
use crate::pixels::{rgb_from_rgba, rgba_to_rgb};
use crate::png_compressor::fitted;

verus! {

/// The scan mode the settings name, if any.
pub open spec fn scan_mode_setting(config: JpegConfig) -> Option<ScanMode> {
    match config.scan_optimization_mode {
        Some(m) => Some(scan_mode_named(m@)),
        None => None,
    }
}

/// Whether the EXIF orientation is applied: only under explicit settings that
/// drop the EXIF data, and only where the file has an orientation.
pub open spec fn orients(config: JpegConfig, configured: bool, orientation: Option<u16>) -> bool {
    configured && config.exif@ == "none"@ && orientation is Some
}

/// The JPEG file the compressor makes of `input`, or `None` where a step fails.
pub open spec fn jpeg_result(config: JpegConfig, configured: bool, input: Seq<u8>, orientation: Option<u16>) -> Option<Seq<u8>> {
    match rgba_decoded(input) {
        None => None,
        Some((w0, h0, px0)) => {
            let (w1, h1, px1) = if orients(config, configured, orientation) {
                rgba_oriented(px0, w0 as nat, h0 as nat, orientation_of(orientation.unwrap()))
            } else {
                (w0, h0, px0)
            };
            let (w, h, px) = fitted(config.size, w1, h1, px1);
            if w < 1 || h < 1 || w > 65500 || h > 65500 || 8 * (w * h) > usize::MAX {
                None
            } else {
                Some(
                    jpeg_encoded(
                        rgb_from_rgba(px),
                        w as nat,
                        h as nat,
                        config.quality as nat,
                        scan_mode_setting(config),
                        config.progressive_mode,
                        config.optimize_coding,
                        config.use_scans_in_trellis,
                        config.smoothing_factor as nat,
                    ),
                )
            }
        },
    }
}

/// Compresses a JPEG file (or any image the decoder reads) to a JPEG file.
/// `configured` says whether the settings were given or are the defaults;
/// `orientation` is the file's EXIF orientation, where it has one.
pub fn compress(config: &JpegConfig, configured: bool, input: &[u8], orientation: Option<u16>) -> (r: Result<Vec<u8>, CompressorError>)
    ensures
        match r {
            Ok(v) => jpeg_result(*config, configured, input@, orientation) == Some(v@),
            Err(_) => jpeg_result(*config, configured, input@, orientation) is None,
        },
{
    let (mut width, mut height, mut rgba) = match codec::decode_rgba(input) {
        Some(decoded) => decoded,
        None => return Err(CompressorError::ImageDecodeError("cannot decode the image".to_owned())),
    };
    let ghost decoded = rgba_decoded(input@).unwrap();
    if configured && config.exif == "none".to_owned() {
        if let Some(value) = orientation {
            let (w, h, v) = match codec::orient_rgba(rgba, width, height, orientation_transform(value)) {
                Some(o) => o,
                None => return Err(CompressorError::ImageDecodeError("cannot orient the image".to_owned())),
            };
            width = w;
            height = h;
            rgba = v;
        }
    }
    let ghost upright = (width, height, rgba@);
    if let Some(size) = &config.size {
        if let Some(filter) = resize_filter(&size.filter) {
            match codec::resize_rgba_fit(rgba, width, height, size.width, size.height, filter) {
                Some((w, h, v)) => {
                    width = w;
                    height = h;
                    rgba = v;
                },
                None => return Err(CompressorError::ImageDecodeError("cannot resize the image".to_owned())),
            }
        }
    }
    assert((width, height, rgba@) == fitted(config.size, upright.0, upright.1, upright.2));
    if width < 1 || height < 1 || width > 65500 || height > 65500 || 8 * pixel_count(width, height) > usize::MAX as u128 {
        return Err(CompressorError::JpegCompressError("unsupported image size".to_owned()));
    }
    let rgb = rgba_to_rgb(&rgba);
    let scan_mode = match &config.scan_optimization_mode {
        Some(m) => Some(scan_mode_of(m)),
        None => None,
    };
    match codec::encode_jpeg(
        rgb.as_slice(),
        width,
        height,
        config.quality,
        scan_mode,
        config.progressive_mode,
        config.optimize_coding,
        config.use_scans_in_trellis,
        config.smoothing_factor,
    ) {
        Some(v) => Ok(v),
        None => Err(CompressorError::JpegCompressError("encoding failed".to_owned())),
    }
}

} // verus!
