//! The PNG compressor: decode, fit to the configured size, optionally reduce to
//! a palette, then re-encode and optimize.
use vstd::prelude::*;
use crate::codec::{self, deflater_accepted, png_encoded, png_optimized, rgba_decoded, rgba_fitted};
use crate::config_json::{PngConfig, SizeFilterConfig};
use crate::error::CompressorError;
use crate::images::{pixel_count, QUANTIZER_MAX_COLORS, QUANTIZER_SPEED};
use crate::options::{
    deflater_choice, deflater_of, interlacing_named, Deflater, interlacing_of, resize_filter, resize_filter_named,
    strip_chunks, strip_chunks_of,
};
use crate::pixels::{indices_in_palette, render_palette, rgba_from_palette};

verus! {

/// The decoded raster once fitted into the configured size, where a known filter
/// is named.
pub open spec fn fitted(size: Option<SizeFilterConfig>, w: u32, h: u32, px: Seq<u8>) -> (u32, u32, Seq<u8>) {
    match size {
        Some(size) => match resize_filter_named(size.filter@) {
            Some(f) => rgba_fitted(px, w as nat, h as nat, size.width as nat, size.height as nat, f),
            None => (w, h, px),
        },
        None => (w, h, px),
    }
}

/// The PNG file made of an RGBA raster: encoded, then optimized with the
/// configured preset, chunk stripping, interlacing and alpha handling.
pub open spec fn png_of_raster(config: PngConfig, deflater: Deflater, w: u32, h: u32, rgba: Seq<u8>) -> Option<Seq<u8>> {
    png_optimized(
        png_encoded(rgba, w as nat, h as nat),
        config.quality as nat,
        strip_chunks_of(config.strip@),
        interlacing_named(config.interlacing@),
        config.optimize_alpha,
        deflater,
    )
}

/// The deflater, size and RGBA raster the compressor works on before any
/// palette reduction: `None` where the settings are refused, the input is no
/// image, or the fitted size is unusable.
pub open spec fn png_prepared(config: PngConfig, input: Seq<u8>) -> Option<(Deflater, u32, u32, Seq<u8>)> {
    match deflater_of(config) {
        None => None,
        Some(deflater) => match rgba_decoded(input) {
            None => None,
            Some((w0, h0, px0)) => {
                let (w, h, px) = fitted(config.size, w0, h0, px0);
                if w < 1 || h < 1 || w > 0x7fff_ffff || h > 0x7fff_ffff {
                    None
                } else {
                    Some((deflater, w, h, px))
                }
            },
        },
    }
}

/// The raster that palette indices stand for, where they are one per pixel of
/// an image of `width` by `height` and inside the palette.
pub fn palette_raster(palette: &Vec<u8>, indices: &Vec<u8>, width: u32, height: u32) -> (r: Option<Vec<u8>>)
    requires
        8 * (width * height) <= usize::MAX,
    ensures
        match r {
            Some(v) => indices@.len() == width * height && indices_in_palette(palette@, indices@) && v@
                == rgba_from_palette(palette@, indices@),
            None => !(indices@.len() == width * height && indices_in_palette(palette@, indices@)),
        },
{
    if indices.len() as u128 != pixel_count(width, height) {
        return None;
    }
    render_palette(palette, indices)
}

/// Encodes and optimizes an RGBA raster as a PNG file.
pub fn png_from_raster(config: &PngConfig, deflater: Deflater, width: u32, height: u32, rgba: &Vec<u8>) -> (r: Result<Vec<u8>, CompressorError>)
    requires
        rgba@.len() == 4 * (width * height),
        1 <= width <= 0x7fff_ffff,
        1 <= height <= 0x7fff_ffff,
        deflater_accepted(deflater),
    ensures
        match r {
            Ok(v) => png_of_raster(*config, deflater, width, height, rgba@) == Some(v@),
            Err(_) => png_of_raster(*config, deflater, width, height, rgba@) is None,
        },
{
    let png = match codec::encode_png(rgba.as_slice(), width, height) {
        Some(v) => v,
        None => return Err(CompressorError::PngOptimizeError("cannot encode the image".to_owned())),
    };
    match codec::optimize_png(
        png.as_slice(),
        config.quality,
        strip_chunks(&config.strip),
        interlacing_of(&config.interlacing),
        config.optimize_alpha,
        deflater,
    ) {
        Some(v) => Ok(v),
        None => Err(CompressorError::PngOptimizeError("optimization failed".to_owned())),
    }
}

/// Compresses a PNG file (or any image the decoder reads) to an optimized PNG.
/// Settings that name a libdeflate level above 12 or Zopfli with no iterations
/// are refused before any work. Without lossy settings the result is exact; with
/// them it is the PNG of some palette raster the quantizer may return.
pub fn compress(config: &PngConfig, input: &[u8]) -> (r: Result<Vec<u8>, CompressorError>)
    ensures
        png_prepared(*config, input@) is None ==> r is Err,
        png_prepared(*config, input@) matches Some((d, w, h, px)) ==> match config.lossy {
            None => match r {
                Ok(v) => png_of_raster(*config, d, w, h, px) == Some(v@),
                Err(_) => png_of_raster(*config, d, w, h, px) is None,
            },
            Some(_) => r matches Ok(v) ==> exists|p: Seq<u8>, ix: Seq<u8>|
                ix.len() == w * h && indices_in_palette(p, ix) && #[trigger] png_of_raster(
                    *config,
                    d,
                    w,
                    h,
                    rgba_from_palette(p, ix),
                ) == Some(v@),
        },
        deflater_of(*config) is None ==> r matches Err(CompressorError::ConfigError(_)),
{
    let deflater = match deflater_choice(config) {
        Some(d) => d,
        None => return Err(CompressorError::ConfigError("unsupported deflate settings".to_owned())),
    };
    let (mut width, mut height, mut rgba) = match codec::decode_rgba(input) {
        Some(decoded) => decoded,
        None => return Err(CompressorError::ImageDecodeError("cannot decode the image".to_owned())),
    };
    if let Some(size) = &config.size {
        if let Some(filter) = resize_filter(&size.filter) {
            match codec::resize_rgba_fit(rgba, width, height, size.width, size.height, filter) {
                Some((w, h, v)) => {
                    width = w;
                    height = h;
                    rgba = v;
                },
                None => return Err(CompressorError::ImageDecodeError("cannot resize the image".to_owned())),
            }
        }
    }
    assert((width, height, rgba@) == fitted(config.size, rgba_decoded(input@).unwrap().0, rgba_decoded(input@).unwrap().1, rgba_decoded(input@).unwrap().2));
    if width < 1 || height < 1 || width > 0x7fff_ffff || height > 0x7fff_ffff {
        return Err(CompressorError::PngOptimizeError("unsupported image size".to_owned()));
    }
    assert(png_prepared(*config, input@) == Some((deflater, width, height, rgba@)));
    if let Some(lossy) = &config.lossy {
        let pixels = pixel_count(width, height);
        if 8 * pixels > usize::MAX as u128 {
            return Err(CompressorError::PngOptimizeError("the image is too large".to_owned()));
        }
        let max_colors = match lossy.colors {
            Some(c) => c,
            None => QUANTIZER_MAX_COLORS,
        };
        let speed = match lossy.speed {
            Some(s) => s,
            None => QUANTIZER_SPEED,
        };
        let (palette, indices) = match codec::quantize_rgba(
            rgba.as_slice(),
            width as usize,
            height as usize,
            lossy.quality_min,
            lossy.quality_max,
            max_colors,
            speed,
        ) {
            Some(q) => q,
            None => return Err(CompressorError::PngOptimizeError("quantization failed".to_owned())),
        };
        let raster = match palette_raster(&palette, &indices, width, height) {
            Some(v) => v,
            None => return Err(CompressorError::PngOptimizeError("quantization failed".to_owned())),
        };
        let r = png_from_raster(config, deflater, width, height, &raster);
        assert(r matches Ok(v) ==> png_of_raster(*config, deflater, width, height, rgba_from_palette(palette@, indices@)) == Some(v@));
        r
    } else {
        png_from_raster(config, deflater, width, height, &rgba)
    }
}

} // verus!
