//! Calls into the outside codecs: colour management (lcms2), resampling and PNG
//! encoding (image), palette quantization (imagequant), JPEG encoding (mozjpeg),
//! zlib (flate2) and PNG optimization (oxipng). Each takes and returns plain
//! values.
use vstd::prelude::*;
use crate::options::{Deflater, Interlacing, Orientation, ResizeFilter, ScanMode, StripChunks};

verus! {

/// The sRGB samples that lcms2 makes of 8-bit gray samples read through the ICC
/// profile `icc` (perceptual intent), or `None` where the profile is refused.
pub uninterp spec fn srgb_gray_of(icc: Seq<u8>, gray: Seq<u8>) -> Option<Seq<u8>>;

/// The sRGB samples that lcms2 makes of 8-bit CMYK samples read through the ICC
/// profile `icc` (perceptual intent), or `None` where the profile is refused.
pub uninterp spec fn srgb_cmyk_of(icc: Seq<u8>, cmyk: Seq<u8>) -> Option<Seq<u8>>;

/// The packed RGB samples that image's Catmull-Rom resampling makes of `rgb`.
pub uninterp spec fn resized_rgb(rgb: Seq<u8>, width: nat, height: nat, new_width: nat, new_height: nat) -> Seq<u8>;

/// The JPEG file that mozjpeg writes for packed RGB samples with the given
/// settings (no scan mode: mozjpeg's own choice).
pub uninterp spec fn jpeg_encoded(
    rgb: Seq<u8>,
    width: nat,
    height: nat,
    quality: nat,
    scan_mode: Option<ScanMode>,
    progressive: bool,
    optimize_coding: bool,
    use_scans_in_trellis: bool,
    smoothing_factor: nat,
) -> Seq<u8>;

/// The size and RGBA samples of the image crate's flip or rotation of an RGBA
/// raster.
pub uninterp spec fn rgba_oriented(rgba: Seq<u8>, width: nat, height: nat, orientation: Orientation) -> (u32, u32, Seq<u8>);

/// The bytes that zlib decompression of `data` yields, or `None` where `data`
/// is not a valid zlib stream.
pub uninterp spec fn zlib_inflate(data: Seq<u8>) -> Option<Seq<u8>>;

/// The bytes that zlib compression of `data`, at flate2's default level, yields.
pub uninterp spec fn zlib_deflated(data: Seq<u8>) -> Seq<u8>;

/// The PNG file that the image crate writes for 8-bit RGBA samples of the given size.
pub uninterp spec fn png_encoded(rgba: Seq<u8>, width: nat, height: nat) -> Seq<u8>;

/// The size and RGBA samples that the image crate decodes from `bytes`, or
/// `None` where it recognises no image.
pub uninterp spec fn rgba_decoded(bytes: Seq<u8>) -> Option<(u32, u32, Seq<u8>)>;

/// The size and RGBA samples of the image crate's aspect-keeping resize of an
/// RGBA raster into the given bounds.
pub uninterp spec fn rgba_fitted(
    rgba: Seq<u8>,
    width: nat,
    height: nat,
    bound_width: nat,
    bound_height: nat,
    filter: ResizeFilter,
) -> (u32, u32, Seq<u8>);

/// The PNG file that oxipng makes of `png` with the given preset and settings,
/// or `None` where oxipng reports an error.
pub uninterp spec fn png_optimized(
    png: Seq<u8>,
    preset: nat,
    strip: StripChunks,
    interlacing: Interlacing,
    optimize_alpha: bool,
    deflater: Deflater,
) -> Option<Seq<u8>>;

/// A deflater setting oxipng takes without panicking: libdeflate knows levels 0
/// to 12, and Zopfli needs at least one iteration.
pub open spec fn deflater_accepted(deflater: Deflater) -> bool {
    match deflater {
        Deflater::Libdeflater(level) => level <= 12,
        Deflater::Zopfli(n) => n >= 1,
        Deflater::Default => true,
    }
}

/// Relies on lcms2's `Profile::new_icc`, `Profile::new_srgb`, `Transform::new` and
/// `Transform::transform_pixels`: converts 8-bit gray samples, read through the
/// given ICC profile, to 8-bit sRGB with perceptual intent, one RGB triple per
/// sample. `None` where the profile is refused.
#[verifier::external_body]
pub(crate) fn srgb_from_gray(icc: &[u8], gray: &[u8], out_len: usize) -> (r: Option<Vec<u8>>)
    requires
        out_len == 3 * gray@.len(),
        gray@.len() <= u32::MAX,
    ensures
        r matches Some(v) ==> v@.len() == out_len,
        match r {
            Some(v) => srgb_gray_of(icc@, gray@) == Some(v@),
            None => srgb_gray_of(icc@, gray@) is None,
        },
{
    let input = lcms2::Profile::new_icc(icc).ok()?;
    let output = lcms2::Profile::new_srgb();
    let transform = lcms2::Transform::<u8, u8>::new(
        &input, lcms2::PixelFormat::GRAY_8, &output, lcms2::PixelFormat::RGB_8, lcms2::Intent::Perceptual,
    ).ok()?;
    let mut out = vec![0u8; out_len];
    transform.transform_pixels(gray, &mut out);
    Some(out)
}

/// Relies on lcms2's `Profile::new_icc`, `Profile::new_srgb`, `Transform::new` and
/// `Transform::transform_pixels`: converts 8-bit CMYK samples, read through the
/// given ICC profile, to 8-bit sRGB with perceptual intent, one RGB triple per
/// CMYK quadruple. `None` where the profile is refused.
#[verifier::external_body]
pub(crate) fn srgb_from_cmyk(icc: &[u8], cmyk: &[u8], out_len: usize) -> (r: Option<Vec<u8>>)
    requires
        cmyk@.len() % 4 == 0,
        out_len == 3 * (cmyk@.len() / 4),
        cmyk@.len() / 4 <= u32::MAX,
    ensures
        r matches Some(v) ==> v@.len() == out_len,
        match r {
            Some(v) => srgb_cmyk_of(icc@, cmyk@) == Some(v@),
            None => srgb_cmyk_of(icc@, cmyk@) is None,
        },
{
    let input = lcms2::Profile::new_icc(icc).ok()?;
    let output = lcms2::Profile::new_srgb();
    let transform = lcms2::Transform::<u8, u8>::new(
        &input, lcms2::PixelFormat::CMYK_8, &output, lcms2::PixelFormat::RGB_8, lcms2::Intent::Perceptual,
    ).ok()?;
    let mut out = vec![0u8; out_len];
    transform.transform_pixels(cmyk, &mut out);
    Some(out)
}

/// Relies on image's `ImageBuffer::from_raw` and `imageops::resize` with the
/// Catmull-Rom filter: resamples packed RGB samples of `width` by `height` to
/// `new_width` by `new_height`, whose buffer holds three bytes per pixel.
#[verifier::external_body]
pub(crate) fn resize_rgb(rgb: Vec<u8>, width: u32, height: u32, new_width: u32, new_height: u32) -> (r: Option<Vec<u8>>)
    requires
        rgb@.len() == 3 * (width * height),
    ensures
        r is Some,
        r.unwrap()@.len() == 3 * (new_width * new_height),
        r.unwrap()@ == resized_rgb(rgb@, width as nat, height as nat, new_width as nat, new_height as nat),
{
    let image = image::RgbImage::from_raw(width, height, rgb)?;
    let resized = image::imageops::resize(&image, new_width, new_height, image::imageops::FilterType::CatmullRom);
    Some(resized.into_raw())
}

/// Relies on mozjpeg's `Compress` (`new` for RGB input, then
/// `set_scan_optimization_mode` where a mode is given, which resets libjpeg's
/// defaults and so comes before `set_size` and `set_quality`, `set_progressive_mode`
/// where asked, `set_optimize_coding`, `set_use_scans_in_trellis`,
/// `set_smoothing_factor`, `start_compress`, `write_scanlines`, `finish`):
/// encodes packed RGB samples as a JPEG file. libjpeg unwinds on a size of zero
/// or above 65500 and on too few scanlines, which `requires` leaves out; on the
/// rest every step returns `Ok`.
#[verifier::external_body]
pub(crate) fn encode_jpeg(
    rgb: &[u8],
    width: u32,
    height: u32,
    quality: u8,
    scan_mode: Option<ScanMode>,
    progressive: bool,
    optimize_coding: bool,
    use_scans_in_trellis: bool,
    smoothing_factor: u8,
) -> (r: Option<Vec<u8>>)
    requires
        1 <= width <= 65500,
        1 <= height <= 65500,
        rgb@.len() == 3 * (width * height),
    ensures
        r is Some,
        r.unwrap()@ == jpeg_encoded(
            rgb@,
            width as nat,
            height as nat,
            quality as nat,
            scan_mode,
            progressive,
            optimize_coding,
            use_scans_in_trellis,
            smoothing_factor as nat,
        ),
{
    let mut c = mozjpeg::Compress::new(mozjpeg::ColorSpace::JCS_RGB);
    match scan_mode { Some(ScanMode::AllComponentsTogether) => c.set_scan_optimization_mode(mozjpeg::ScanMode::AllComponentsTogether), Some(ScanMode::ScanPerComponent) => c.set_scan_optimization_mode(mozjpeg::ScanMode::ScanPerComponent), Some(ScanMode::Auto) => c.set_scan_optimization_mode(mozjpeg::ScanMode::Auto), None => {} }
    c.set_size(width as usize, height as usize);
    c.set_quality(quality.into());
    if progressive { c.set_progressive_mode(); }
    c.set_optimize_coding(optimize_coding);
    c.set_use_scans_in_trellis(use_scans_in_trellis);
    c.set_smoothing_factor(smoothing_factor);
    let mut started = c.start_compress(Vec::new()).ok()?;
    started.write_scanlines(rgb).ok()?;
    started.finish().ok()
}

/// Relies on image's `ImageBuffer::from_raw` and the `DynamicImage` flips and
/// rotations (`fliph`, `flipv`, `rotate90`, `rotate180`, `rotate270`, each
/// orientation one call or one rotation then a horizontal flip).
#[verifier::external_body]
pub(crate) fn orient_rgba(rgba: Vec<u8>, width: u32, height: u32, orientation: Orientation) -> (r: Option<(u32, u32, Vec<u8>)>)
    requires
        rgba@.len() == 4 * (width * height),
    ensures
        r is Some,
        r.unwrap().2@.len() == 4 * (r.unwrap().0 * r.unwrap().1),
        (r.unwrap().0, r.unwrap().1, r.unwrap().2@) == rgba_oriented(rgba@, width as nat, height as nat, orientation),
{
    let i = image::DynamicImage::ImageRgba8(image::RgbaImage::from_raw(width, height, rgba)?);
    let out = match orientation {
        Orientation::Upright => i,
        Orientation::FlipHorizontal => i.fliph(),
        Orientation::Rotate180 => i.rotate180(),
        Orientation::FlipVertical => i.flipv(),
        Orientation::Rotate90FlipHorizontal => i.rotate90().fliph(),
        Orientation::Rotate90 => i.rotate90(),
        Orientation::Rotate270FlipHorizontal => i.rotate270().fliph(),
        Orientation::Rotate270 => i.rotate270(),
    }.to_rgba8();
    Some((out.width(), out.height(), out.into_raw()))
}

/// Relies on imagequant's `new`, `Attributes::set_quality`, `set_max_colors`,
/// `set_speed`, `new_image` (default gamma), `quantize` and
/// `QuantizationResult::remapped`: a palette as packed RGBA bytes and palette
/// indices. `None` where imagequant reports an error (a quality range, color
/// count or speed it refuses, a size that does not match). Nothing more is
/// stated: with its threads, imagequant's dithering and k-means may give other
/// results on another machine or in another run, so callers check what comes
/// back.
#[verifier::external_body]
pub(crate) fn quantize_rgba(
    rgba: &[u8],
    width: usize,
    height: usize,
    quality_min: u8,
    quality_max: u8,
    max_colors: u32,
    speed: i32,
) -> (r: Option<(Vec<u8>, Vec<u8>)>)
    requires
        rgba@.len() == 4 * (width * height),
{
    let mut attr = imagequant::new();
    attr.set_quality(quality_min, quality_max).ok()?;
    attr.set_max_colors(max_colors).ok()?;
    attr.set_speed(speed).ok()?;
    let pixels = rgb::FromSlice::as_rgba(rgba).to_vec();
    let mut image = attr.new_image(pixels, width, height, Default::default()).ok()?;
    let mut result = attr.quantize(&mut image).ok()?;
    let (palette, indices) = result.remapped(&mut image).ok()?;
    Some((rgb::ComponentBytes::as_bytes(&palette[..]).to_vec(), indices))
}

/// Relies on image's `PngEncoder::write_image` with 8-bit RGBA samples, which
/// panics unless the buffer holds four bytes per pixel; the png crate refuses a
/// side of zero or above 2^31 - 1, and writing into a vector does not fail.
#[verifier::external_body]
pub(crate) fn encode_png(rgba: &[u8], width: u32, height: u32) -> (r: Option<Vec<u8>>)
    requires
        rgba@.len() == 4 * (width * height),
        1 <= width <= 0x7fff_ffff,
        1 <= height <= 0x7fff_ffff,
    ensures
        r is Some,
        r.unwrap()@ == png_encoded(rgba@, width as nat, height as nat),
{
    let mut out = Vec::new();
    let encoder = image::codecs::png::PngEncoder::new(&mut out);
    image::ImageEncoder::write_image(encoder, rgba, width, height, image::ExtendedColorType::Rgba8).ok()?;
    Some(out)
}

/// Relies on flate2's `ZlibDecoder` read to the end: the decompressed bytes, or
/// `None` where the data is not a valid zlib stream.
#[verifier::external_body]
pub(crate) fn zlib_decompress(data: &[u8]) -> (r: Option<Vec<u8>>)
    ensures
        match r {
            Some(v) => zlib_inflate(data@) == Some(v@),
            None => zlib_inflate(data@) is None,
        },
{
    let mut decoder = flate2::read::ZlibDecoder::new(data);
    let mut out = Vec::new();
    std::io::Read::read_to_end(&mut decoder, &mut out).ok()?;
    Some(out)
}

/// Relies on flate2's `ZlibEncoder` at `Compression::default()`, written whole
/// and finished: the compressed bytes. Writing into a vector does not fail.
#[verifier::external_body]
pub(crate) fn zlib_compress(data: &[u8]) -> (r: Option<Vec<u8>>)
    ensures
        r is Some,
        r.unwrap()@ == zlib_deflated(data@),
{
    let mut encoder = flate2::write::ZlibEncoder::new(Vec::new(), flate2::Compression::default());
    std::io::Write::write_all(&mut encoder, data).ok()?;
    encoder.finish().ok()
}

/// Relies on image's `load_from_memory` (format guessed from the bytes) and
/// `DynamicImage::to_rgba8`: the size and the 8-bit RGBA samples of the image.
#[verifier::external_body]
pub(crate) fn decode_rgba(bytes: &[u8]) -> (r: Option<(u32, u32, Vec<u8>)>)
    ensures
        r matches Some((w, h, v)) ==> v@.len() == 4 * (w * h),
        match r {
            Some((w, h, v)) => rgba_decoded(bytes@) == Some((w, h, v@)),
            None => rgba_decoded(bytes@) is None,
        },
{
    let image = image::load_from_memory(bytes).ok()?.to_rgba8();
    Some((image.width(), image.height(), image.into_raw()))
}

/// Relies on image's `ImageBuffer::from_raw`, `DynamicImage::resize` (the largest
/// size within the bounds that keeps the aspect ratio) and `to_rgba8`.
#[verifier::external_body]
pub(crate) fn resize_rgba_fit(
    rgba: Vec<u8>,
    width: u32,
    height: u32,
    bound_width: u32,
    bound_height: u32,
    filter: ResizeFilter,
) -> (r: Option<(u32, u32, Vec<u8>)>)
    requires
        rgba@.len() == 4 * (width * height),
    ensures
        r is Some,
        r.unwrap().2@.len() == 4 * (r.unwrap().0 * r.unwrap().1),
        (r.unwrap().0, r.unwrap().1, r.unwrap().2@) == rgba_fitted(
            rgba@,
            width as nat,
            height as nat,
            bound_width as nat,
            bound_height as nat,
            filter,
        ),
{
    let buffer = image::RgbaImage::from_raw(width, height, rgba)?;
    let filter = match filter {
        ResizeFilter::Nearest => image::imageops::FilterType::Nearest,
        ResizeFilter::Triangle => image::imageops::FilterType::Triangle,
        ResizeFilter::CatmullRom => image::imageops::FilterType::CatmullRom,
        ResizeFilter::Gaussian => image::imageops::FilterType::Gaussian,
        ResizeFilter::Lanczos3 => image::imageops::FilterType::Lanczos3,
    };
    let out = image::DynamicImage::ImageRgba8(buffer).resize(bound_width, bound_height, filter).to_rgba8();
    Some((out.width(), out.height(), out.into_raw()))
}

/// Relies on oxipng's `Options::from_preset`, its `strip`, `interlace`,
/// `optimize_alpha` and `deflate` settings, and `optimize_from_memory`: the
/// optimized PNG file, or `None` where oxipng reports an error. oxipng unwraps
/// the libdeflate level and the Zopfli iteration count, which `requires` keeps
/// in range.
#[verifier::external_body]
pub(crate) fn optimize_png(
    png: &[u8],
    preset: u8,
    strip: StripChunks,
    interlacing: Interlacing,
    optimize_alpha: bool,
    deflater: Deflater,
) -> (r: Option<Vec<u8>>)
    requires
        deflater_accepted(deflater),
    ensures
        match r {
            Some(v) => png_optimized(png@, preset as nat, strip, interlacing, optimize_alpha, deflater) == Some(v@),
            None => png_optimized(png@, preset as nat, strip, interlacing, optimize_alpha, deflater) is None,
        },
{
    let mut o = oxipng::Options::from_preset(preset);
    o.strip = match strip { StripChunks::Safe => oxipng::StripChunks::Safe, StripChunks::All => oxipng::StripChunks::All, StripChunks::Keep => oxipng::StripChunks::None };
    o.interlace = Some(match interlacing { Interlacing::Adam7 => oxipng::Interlacing::Adam7, Interlacing::Plain => oxipng::Interlacing::None });
    o.optimize_alpha = optimize_alpha;
    o.deflate = match deflater {
        Deflater::Libdeflater(compression) => oxipng::Deflaters::Libdeflater { compression },
        Deflater::Zopfli(n) => oxipng::Deflaters::Zopfli { iterations: std::num::NonZeroU8::new(n)? },
        Deflater::Default => o.deflate,
    };
    oxipng::optimize_from_memory(png, &o).ok()
}

} // verus!
