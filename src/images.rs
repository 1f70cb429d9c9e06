//! Image recompression: every image stream of the document is re-encoded in
//! place, under its own id.
use vstd::prelude::*;
use crate::codec::{self, jpeg_encoded, png_encoded, resized_rgb, srgb_cmyk_of, srgb_gray_of, zlib_deflated, zlib_inflate};
use crate::config_json::PdfConfig;
use crate::document::Document;
use crate::options::ScanMode;
use crate::names;
use crate::object::{Dictionary, Object, ObjectId, Stream};
use crate::pixels::{self, indices_in_palette, rgba_from_gray, rgba_from_palette, rgba_from_rgb};
use crate::scale::{downscale_dimensions, lemma_downscale_bounds, target_size};

verus! {

/// The pixel layout a JPEG decoder reports.
#[derive(Clone, Copy, Debug, PartialEq, Eq, Structural)]
pub enum PixelFormat {
    Rgb,
    Gray,
    Cmyk,
}

/// A decoded JPEG image: packed 8-bit samples, row by row.
#[derive(Debug)]
pub struct DecodedJpeg {
    pub format: PixelFormat,
    pub width: u32,
    pub height: u32,
    pub samples: Vec<u8>,
}

/// ICC profiles that gray and CMYK samples are read through.
#[derive(Debug, Clone)]
pub struct ColorProfiles {
    pub gray: Vec<u8>,
    pub cmyk: Vec<u8>,
}

/// Why one image could not be recompressed.
#[derive(Clone, Copy, Debug, PartialEq, Eq, Structural)]
pub enum RecompressError {
    /// The image's description or samples are inconsistent.
    Malformed,
    /// The image's payload could not be decoded.
    Decode,
    /// Downscaling would leave a side of zero pixels.
    Unscalable,
    /// A codec refused its input.
    Codec,
}

/// The image that stopped a recompression run, and why.
#[derive(Clone, Copy, Debug)]
pub struct ImageFailure {
    pub id: ObjectId,
    pub error: RecompressError,
}

/// The palette size and speed the quantizer uses unless told otherwise.
pub const QUANTIZER_MAX_COLORS: u32 = 256;

pub const QUANTIZER_SPEED: i32 = 4;

/// How the pipeline treats an object.
#[derive(Clone, Copy, Debug, PartialEq, Eq, Structural)]
pub enum ImageKind {
    /// An image stream with the `DCTDecode` filter.
    Dct,
    /// An image stream with the `FlateDecode` filter and a gray (`true`) or RGB
    /// (`false`) device color space.
    Flate(bool),
    /// Anything else, left as it is.
    Untouched,
}

pub open spec fn name_is(o: Option<Object>, n: Seq<u8>) -> bool {
    match o {
        Some(Object::Name(v)) => v@ == n,
        _ => false,
    }
}

pub open spec fn int_is(o: Option<Object>, i: int) -> bool {
    match o {
        Some(Object::Integer(v)) => v == i,
        _ => false,
    }
}

/// Which case of the pipeline an object falls under.
pub open spec fn image_kind(o: Object) -> ImageKind {
    match o {
        Object::Stream(s) => if !name_is(s.dict.lookup(names::name_subtype()), names::name_image()) {
            ImageKind::Untouched
        } else if name_is(s.dict.lookup(names::name_filter()), names::name_dct_decode()) {
            ImageKind::Dct
        } else if name_is(s.dict.lookup(names::name_filter()), names::name_flate_decode()) {
            if name_is(s.dict.lookup(names::name_color_space()), names::name_device_rgb()) {
                ImageKind::Flate(false)
            } else if name_is(s.dict.lookup(names::name_color_space()), names::name_device_gray()) {
                ImageKind::Flate(true)
            } else {
                ImageKind::Untouched
            }
        } else {
            ImageKind::Untouched
        },
        _ => ImageKind::Untouched,
    }
}

pub open spec fn image_key(k: Seq<u8>) -> bool {
    k == names::name_type() || k == names::name_subtype() || k == names::name_width() || k
        == names::name_height() || k == names::name_length() || k == names::name_color_space() || k
        == names::name_bits_per_component() || k == names::name_filter() || k == names::name_interpolate()
}

/// The dictionary of a re-encoded image: an 8-bit DeviceRGB image XObject of the
/// given size, filter and payload length, interpolated, and nothing else.
pub open spec fn declares(d: Dictionary, filter: Seq<u8>, w: int, h: int, len: int) -> bool {
    &&& name_is(d.lookup(names::name_type()), names::name_xobject())
    &&& name_is(d.lookup(names::name_subtype()), names::name_image())
    &&& int_is(d.lookup(names::name_width()), w)
    &&& int_is(d.lookup(names::name_height()), h)
    &&& int_is(d.lookup(names::name_length()), len)
    &&& name_is(d.lookup(names::name_color_space()), names::name_device_rgb())
    &&& int_is(d.lookup(names::name_bits_per_component()), 8)
    &&& name_is(d.lookup(names::name_filter()), filter)
    &&& d.lookup(names::name_interpolate()) == Some(Object::Boolean(true))
    &&& forall|k: Seq<u8>| !image_key(k) ==> #[trigger] d.lookup(k) is None
}

/// The number of samples per pixel of a layout.
pub open spec fn channels(f: PixelFormat) -> int {
    match f {
        PixelFormat::Rgb => 3,
        PixelFormat::Gray => 1,
        PixelFormat::Cmyk => 4,
    }
}

/// A decoded image that the encoder can take: sides of 1 to 65500 pixels, small
/// enough to be held as RGBA, and one sample per channel and pixel.
pub open spec fn well_formed(d: DecodedJpeg) -> bool {
    &&& 1 <= d.width <= 65500
    &&& 1 <= d.height <= 65500
    &&& 4 * (d.width * d.height) <= usize::MAX
    &&& d.samples@.len() == channels(d.format) * (d.width * d.height)
}

/// The size a Flate image declares: positive `Width` and `Height` integers small
/// enough that its RGBA raster can be held.
pub open spec fn declared_size(d: Dictionary) -> Option<(int, int)> {
    match (d.lookup(names::name_width()), d.lookup(names::name_height())) {
        (Some(Object::Integer(w)), Some(Object::Integer(h))) => if 1 <= w <= 0x7fff_ffff && 1 <= h
            <= 0x7fff_ffff && 8 * (w * h) <= usize::MAX {
            Some((w as int, h as int))
        } else {
            None
        },
        _ => None,
    }
}

/// The packed sRGB samples of a decoded image: RGB as it is, gray and CMYK
/// through their ICC profile.
pub open spec fn rgb_of(d: DecodedJpeg, profiles: ColorProfiles) -> Option<Seq<u8>> {
    match d.format {
        PixelFormat::Rgb => Some(d.samples@),
        PixelFormat::Gray => srgb_gray_of(profiles.gray@, d.samples@),
        PixelFormat::Cmyk => srgb_cmyk_of(profiles.cmyk@, d.samples@),
    }
}

/// The size a decoded JPEG image is re-encoded at.
pub open spec fn dct_size(d: DecodedJpeg, config: PdfConfig) -> (int, int) {
    target_size(d.width as int, d.height as int, config.jpeg.max_length as int)
}

/// What re-encoding a decoded JPEG image gives: the new JPEG payload, or why
/// there is none. The samples are brought to sRGB, resampled where the size
/// changes, and encoded at the configured quality with coding optimization, no
/// trellis scans and no smoothing.
pub open spec fn dct_outcome(d: DecodedJpeg, config: PdfConfig, profiles: ColorProfiles) -> Result<Seq<u8>, RecompressError> {
    let t = dct_size(d, config);
    if !well_formed(d) {
        Err(RecompressError::Malformed)
    } else if t.0 == 0 || t.1 == 0 {
        Err(RecompressError::Unscalable)
    } else {
        match rgb_of(d, profiles) {
            None => Err(RecompressError::Codec),
            Some(rgb) => {
                let samples = if t.0 == d.width && t.1 == d.height {
                    rgb
                } else {
                    resized_rgb(rgb, d.width as nat, d.height as nat, t.0 as nat, t.1 as nat)
                };
                let payload = jpeg_encoded(
                    samples,
                    t.0 as nat,
                    t.1 as nat,
                    config.jpeg.quality as nat,
                    Some(ScanMode::AllComponentsTogether),
                    false,
                    true,
                    false,
                    0,
                );
                if payload.len() <= 0x7fff_ffff_ffff_ffff {
                    Ok(payload)
                } else {
                    Err(RecompressError::Codec)
                }
            },
        }
    }
}

/// The opaque RGBA raster of a raw Flate image, or why there is none: its
/// declared size must be usable and its payload must inflate to one sample (gray)
/// or three (RGB) per pixel.
pub open spec fn flate_raster(s: Stream, gray: bool) -> Result<Seq<u8>, RecompressError> {
    match declared_size(s.dict) {
        None => Err(RecompressError::Malformed),
        Some((w, h)) => match zlib_inflate(s.content@) {
            None => Err(RecompressError::Decode),
            Some(raw) => if raw.len() != (if gray {
                1int
            } else {
                3int
            }) * (w * h) {
                Err(RecompressError::Decode)
            } else if gray {
                Ok(rgba_from_gray(raw))
            } else {
                Ok(rgba_from_rgb(raw))
            },
        },
    }
}

/// The payload made of a palette (packed RGBA) and palette indices for an image
/// of `w` by `h`: the deflated PNG of the raster they stand for. The indices must
/// be one per pixel and inside the palette.
pub open spec fn flate_payload_of(palette: Seq<u8>, indices: Seq<u8>, w: int, h: int) -> Result<Seq<u8>, RecompressError> {
    if indices.len() != w * h || !indices_in_palette(palette, indices) {
        Err(RecompressError::Codec)
    } else {
        let payload = zlib_deflated(png_encoded(rgba_from_palette(palette, indices), w as nat, h as nat));
        if payload.len() <= 0x7fff_ffff_ffff_ffff {
            Ok(payload)
        } else {
            Err(RecompressError::Codec)
        }
    }
}

/// A raw Flate image was re-encoded: its raster could be read, and `content` is
/// the payload of some palette and indices (what the quantizer returns is not a
/// function of its input: it may differ between machines and runs).
pub open spec fn flate_done(s: Stream, gray: bool, content: Seq<u8>) -> bool {
    &&& flate_raster(s, gray) is Ok
    &&& declared_size(s.dict) is Some
    &&& exists|p: Seq<u8>, ix: Seq<u8>| #[trigger] flate_payload_of(
        p,
        ix,
        declared_size(s.dict).unwrap().0,
        declared_size(s.dict).unwrap().1,
    ) == Ok::<Seq<u8>, RecompressError>(content)
}

/// Why a raw Flate image may fail: its raster cannot be read, or (the quantizer
/// deciding) a codec step fails.
pub open spec fn flate_may_fail(s: Stream, gray: bool, error: RecompressError) -> bool {
    flate_raster(s, gray) == Err::<Seq<u8>, RecompressError>(error) || (flate_raster(s, gray) is Ok && error
        == RecompressError::Codec)
}

/// What a recompressed object looks like, given what it was: anything but an
/// image is kept as it is; a raw Flate image becomes a deflated PNG of a palette
/// raster under the same size; a JPEG image becomes a DeviceRGB JPEG within the size limit (its
/// exact size and payload follow from the decoder, see `dct_done`).
pub open spec fn processed(before: Object, after: Object, config: PdfConfig) -> bool {
    match image_kind(before) {
        ImageKind::Untouched => after == before,
        ImageKind::Dct => match after {
            Object::Stream(s) => match (s.dict.lookup(names::name_width()), s.dict.lookup(names::name_height())) {
                (Some(Object::Integer(w)), Some(Object::Integer(h))) => 1 <= w <= config.jpeg.max_length && 1 <= h
                    <= config.jpeg.max_length && declares(s.dict, names::name_dct_decode(), w as int, h as int, s.content@.len() as int),
                _ => false,
            },
            _ => false,
        },
        ImageKind::Flate(gray) => match (before, after) {
            (Object::Stream(b), Object::Stream(s)) => match declared_size(b.dict) {
                Some((w, h)) => flate_done(b, gray, s.content@) && declares(
                    s.dict,
                    names::name_flate_decode(),
                    w,
                    h,
                    s.content@.len() as int,
                ),
                None => false,
            },
            _ => false,
        },
    }
}

/// A JPEG image was re-encoded from something the decoder may return for its
/// payload: the new payload is `dct_outcome` of that decoded image and the new
/// dictionary declares its `dct_size`.
pub open spec fn dct_done<F: Fn(&Vec<u8>) -> Option<DecodedJpeg>>(
    decode: F,
    before: Object,
    after: Object,
    config: PdfConfig,
    profiles: ColorProfiles,
) -> bool {
    match (before, after) {
        (Object::Stream(b), Object::Stream(a)) => exists|d: DecodedJpeg|
            #[trigger] decode.ensures((&b.content,), Some(d)) && dct_outcome(d, config, profiles)
                == Ok::<Seq<u8>, RecompressError>(a.content@) && declares(
                a.dict,
                names::name_dct_decode(),
                dct_size(d, config).0,
                dct_size(d, config).1,
                a.content@.len() as int,
            ),
        _ => false,
    }
}

/// Why an image may fail: the decoder may return nothing for a JPEG payload, or
/// re-encoding what it may return fails so; a raw Flate image fails as
/// `flate_may_fail` allows.
pub open spec fn may_fail<F: Fn(&Vec<u8>) -> Option<DecodedJpeg>>(
    decode: F,
    before: Object,
    error: RecompressError,
    config: PdfConfig,
    profiles: ColorProfiles,
) -> bool {
    match before {
        Object::Stream(b) => match image_kind(before) {
            ImageKind::Dct => (error == RecompressError::Decode && decode.ensures((&b.content,), None))
                || exists|d: DecodedJpeg| #[trigger] decode.ensures((&b.content,), Some(d))
                && dct_outcome(d, config, profiles) == Err::<Seq<u8>, RecompressError>(error),
            ImageKind::Flate(gray) => flate_may_fail(b, gray, error),
            ImageKind::Untouched => false,
        },
        _ => false,
    }
}

proof fn lemma_image_keys_distinct()
    ensures
        names::name_type() != names::name_subtype(),
        names::name_type() != names::name_width(),
        names::name_type() != names::name_height(),
        names::name_type() != names::name_length(),
        names::name_type() != names::name_color_space(),
        names::name_type() != names::name_bits_per_component(),
        names::name_type() != names::name_filter(),
        names::name_type() != names::name_interpolate(),
        names::name_subtype() != names::name_width(),
        names::name_subtype() != names::name_height(),
        names::name_subtype() != names::name_length(),
        names::name_subtype() != names::name_color_space(),
        names::name_subtype() != names::name_bits_per_component(),
        names::name_subtype() != names::name_filter(),
        names::name_subtype() != names::name_interpolate(),
        names::name_width() != names::name_height(),
        names::name_width() != names::name_length(),
        names::name_width() != names::name_color_space(),
        names::name_width() != names::name_bits_per_component(),
        names::name_width() != names::name_filter(),
        names::name_width() != names::name_interpolate(),
        names::name_height() != names::name_length(),
        names::name_height() != names::name_color_space(),
        names::name_height() != names::name_bits_per_component(),
        names::name_height() != names::name_filter(),
        names::name_height() != names::name_interpolate(),
        names::name_length() != names::name_color_space(),
        names::name_length() != names::name_bits_per_component(),
        names::name_length() != names::name_filter(),
        names::name_length() != names::name_interpolate(),
        names::name_color_space() != names::name_bits_per_component(),
        names::name_color_space() != names::name_filter(),
        names::name_color_space() != names::name_interpolate(),
        names::name_bits_per_component() != names::name_filter(),
        names::name_bits_per_component() != names::name_interpolate(),
        names::name_filter() != names::name_interpolate(),
{
    assert(names::name_height()[0] != names::name_length()[0]);
    assert(names::name_height()[0] != names::name_filter()[0]);
    assert(names::name_length()[0] != names::name_filter()[0]);
    assert(names::name_type()[0] != names::name_subtype()[0]);
}

/// The dictionary of a re-encoded image.
pub fn image_dictionary(filter: Vec<u8>, width: i64, height: i64, length: i64) -> (d: Dictionary)
    ensures
        declares(d, filter@, width as int, height as int, length as int),
{
    proof {
        lemma_image_keys_distinct();
    }
    let mut d = Dictionary::new();
    d.set(names::key_type(), Object::Name(names::key_xobject()));
    d.set(names::key_subtype(), Object::Name(names::key_image()));
    d.set(names::key_width(), Object::Integer(width));
    d.set(names::key_height(), Object::Integer(height));
    d.set(names::key_length(), Object::Integer(length));
    d.set(names::key_color_space(), Object::Name(names::key_device_rgb()));
    d.set(names::key_bits_per_component(), Object::Integer(8));
    d.set(names::key_filter(), Object::Name(filter));
    d.set(names::key_interpolate(), Object::Boolean(true));
    d
}

/// Which case of the pipeline an object falls under.
pub fn classify(o: &Object) -> (r: ImageKind)
    ensures
        r == image_kind(*o),
{
    match o {
        Object::Stream(s) => {
            let d = &s.dict;
            let k_subtype = names::key_subtype();
            let k_filter = names::key_filter();
            let k_color_space = names::key_color_space();
            if !name_equals(d.get(k_subtype.as_slice()), &names::key_image()) {
                ImageKind::Untouched
            } else if name_equals(d.get(k_filter.as_slice()), &names::key_dct_decode()) {
                ImageKind::Dct
            } else if name_equals(d.get(k_filter.as_slice()), &names::key_flate_decode()) {
                if name_equals(d.get(k_color_space.as_slice()), &names::key_device_rgb()) {
                    ImageKind::Flate(false)
                } else if name_equals(d.get(k_color_space.as_slice()), &names::key_device_gray()) {
                    ImageKind::Flate(true)
                } else {
                    ImageKind::Untouched
                }
            } else {
                ImageKind::Untouched
            }
        },
        _ => ImageKind::Untouched,
    }
}

fn name_equals(o: Option<&Object>, n: &Vec<u8>) -> (r: bool)
    ensures
        r == match o {
            Some(Object::Name(v)) => v@ == n@,
            _ => false,
        },
{
    match o {
        Some(Object::Name(v)) => crate::object::bytes_eq(v.as_slice(), n.as_slice()),
        _ => false,
    }
}

/// Converts decoded samples to packed sRGB: RGB as it is, gray and CMYK through
/// their ICC profile.
pub fn normalize_to_rgb(decoded: DecodedJpeg, profiles: &ColorProfiles) -> (r: Option<Vec<u8>>)
    requires
        well_formed(decoded),
    ensures
        r matches Some(v) ==> v@.len() == 3 * (decoded.width * decoded.height),
        match r {
            Some(v) => rgb_of(decoded, *profiles) == Some(v@),
            None => rgb_of(decoded, *profiles) is None,
        },
{
    let pixels = pixel_count(decoded.width, decoded.height) as usize;
    assert(decoded.width * decoded.height <= 65500 * 65500) by (nonlinear_arith)
        requires
            1 <= decoded.width <= 65500,
            1 <= decoded.height <= 65500,
    ;
    match decoded.format {
        PixelFormat::Rgb => Some(decoded.samples),
        PixelFormat::Gray => codec::srgb_from_gray(profiles.gray.as_slice(), decoded.samples.as_slice(), 3 * pixels),
        PixelFormat::Cmyk => codec::srgb_from_cmyk(profiles.cmyk.as_slice(), decoded.samples.as_slice(), 3 * pixels),
    }
}

/// JPEG images: re-encodes a decoded JPEG image as an 8-bit RGB baseline JPEG at the
/// configured quality, downscaled so that no side exceeds the configured length.
pub fn recompress_dct(decoded: DecodedJpeg, config: &PdfConfig, profiles: &ColorProfiles) -> (r: Result<Stream, RecompressError>)
    requires
        config.jpeg.max_length >= 1,
    ensures
        match r {
            Ok(s) => dct_outcome(decoded, *config, *profiles) == Ok::<Seq<u8>, RecompressError>(s.content@)
                && declares(
                s.dict,
                names::name_dct_decode(),
                dct_size(decoded, *config).0,
                dct_size(decoded, *config).1,
                s.content@.len() as int,
            ),
            Err(e) => dct_outcome(decoded, *config, *profiles) == Err::<Seq<u8>, RecompressError>(e),
        },
{
    let width = decoded.width;
    let height = decoded.height;
    if width < 1 || width > 65500 || height < 1 || height > 65500 {
        return Err(RecompressError::Malformed);
    }
    let area = pixel_count(width, height);
    let channels: u128 = match decoded.format {
        PixelFormat::Rgb => 3,
        PixelFormat::Gray => 1,
        PixelFormat::Cmyk => 4,
    };
    if 4 * area > usize::MAX as u128 || decoded.samples.len() as u128 != channels * area {
        return Err(RecompressError::Malformed);
    }
    let (new_width, new_height) = downscale_dimensions(width, height, config.jpeg.max_length);
    proof {
        lemma_downscale_bounds(width as int, height as int, config.jpeg.max_length as int);
    }
    if new_width == 0 || new_height == 0 {
        return Err(RecompressError::Unscalable);
    }
    let ghost d0 = decoded;
    let rgb = match normalize_to_rgb(decoded, profiles) {
        Some(v) => v,
        None => return Err(RecompressError::Codec),
    };
    let rgb = if new_width != width || new_height != height {
        match codec::resize_rgb(rgb, width, height, new_width, new_height) {
            Some(v) => v,
            None => return Err(RecompressError::Codec),
        }
    } else {
        rgb
    };
    let data = match codec::encode_jpeg(
        rgb.as_slice(),
        new_width,
        new_height,
        config.jpeg.quality,
        Some(ScanMode::AllComponentsTogether),
        false,
        true,
        false,
        0,
    ) {
        Some(v) => v,
        None => return Err(RecompressError::Codec),
    };
    assert(well_formed(d0));
    if data.len() as u64 > 0x7fff_ffff_ffff_ffff {
        return Err(RecompressError::Codec);
    }
    let dict = image_dictionary(names::key_dct_decode(), new_width as i64, new_height as i64, data.len() as i64);
    Ok(Stream { dict, content: data })
}

/// The number of pixels of an image of `width` by `height`.
pub(crate) fn pixel_count(width: u32, height: u32) -> (r: u128)
    ensures
        r == width * height,
        r <= 0xffff_ffff_ffff_ffff,
{
    assert((width as u128) * (height as u128) <= 0xffff_ffff_ffff_ffff) by (nonlinear_arith)
        requires
            width <= 0xffff_ffff,
            height <= 0xffff_ffff,
    ;
    (width as u128) * (height as u128)
}

/// The `Width` and `Height` a Flate image declares, where usable.
pub fn read_declared_size(d: &Dictionary) -> (r: Option<(u32, u32)>)
    ensures
        match r {
            Some((w, h)) => declared_size(*d) == Some((w as int, h as int)),
            None => declared_size(*d) is None,
        },
{
    let kw = names::key_width();
    let kh = names::key_height();
    match (d.get(kw.as_slice()), d.get(kh.as_slice())) {
        (Some(Object::Integer(w)), Some(Object::Integer(h))) => {
            let w = *w;
            let h = *h;
            if 1 <= w && w <= 0x7fff_ffff && 1 <= h && h <= 0x7fff_ffff {
                let area = pixel_count(w as u32, h as u32);
                if 8 * area <= usize::MAX as u128 {
                    Some((w as u32, h as u32))
                } else {
                    None
                }
            } else {
                None
            }
        },
        _ => None,
    }
}

/// The payload for a palette (packed RGBA) and palette indices of an image of
/// `width` by `height`: the raster they stand for, encoded as PNG and deflated.
pub fn flate_payload(palette: &Vec<u8>, indices: &Vec<u8>, width: u32, height: u32) -> (r: Result<Vec<u8>, RecompressError>)
    requires
        1 <= width <= 0x7fff_ffff,
        1 <= height <= 0x7fff_ffff,
        8 * (width * height) <= usize::MAX,
    ensures
        match r {
            Ok(v) => flate_payload_of(palette@, indices@, width as int, height as int) == Ok::<Seq<u8>, RecompressError>(v@),
            Err(e) => flate_payload_of(palette@, indices@, width as int, height as int) == Err::<Seq<u8>, RecompressError>(e),
        },
{
    let pixels = pixel_count(width, height);
    if indices.len() as u128 != pixels {
        return Err(RecompressError::Codec);
    }
    let rendered = match pixels::render_palette(palette, indices) {
        Some(v) => v,
        None => return Err(RecompressError::Codec),
    };
    let png = match codec::encode_png(rendered.as_slice(), width, height) {
        Some(v) => v,
        None => return Err(RecompressError::Codec),
    };
    let data = match codec::zlib_compress(png.as_slice()) {
        Some(v) => v,
        None => return Err(RecompressError::Codec),
    };
    if data.len() as u64 > 0x7fff_ffff_ffff_ffff {
        return Err(RecompressError::Codec);
    }
    Ok(data)
}

/// Raw Flate images: decompresses a raw raster, quantizes it to a palette within the
/// configured quality range, and stores it again as a deflated PNG container.
pub fn recompress_flate(stream: &Stream, gray: bool, config: &PdfConfig) -> (r: Result<Stream, RecompressError>)
    ensures
        match r {
            Ok(s) => flate_done(*stream, gray, s.content@) && declared_size(stream.dict) is Some && declares(
                s.dict,
                names::name_flate_decode(),
                declared_size(stream.dict).unwrap().0,
                declared_size(stream.dict).unwrap().1,
                s.content@.len() as int,
            ),
            Err(e) => flate_may_fail(*stream, gray, e),
        },
{
    let (width, height) = match read_declared_size(&stream.dict) {
        Some(size) => size,
        None => return Err(RecompressError::Malformed),
    };
    let pixels = pixel_count(width, height) as usize;
    let raw = match codec::zlib_decompress(stream.content.as_slice()) {
        Some(v) => v,
        None => return Err(RecompressError::Decode),
    };
    let expected = if gray {
        pixels
    } else {
        3 * pixels
    };
    if raw.len() != expected {
        return Err(RecompressError::Decode);
    }
    let rgba = if gray {
        pixels::gray_to_rgba(&raw)
    } else {
        pixels::rgb_to_rgba(&raw)
    };
    assert(rgba@.len() == 4 * (width * height));
    assert(flate_raster(*stream, gray) == Ok::<Seq<u8>, RecompressError>(rgba@));
    let (palette, indices) = match codec::quantize_rgba(
        rgba.as_slice(),
        width as usize,
        height as usize,
        config.png.quality_min,
        config.png.quality_max,
        QUANTIZER_MAX_COLORS,
        QUANTIZER_SPEED,
    ) {
        Some(q) => q,
        None => return Err(RecompressError::Codec),
    };
    let data = match flate_payload(&palette, &indices, width, height) {
        Ok(v) => v,
        Err(e) => return Err(e),
    };
    assert(flate_payload_of(palette@, indices@, width as int, height as int) == Ok::<Seq<u8>, RecompressError>(data@));
    let dict = image_dictionary(names::key_flate_decode(), width as i64, height as i64, data.len() as i64);
    Ok(Stream { dict, content: data })
}

/// What an object becomes in the image pass: `processed`, and for a JPEG image
/// also `dct_done`.
pub open spec fn replaced<F: Fn(&Vec<u8>) -> Option<DecodedJpeg>>(
    decode: F,
    before: Object,
    after: Object,
    config: PdfConfig,
    profiles: ColorProfiles,
) -> bool {
    &&& processed(before, after, config)
    &&& image_kind(before) == ImageKind::Dct ==> dct_done(decode, before, after, config, profiles)
}

/// Image recompression over the whole document. Every image stream filtered with
/// `DCTDecode`, or with `FlateDecode` in DeviceRGB or DeviceGray, is replaced,
/// under its own id, by its re-encoded form; every other object is left as it
/// is. `decode` is the JPEG decoder. The replacements are computed first and
/// applied together: on the first image that fails, the run stops with that
/// image's id and the document is left untouched.
pub fn compress_images<F>(
    doc: &mut Document,
    config: &PdfConfig,
    profiles: &ColorProfiles,
    decode: F,
) -> (r: Result<(), ImageFailure>)
    where
        F: Fn(&Vec<u8>) -> Option<DecodedJpeg>,
    requires
        config.jpeg.max_length >= 1,
        forall|b: &Vec<u8>| #[trigger] decode.requires((b,)),
    ensures
        r is Err ==> *final(doc) == *old(doc),
        r matches Err(f) ==> exists|i: int| 0 <= i < old(doc).objects@.len() && (#[trigger] old(doc).objects@[i]).0 == f.id
            && may_fail(decode, old(doc).objects@[i].1, f.error, *config, *profiles),
        (forall|i: int| 0 <= i < old(doc).objects@.len() ==> image_kind(#[trigger] old(doc).objects@[i].1)
            == ImageKind::Untouched) ==> r is Ok,
        final(doc).trailer == old(doc).trailer,
        final(doc).objects@.len() == old(doc).objects@.len(),
        old(doc).wf() ==> final(doc).wf(),
        forall|i: int| 0 <= i < old(doc).objects@.len() ==> #[trigger] final(doc).objects@[i].0
            == old(doc).objects@[i].0,
        r is Ok ==> forall|i: int| 0 <= i < old(doc).objects@.len() ==> replaced(
            decode,
            #[trigger] old(doc).objects@[i].1,
            final(doc).objects@[i].1,
            *config,
            *profiles,
        ),
{
    let n = doc.objects.len();
    let mut replacements: Vec<Option<Object>> = Vec::new();
    let mut i: usize = 0;
    while i < n
        invariant
            n == doc.objects@.len(),
            i <= n,
            config.jpeg.max_length >= 1,
            forall|b: &Vec<u8>| #[trigger] decode.requires((b,)),
            replacements@.len() == i,
            forall|j: int| 0 <= j < i ==> match #[trigger] replacements@[j] {
                None => image_kind(doc.objects@[j].1) == ImageKind::Untouched,
                Some(o) => image_kind(doc.objects@[j].1) != ImageKind::Untouched && replaced(
                    decode,
                    doc.objects@[j].1,
                    o,
                    *config,
                    *profiles,
                ),
            },
        decreases n - i,
    {
        let id = doc.objects[i].0;
        let object = &doc.objects[i].1;
        let kind = classify(object);
        match kind {
            ImageKind::Untouched => {
                replacements.push(None);
            },
            ImageKind::Dct => {
                if let Object::Stream(s) = object {
                    assert(doc.objects@[i as int].0 == id);
                    let decoded = match decode(&s.content) {
                        Some(d) => d,
                        None => {
                            assert(may_fail(decode, doc.objects@[i as int].1, RecompressError::Decode, *config, *profiles));
                            return Err(ImageFailure { id, error: RecompressError::Decode });
                        },
                    };
                    let ghost dd = decoded;
                    match recompress_dct(decoded, config, profiles) {
                        Ok(stream) => {
                            proof {
                                lemma_downscale_bounds(dd.width as int, dd.height as int, config.jpeg.max_length as int);
                            }
                            let ghost o = Object::Stream(stream);
                            assert(dct_done(decode, doc.objects@[i as int].1, o, *config, *profiles));
                            replacements.push(Some(Object::Stream(stream)));
                        },
                        Err(e) => {
                            assert(may_fail(decode, doc.objects@[i as int].1, e, *config, *profiles));
                            return Err(ImageFailure { id, error: e });
                        },
                    }
                }
            },
            ImageKind::Flate(gray) => {
                if let Object::Stream(s) = object {
                    assert(doc.objects@[i as int].0 == id);
                    match recompress_flate(s, gray, config) {
                        Ok(stream) => replacements.push(Some(Object::Stream(stream))),
                        Err(e) => {
                            assert(may_fail(decode, doc.objects@[i as int].1, e, *config, *profiles));
                            return Err(ImageFailure { id, error: e });
                        },
                    }
                }
            },
        }
        i = i + 1;
    }
    let ghost before = doc.objects@;
    let mut k = n;
    while k > 0
        invariant
            k <= n == before.len(),
            doc.objects@.len() == n,
            doc.trailer == old(doc).trailer,
            replacements@.len() == k,
            forall|j: int| 0 <= j < k ==> match #[trigger] replacements@[j] {
                None => image_kind(before[j].1) == ImageKind::Untouched,
                Some(o) => image_kind(before[j].1) != ImageKind::Untouched && replaced(
                    decode,
                    before[j].1,
                    o,
                    *config,
                    *profiles,
                ),
            },
            forall|j: int| 0 <= j < k ==> #[trigger] doc.objects@[j] == before[j],
            forall|j: int| 0 <= j < n ==> #[trigger] doc.objects@[j].0 == before[j].0,
            forall|j: int| k <= j < n ==> replaced(
                decode,
                before[j].1,
                #[trigger] doc.objects@[j].1,
                *config,
                *profiles,
            ),
        decreases k,
    {
        let ghost last = replacements@[k - 1];
        let slot = replacements.pop();
        assert(slot == Some(last));
        match slot {
            Some(Some(o)) => {
                let id = doc.objects[k - 1].0;
                doc.objects.set(k - 1, (id, o));
            },
            _ => {
                assert(doc.objects@[k - 1] == before[k - 1]);
            },
        }
        k = k - 1;
    }
    Ok(())
}

/// Every image that the pipeline re-encodes, whatever its source color space
/// (RGB, gray or CMYK), comes out declaring `ColorSpace` `DeviceRGB`.
pub proof fn lemma_recompressed_images_are_rgb(before: Object, after: Object, config: PdfConfig)
    requires
        image_kind(before) != ImageKind::Untouched,
        processed(before, after, config),
    ensures
        after matches Object::Stream(s) && name_is(s.dict.lookup(names::name_color_space()), names::name_device_rgb()),
{
}

/// Image recompression keeps every id of the document resolving exactly when it
/// did before.
pub proof fn lemma_images_keep_ids(before: Document, after: Document, id: ObjectId)
    requires
        after.objects@.len() == before.objects@.len(),
        forall|i: int| 0 <= i < before.objects@.len() ==> #[trigger] after.objects@[i].0 == before.objects@[i].0,
    ensures
        after.contains(id) == before.contains(id),
{
    crate::document::lemma_same_ids_same_domain(before.objects@, after.objects@, id);
}

} // verus!
