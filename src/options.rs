//! The choices the raster compressors make from their settings.
use vstd::prelude::*;
use crate::config_json::PngConfig;

verus! {

/// Which PNG chunks the optimizer drops.
#[derive(Debug, PartialEq, Eq, Clone, Copy, Structural)]
pub enum StripChunks {
    Safe,
    All,
    Keep,
}

/// `"safe"` and `"all"` choose those modes; anything else keeps every chunk.
pub open spec fn strip_chunks_of(s: Seq<char>) -> StripChunks {
    if s == "safe"@ {
        StripChunks::Safe
    } else if s == "all"@ {
        StripChunks::All
    } else {
        StripChunks::Keep
    }
}

pub fn strip_chunks(s: &String) -> (r: StripChunks)
    ensures
        r == strip_chunks_of(s@),
{
    if *s == "safe".to_owned() {
        StripChunks::Safe
    } else if *s == "all".to_owned() {
        StripChunks::All
    } else {
        StripChunks::Keep
    }
}

/// Whether the PNG optimizer writes an interlaced image.
#[derive(Debug, PartialEq, Eq, Clone, Copy, Structural)]
pub enum Interlacing {
    Adam7,
    Plain,
}

/// Adam7 interlacing is chosen by `"adam7"`; anything else writes none.
pub open spec fn interlacing_named(s: Seq<char>) -> Interlacing {
    if s == "adam7"@ {
        Interlacing::Adam7
    } else {
        Interlacing::Plain
    }
}

pub fn interlacing_of(s: &String) -> (r: Interlacing)
    ensures
        r == interlacing_named(s@),
{
    if *s == "adam7".to_owned() {
        Interlacing::Adam7
    } else {
        Interlacing::Plain
    }
}

/// The deflate implementation the PNG optimizer uses.
#[derive(Debug, PartialEq, Eq, Clone, Copy, Structural)]
pub enum Deflater {
    Libdeflater(u8),
    Zopfli(u8),
    Default,
}

/// Libdeflater where configured, else Zopfli where configured, else the
/// optimizer's default. Libdeflate knows levels 0 to 12 and Zopfli needs at
/// least one iteration: `None` otherwise.
pub open spec fn deflater_of(config: PngConfig) -> Option<Deflater> {
    match config.libdeflater {
        Some(l) => if l.compression <= 12 {
            Some(Deflater::Libdeflater(l.compression))
        } else {
            None
        },
        None => match config.zopfli {
            Some(z) => if z.iterations >= 1 {
                Some(Deflater::Zopfli(z.iterations))
            } else {
                None
            },
            None => Some(Deflater::Default),
        },
    }
}

/// The deflate implementation the settings choose; see `deflater_of`.
pub fn deflater_choice(config: &PngConfig) -> (r: Option<Deflater>)
    ensures
        r == deflater_of(*config),
{
    match &config.libdeflater {
        Some(l) => if l.compression <= 12 {
            Some(Deflater::Libdeflater(l.compression))
        } else {
            None
        },
        None => match &config.zopfli {
            Some(z) => if z.iterations >= 1 {
                Some(Deflater::Zopfli(z.iterations))
            } else {
                None
            },
            None => Some(Deflater::Default),
        },
    }
}

/// How the JPEG encoder orders its scans.
#[derive(Debug, PartialEq, Eq, Clone, Copy, Structural)]
pub enum ScanMode {
    AllComponentsTogether,
    ScanPerComponent,
    Auto,
}

/// `"all_components_together"` and `"scan_per_component"` choose those modes;
/// anything else leaves the choice to the encoder.
pub open spec fn scan_mode_named(s: Seq<char>) -> ScanMode {
    if s == "all_components_together"@ {
        ScanMode::AllComponentsTogether
    } else if s == "scan_per_component"@ {
        ScanMode::ScanPerComponent
    } else {
        ScanMode::Auto
    }
}

pub fn scan_mode_of(s: &String) -> (r: ScanMode)
    ensures
        r == scan_mode_named(s@),
{
    if *s == "all_components_together".to_owned() {
        ScanMode::AllComponentsTogether
    } else if *s == "scan_per_component".to_owned() {
        ScanMode::ScanPerComponent
    } else {
        ScanMode::Auto
    }
}

/// Which EXIF data a compressed JPEG carries over.
#[derive(Debug, PartialEq, Eq, Clone, Copy, Structural)]
pub enum ExifPolicy {
    All,
    Orientation,
    Drop,
}

pub fn exif_policy(s: &String) -> (r: ExifPolicy)
    ensures
        r == if s@ == "all"@ {
            ExifPolicy::All
        } else if s@ == "orientation"@ {
            ExifPolicy::Orientation
        } else {
            ExifPolicy::Drop
        },
{
    if *s == "all".to_owned() {
        ExifPolicy::All
    } else if *s == "orientation".to_owned() {
        ExifPolicy::Orientation
    } else {
        ExifPolicy::Drop
    }
}

/// The transform that brings an image stored with an EXIF orientation upright.
#[derive(Debug, PartialEq, Eq, Clone, Copy, Structural)]
pub enum Orientation {
    Upright,
    FlipHorizontal,
    Rotate180,
    FlipVertical,
    Rotate90FlipHorizontal,
    Rotate90,
    Rotate270FlipHorizontal,
    Rotate270,
}

/// Orientation values 2 to 8 each name a transform; any other value leaves the
/// image as it is.
pub open spec fn orientation_of(value: u16) -> Orientation {
    match value {
        2 => Orientation::FlipHorizontal,
        3 => Orientation::Rotate180,
        4 => Orientation::FlipVertical,
        5 => Orientation::Rotate90FlipHorizontal,
        6 => Orientation::Rotate90,
        7 => Orientation::Rotate270FlipHorizontal,
        8 => Orientation::Rotate270,
        _ => Orientation::Upright,
    }
}

pub fn orientation_transform(value: u16) -> (r: Orientation)
    ensures
        r == orientation_of(value),
        r == match value {
            2 => Orientation::FlipHorizontal,
            3 => Orientation::Rotate180,
            4 => Orientation::FlipVertical,
            5 => Orientation::Rotate90FlipHorizontal,
            6 => Orientation::Rotate90,
            7 => Orientation::Rotate270FlipHorizontal,
            8 => Orientation::Rotate270,
            _ => Orientation::Upright,
        },
{
    match value {
        2 => Orientation::FlipHorizontal,
        3 => Orientation::Rotate180,
        4 => Orientation::FlipVertical,
        5 => Orientation::Rotate90FlipHorizontal,
        6 => Orientation::Rotate90,
        7 => Orientation::Rotate270FlipHorizontal,
        8 => Orientation::Rotate270,
        _ => Orientation::Upright,
    }
}

/// How often an animation plays.
#[derive(Debug, PartialEq, Eq, Clone, Copy, Structural)]
pub enum Repeat {
    Infinite,
    Finite(u16),
}

/// A loop count of zero, or none, plays forever; any other count that often.
pub fn repeat_of(loop_count: Option<u16>) -> (r: Repeat)
    ensures
        r == match loop_count {
            Some(n) => if n == 0 {
                Repeat::Infinite
            } else {
                Repeat::Finite(n)
            },
            None => Repeat::Infinite,
        },
{
    match loop_count {
        Some(0) => Repeat::Infinite,
        Some(n) => Repeat::Finite(n),
        None => Repeat::Infinite,
    }
}

/// A resampling filter.
#[derive(Debug, PartialEq, Eq, Clone, Copy, Structural)]
pub enum ResizeFilter {
    Nearest,
    Triangle,
    CatmullRom,
    Gaussian,
    Lanczos3,
}

/// The filter a size setting names; `None` for a name that is not a filter, in
/// which case the image is left at its size.
pub open spec fn resize_filter_named(name: Seq<char>) -> Option<ResizeFilter> {
    if name == "nearest"@ {
        Some(ResizeFilter::Nearest)
    } else if name == "triangle"@ {
        Some(ResizeFilter::Triangle)
    } else if name == "catmull_rom"@ {
        Some(ResizeFilter::CatmullRom)
    } else if name == "gaussian"@ {
        Some(ResizeFilter::Gaussian)
    } else if name == "lanczos3"@ {
        Some(ResizeFilter::Lanczos3)
    } else {
        None
    }
}

pub fn resize_filter(name: &String) -> (r: Option<ResizeFilter>)
    ensures
        r == resize_filter_named(name@),
{
    if *name == "nearest".to_owned() {
        Some(ResizeFilter::Nearest)
    } else if *name == "triangle".to_owned() {
        Some(ResizeFilter::Triangle)
    } else if *name == "catmull_rom".to_owned() {
        Some(ResizeFilter::CatmullRom)
    } else if *name == "gaussian".to_owned() {
        Some(ResizeFilter::Gaussian)
    } else if *name == "lanczos3".to_owned() {
        Some(ResizeFilter::Lanczos3)
    } else {
        None
    }
}

/// The EXIF header `Exif\0\0`.
pub open spec fn exif_marker() -> Seq<u8> {
    seq![0x45u8, 0x78u8, 0x69u8, 0x66u8, 0x00u8, 0x00u8]
}

/// Some six consecutive bytes of `b` are the EXIF header.
pub open spec fn holds_exif_marker(b: Seq<u8>) -> bool {
    exists|i: int| 0 <= i && i + 6 <= b.len() && #[trigger] b.subrange(i, i + 6) == exif_marker()
}

/// Whether the EXIF header occurs in `buf`.
pub fn has_exif_marker(buf: &[u8]) -> (r: bool)
    ensures
        r == holds_exif_marker(buf@),
{
    if buf.len() < 6 {
        return false;
    }
    let mut i: usize = 0;
    while i <= buf.len() - 6
        invariant
            buf@.len() >= 6,
            i <= buf@.len() - 5,
            forall|j: int| 0 <= j < i ==> #[trigger] buf@.subrange(j, j + 6) != exif_marker(),
        decreases buf@.len() - i,
    {
        if buf[i] == 0x45 && buf[i + 1] == 0x78 && buf[i + 2] == 0x69 && buf[i + 3] == 0x66 && buf[i + 4]
            == 0x00 && buf[i + 5] == 0x00 {
            assert(buf@.subrange(i as int, i + 6) =~= exif_marker());
            return true;
        }
        assert(buf@.subrange(i as int, i + 6)[0] == buf@[i as int]);
        assert(buf@.subrange(i as int, i + 6)[1] == buf@[i + 1]);
        assert(buf@.subrange(i as int, i + 6)[2] == buf@[i + 2]);
        assert(buf@.subrange(i as int, i + 6)[3] == buf@[i + 3]);
        assert(buf@.subrange(i as int, i + 6)[4] == buf@[i + 4]);
        assert(buf@.subrange(i as int, i + 6)[5] == buf@[i + 5]);
        i = i + 1;
    }
    false
}

} // verus!
