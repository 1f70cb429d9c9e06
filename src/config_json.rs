//! Settings of each compressor, with their defaults.
use vstd::prelude::*;

verus! {

/// A target size and the resampling filter to reach it with.
#[derive(Debug, Clone)]
pub struct SizeFilterConfig {
    pub width: u32,
    pub height: u32,
    pub filter: String,
}

#[derive(Debug, Clone)]
pub struct SizeConfig {
    pub width: u32,
    pub height: u32,
}

#[derive(Debug, Clone)]
pub struct LibdeflaterConfig {
    pub compression: u8,
}

#[derive(Debug, Clone)]
pub struct ZopfliConfig {
    pub iterations: u8,
}

#[derive(Debug, Clone)]
pub struct LossyConfig {
    pub quality_min: u8,
    pub quality_max: u8,
    pub speed: Option<i32>,
    pub colors: Option<u32>,
}

#[derive(Debug, Clone)]
pub struct PngConfig {
    pub quality: u8,
    pub size: Option<SizeFilterConfig>,
    pub strip: String,
    pub interlacing: String,
    pub optimize_alpha: bool,
    pub libdeflater: Option<LibdeflaterConfig>,
    pub zopfli: Option<ZopfliConfig>,
    pub lossy: Option<LossyConfig>,
}

#[derive(Debug, Clone)]
pub struct JpegConfig {
    pub quality: u8,
    pub size: Option<SizeFilterConfig>,
    pub scan_optimization_mode: Option<String>,
    pub progressive_mode: bool,
    pub optimize_coding: bool,
    pub use_scans_in_trellis: bool,
    pub smoothing_factor: u8,
    pub exif: String,
}

#[derive(Debug, Clone)]
pub struct HeifConfig {
    pub quality: Option<u8>,
    pub size: Option<SizeConfig>,
}

/// Quality range of the palette quantizer for raw raster images.
#[derive(Debug, Clone, Copy)]
pub struct PdfPngConfig {
    pub quality_min: u8,
    pub quality_max: u8,
}

/// Quality and longest side of re-encoded JPEG images.
#[derive(Debug, Clone, Copy)]
pub struct PdfJpegConfig {
    pub quality: u8,
    pub max_length: i64,
}

/// Settings of the document compressor.
#[derive(Debug, Clone, Copy)]
pub struct PdfConfig {
    pub remove_info: bool,
    pub remove_metadata: bool,
    pub remove_unuse_fonts: bool,
    pub png: PdfPngConfig,
    pub jpeg: PdfJpegConfig,
}

impl Default for PngConfig {
    fn default() -> (r: Self)
        ensures
            r.quality == 2,
            r.size is None,
            r.strip@ == "all"@,
            r.interlacing@ == "none"@,
            !r.optimize_alpha,
            r.libdeflater is None,
            r.zopfli is None,
            r.lossy is None,
    {
        PngConfig {
            quality: 2,
            size: None,
            strip: "all".to_owned(),
            interlacing: "none".to_owned(),
            optimize_alpha: false,
            libdeflater: None,
            zopfli: None,
            lossy: None,
        }
    }
}

impl Default for JpegConfig {
    fn default() -> (r: Self)
        ensures
            r.quality == 70,
            r.size is None,
            r.scan_optimization_mode matches Some(m) && m@ == "all_components_together"@,
            !r.progressive_mode,
            r.optimize_coding,
            !r.use_scans_in_trellis,
            r.smoothing_factor == 0,
            r.exif@ == "none"@,
    {
        JpegConfig {
            quality: 70,
            size: None,
            scan_optimization_mode: Some("all_components_together".to_owned()),
            progressive_mode: false,
            optimize_coding: true,
            use_scans_in_trellis: false,
            smoothing_factor: 0,
            exif: "none".to_owned(),
        }
    }
}

impl Default for HeifConfig {
    fn default() -> (r: Self)
        ensures
            r.quality == Some(50u8),
            r.size is None,
    {
        HeifConfig { quality: Some(50), size: None }
    }
}

impl Default for PdfConfig {
    fn default() -> (r: Self)
        ensures
            r.remove_info,
            r.remove_metadata,
            !r.remove_unuse_fonts,
            r.png.quality_min == 65,
            r.png.quality_max == 75,
            r.jpeg.quality == 70,
            r.jpeg.max_length == 1500,
    {
        PdfConfig {
            remove_info: true,
            remove_metadata: true,
            remove_unuse_fonts: false,
            png: PdfPngConfig { quality_min: 65, quality_max: 75 },
            jpeg: PdfJpegConfig { quality: 70, max_length: 1500 },
        }
    }
}

} // verus!
