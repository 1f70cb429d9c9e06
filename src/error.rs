//! The compressor's errors, each with its message.
use vstd::prelude::*;

verus! {

#[derive(Debug, Clone)]
pub enum CompressorError {
    IoError(String),
    ImageDecodeError(String),
    PngOptimizeError(String),
    JpegCompressError(String),
    WebpCompressError(String),
    GifCompressError(String),
    HeifCompressError(String),
    PdfCompressError(String),
    SvgCompressError(String),
    ConfigError(String),
    UnknownFileFormat,
    JsonUnformatError(String),
}

} // verus!
