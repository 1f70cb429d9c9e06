//! A media compressor whose core is a document recompression engine: it walks
//! a parsed document's object graph and rewrites it in place, redacting
//! metadata, removing fonts that no page uses, and re-encoding every JPEG and
//! raw Flate image under its own id. The engine works on its own model of the
//! object graph (`object`, `document`); the codecs it calls are in `codec`.
pub mod object;
pub mod document;
pub mod names;
pub mod redact;
pub mod fonts;
pub mod scale;
pub mod codec;
pub mod pixels;
pub mod config_json;
pub mod images;
pub mod pdf_compressor;
pub mod file_type;
pub mod image;
pub mod options;
pub mod error;
pub mod png_compressor;
pub mod jpeg_compressor;
