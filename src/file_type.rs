//! Recognising a file's format from its first bytes.
use vstd::prelude::*;

verus! {

/// The formats the compressor handles.
#[derive(Debug, PartialEq, Eq, Clone, Copy, Structural)]
pub enum FileType {
    GIF,
    PNG,
    JPEG,
    WEBP,
    HEIF,
    PDF,
    XML,
}

pub open spec fn gif_signature(b: Seq<u8>) -> bool {
    b.len() > 2 && b[0] == 0x47 && b[1] == 0x49 && b[2] == 0x46
}

pub open spec fn png_signature(b: Seq<u8>) -> bool {
    b.len() > 3 && b[0] == 0x89 && b[1] == 0x50 && b[2] == 0x4E && b[3] == 0x47
}

pub open spec fn jpeg_signature(b: Seq<u8>) -> bool {
    b.len() > 2 && b[0] == 0xFF && b[1] == 0xD8 && b[2] == 0xFF
}

pub open spec fn webp_signature(b: Seq<u8>) -> bool {
    b.len() > 11 && b[8] == 0x57 && b[9] == 0x45 && b[10] == 0x42 && b[11] == 0x50
}

pub open spec fn pdf_signature(b: Seq<u8>) -> bool {
    b.len() > 3 && b[0] == 0x25 && b[1] == 0x50 && b[2] == 0x44 && b[3] == 0x46
}

/// The four bytes of `b` at `i` are `c0 c1 c2 c3`.
pub open spec fn four_at(b: Seq<u8>, i: int, c0: u8, c1: u8, c2: u8, c3: u8) -> bool {
    0 <= i && i + 4 <= b.len() && b[i] == c0 && b[i + 1] == c1 && b[i + 2] == c2 && b[i + 3] == c3
}

/// The `ftyp` box length: the first four bytes, big-endian.
pub open spec fn ftyp_length(b: Seq<u8>) -> int {
    b[0] * 0x100_0000 + b[1] * 0x1_0000 + b[2] * 0x100 + b[3]
}

/// The number of compatible brands read: four bytes each from offset 16, as
/// many as the box length holds past its 16-byte head, and as the buffer holds.
pub open spec fn compatible_count(b: Seq<u8>) -> int {
    let by_length = if ftyp_length(b) / 4 >= 4 {
        ftyp_length(b) / 4 - 4
    } else {
        0
    };
    let by_buffer = (b.len() - 16) / 4;
    if by_length <= by_buffer {
        by_length
    } else {
        by_buffer
    }
}

/// `heic` (`68 65 69 63`) at `i`.
pub open spec fn heic_at(b: Seq<u8>, i: int) -> bool {
    four_at(b, i, 0x68, 0x65, 0x69, 0x63)
}

/// What infer recognises as HEIF: an `ftyp` box that the buffer holds whole,
/// with major brand `heic`, or major brand `mif1` or `msf1` and `heic` among the
/// compatible brands.
pub open spec fn heif_signature(b: Seq<u8>) -> bool {
    &&& ftyp_box(b)
    &&& b.len() >= ftyp_length(b)
    &&& (heic_at(b, 8) || ((four_at(b, 8, 0x6d, 0x69, 0x66, 0x31) || four_at(b, 8, 0x6d, 0x73, 0x66, 0x31))
        && exists|k: int| 0 <= k < compatible_count(b) && #[trigger] heic_at(b, 16 + 4 * k)))
}

/// An ISO base media file starts with an `ftyp` box: at least 16 bytes, `ftyp`
/// at offset 4.
pub open spec fn ftyp_box(b: Seq<u8>) -> bool {
    b.len() >= 16 && b[4] == 0x66 && b[5] == 0x74 && b[6] == 0x79 && b[7] == 0x70
}

pub open spec fn markup_whitespace(c: u8) -> bool {
    c == 0x09 || c == 0x0A || c == 0x0C || c == 0x0D || c == 0x20
}

/// `b` without its leading whitespace.
pub open spec fn trim_whitespace(b: Seq<u8>) -> Seq<u8>
    decreases b.len(),
{
    if b.len() > 0 && markup_whitespace(b[0]) {
        trim_whitespace(b.drop_first())
    } else {
        b
    }
}

/// `b` without its leading byte order marks (UTF-8, or UTF-16 either way).
pub open spec fn trim_byte_order_marks(b: Seq<u8>) -> Seq<u8>
    decreases b.len(),
{
    if b.len() >= 3 && b[0] == 0xEF && b[1] == 0xBB && b[2] == 0xBF {
        trim_byte_order_marks(b.subrange(3, b.len() as int))
    } else if b.len() >= 3 && ((b[0] == 0xFE && b[1] == 0xFF) || (b[0] == 0xFF && b[1] == 0xFE)) {
        trim_byte_order_marks(b.subrange(2, b.len() as int))
    } else {
        b
    }
}

pub open spec fn ascii_lower(c: u8) -> u8 {
    if 0x41 <= c <= 0x5A {
        (c + 32) as u8
    } else {
        c
    }
}

/// `<?xml`, in any case, after leading whitespace and then byte order marks.
pub open spec fn xml_signature(b: Seq<u8>) -> bool {
    let t = trim_byte_order_marks(trim_whitespace(b));
    &&& t.len() >= 5
    &&& ascii_lower(t[0]) == 0x3C
    &&& ascii_lower(t[1]) == 0x3F
    &&& ascii_lower(t[2]) == 0x78
    &&& ascii_lower(t[3]) == 0x6D
    &&& ascii_lower(t[4]) == 0x6C
}

/// Relies on infer::image::is_gif: the bytes `GIF`.
#[verifier::external_body]
pub(crate) fn is_gif(buf: &[u8]) -> (r: bool)
    ensures
        r == gif_signature(buf@),
{
    infer::image::is_gif(buf)
}

/// Relies on infer::image::is_png: the bytes `0x89 P N G`.
#[verifier::external_body]
pub(crate) fn is_png(buf: &[u8]) -> (r: bool)
    ensures
        r == png_signature(buf@),
{
    infer::image::is_png(buf)
}

/// Relies on infer::image::is_jpeg: the bytes `FF D8 FF`.
#[verifier::external_body]
pub(crate) fn is_jpeg(buf: &[u8]) -> (r: bool)
    ensures
        r == jpeg_signature(buf@),
{
    infer::image::is_jpeg(buf)
}

/// Relies on infer::image::is_webp: `WEBP` at offset 8.
#[verifier::external_body]
pub(crate) fn is_webp(buf: &[u8]) -> (r: bool)
    ensures
        r == webp_signature(buf@),
{
    infer::image::is_webp(buf)
}

/// Relies on infer::image::is_heif: an `ftyp` box (`is_isobmff`) whose brands
/// (`get_ftyp`) name HEIF.
#[verifier::external_body]
pub(crate) fn is_heif(buf: &[u8]) -> (r: bool)
    ensures
        r == heif_signature(buf@),
{
    infer::image::is_heif(buf)
}

/// Relies on infer::archive::is_pdf: the bytes `%PDF`.
#[verifier::external_body]
pub(crate) fn is_pdf(buf: &[u8]) -> (r: bool)
    ensures
        r == pdf_signature(buf@),
{
    infer::archive::is_pdf(buf)
}

/// Relies on infer::text::is_xml: `<?xml`, in any case, after whitespace and byte
/// order marks.
#[verifier::external_body]
pub(crate) fn is_xml(buf: &[u8]) -> (r: bool)
    ensures
        r == xml_signature(buf@),
{
    infer::text::is_xml(buf)
}

/// The format of a file whose first bytes are `b`, the first match in the order
/// GIF, PNG, JPEG, WebP, HEIF, PDF, XML.
pub open spec fn file_type_of(b: Seq<u8>) -> Option<FileType> {
    if gif_signature(b) {
        Some(FileType::GIF)
    } else if png_signature(b) {
        Some(FileType::PNG)
    } else if jpeg_signature(b) {
        Some(FileType::JPEG)
    } else if webp_signature(b) {
        Some(FileType::WEBP)
    } else if heif_signature(b) {
        Some(FileType::HEIF)
    } else if pdf_signature(b) {
        Some(FileType::PDF)
    } else if xml_signature(b) {
        Some(FileType::XML)
    } else {
        None
    }
}

/// Recognises a file's format from its first bytes (the caller reads up to 24).
pub fn detect(buf: &[u8]) -> (r: Option<FileType>)
    ensures
        r == file_type_of(buf@),
{
    if is_gif(buf) {
        Some(FileType::GIF)
    } else if is_png(buf) {
        Some(FileType::PNG)
    } else if is_jpeg(buf) {
        Some(FileType::JPEG)
    } else if is_webp(buf) {
        Some(FileType::WEBP)
    } else if is_heif(buf) {
        Some(FileType::HEIF)
    } else if is_pdf(buf) {
        Some(FileType::PDF)
    } else if is_xml(buf) {
        Some(FileType::XML)
    } else {
        None
    }
}

} // verus!
