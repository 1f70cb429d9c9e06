use compressor::config_json::{HeifConfig, JpegConfig, LibdeflaterConfig, PdfConfig, PngConfig, ZopfliConfig};
use compressor::file_type::{detect, FileType};
use compressor::image::image_type::{image_type, ImageType};
use compressor::options::{
    deflater_choice, interlacing_of, exif_policy, has_exif_marker, orientation_transform, repeat_of,
    resize_filter, scan_mode_of, strip_chunks, Deflater, ExifPolicy, Orientation, Repeat, Interlacing, ResizeFilter,
    ScanMode, StripChunks,
};
use compressor::pixels::{gray_to_rgba, render_palette, rgb_to_rgba};

fn header(prefix: &[u8]) -> Vec<u8> {
    let mut b = prefix.to_vec();
    b.resize(24, 0);
    b
}

#[test]
fn detects_each_format_by_its_signature() {
    assert_eq!(detect(&header(b"GIF89a")), Some(FileType::GIF));
    assert_eq!(detect(&header(&[0x89, b'P', b'N', b'G', 0x0D, 0x0A])), Some(FileType::PNG));
    assert_eq!(detect(&header(&[0xFF, 0xD8, 0xFF, 0xE0])), Some(FileType::JPEG));
    assert_eq!(detect(&header(b"RIFF\x10\x00\x00\x00WEBPVP8 ")), Some(FileType::WEBP));
    assert_eq!(detect(&header(b"\x00\x00\x00\x18ftypheic\x00\x00\x00\x00mif1heic")), Some(FileType::HEIF));
    assert_eq!(detect(&header(b"%PDF-1.7")), Some(FileType::PDF));
    assert_eq!(detect(&header(b"<?xml version=")), Some(FileType::XML));
    assert_eq!(detect(&header(b"hello world")), None);
    assert_eq!(detect(&[]), None);
}

#[test]
fn image_types_leave_out_documents() {
    assert_eq!(image_type(&header(b"GIF87a")), Some(ImageType::GIF));
    assert_eq!(image_type(&header(&[0xFF, 0xD8, 0xFF])), Some(ImageType::JPEG));
    assert_eq!(image_type(&header(b"RIFF\x10\x00\x00\x00WEBPVP8 ")), Some(ImageType::WEBP));
    assert_eq!(image_type(&header(b"%PDF-1.4")), None);
}

#[test]
fn png_options_from_names() {
    assert_eq!(strip_chunks(&"safe".to_string()), StripChunks::Safe);
    assert_eq!(strip_chunks(&"all".to_string()), StripChunks::All);
    assert_eq!(strip_chunks(&"other".to_string()), StripChunks::Keep);
    assert_eq!(interlacing_of(&"adam7".to_string()), Interlacing::Adam7);
    assert_eq!(interlacing_of(&"none".to_string()), Interlacing::Plain);
}

#[test]
fn deflater_prefers_libdeflater_then_zopfli() {
    let mut c = PngConfig::default();
    assert_eq!(deflater_choice(&c), Some(Deflater::Default));
    c.zopfli = Some(ZopfliConfig { iterations: 15 });
    assert_eq!(deflater_choice(&c), Some(Deflater::Zopfli(15)));
    c.libdeflater = Some(LibdeflaterConfig { compression: 12 });
    assert_eq!(deflater_choice(&c), Some(Deflater::Libdeflater(12)));
    c.libdeflater = None;
    c.zopfli = Some(ZopfliConfig { iterations: 0 });
    assert_eq!(deflater_choice(&c), None);
}

#[test]
fn jpeg_options_from_names() {
    assert_eq!(scan_mode_of(&"all_components_together".to_string()), ScanMode::AllComponentsTogether);
    assert_eq!(scan_mode_of(&"scan_per_component".to_string()), ScanMode::ScanPerComponent);
    assert_eq!(scan_mode_of(&"x".to_string()), ScanMode::Auto);
    assert_eq!(exif_policy(&"all".to_string()), ExifPolicy::All);
    assert_eq!(exif_policy(&"orientation".to_string()), ExifPolicy::Orientation);
    assert_eq!(exif_policy(&"none".to_string()), ExifPolicy::Drop);
}

#[test]
fn orientation_values() {
    assert_eq!(orientation_transform(1), Orientation::Upright);
    assert_eq!(orientation_transform(2), Orientation::FlipHorizontal);
    assert_eq!(orientation_transform(3), Orientation::Rotate180);
    assert_eq!(orientation_transform(4), Orientation::FlipVertical);
    assert_eq!(orientation_transform(5), Orientation::Rotate90FlipHorizontal);
    assert_eq!(orientation_transform(6), Orientation::Rotate90);
    assert_eq!(orientation_transform(7), Orientation::Rotate270FlipHorizontal);
    assert_eq!(orientation_transform(8), Orientation::Rotate270);
    assert_eq!(orientation_transform(9), Orientation::Upright);
}

#[test]
fn loop_counts() {
    assert_eq!(repeat_of(None), Repeat::Infinite);
    assert_eq!(repeat_of(Some(0)), Repeat::Infinite);
    assert_eq!(repeat_of(Some(3)), Repeat::Finite(3));
}

#[test]
fn resize_filters_by_name() {
    assert_eq!(resize_filter(&"nearest".to_string()), Some(ResizeFilter::Nearest));
    assert_eq!(resize_filter(&"triangle".to_string()), Some(ResizeFilter::Triangle));
    assert_eq!(resize_filter(&"catmull_rom".to_string()), Some(ResizeFilter::CatmullRom));
    assert_eq!(resize_filter(&"gaussian".to_string()), Some(ResizeFilter::Gaussian));
    assert_eq!(resize_filter(&"lanczos3".to_string()), Some(ResizeFilter::Lanczos3));
    assert_eq!(resize_filter(&"bicubic".to_string()), None);
}

#[test]
fn exif_marker_search() {
    assert!(has_exif_marker(b"\xFF\xD8\xFF\xE1\x00\x10Exif\x00\x00II*"));
    assert!(has_exif_marker(b"Exif\x00\x00"));
    assert!(!has_exif_marker(b"Exif\x00"));
    assert!(!has_exif_marker(b"\xFF\xD8\xFF\xE0JFIF\x00"));
    assert!(!has_exif_marker(b""));
}

#[test]
fn pixel_expansions() {
    assert_eq!(rgb_to_rgba(&vec![1, 2, 3, 4, 5, 6, 7]), vec![1, 2, 3, 255, 4, 5, 6, 255]);
    assert_eq!(gray_to_rgba(&vec![9, 0]), vec![9, 9, 9, 255, 0, 0, 0, 255]);
    assert_eq!(rgb_to_rgba(&vec![]), Vec::<u8>::new());
}

#[test]
fn palette_rendering() {
    let palette = vec![1, 2, 3, 4, 5, 6, 7, 8];
    assert_eq!(render_palette(&palette, &vec![1, 0, 1]), Some(vec![5, 6, 7, 8, 1, 2, 3, 4, 5, 6, 7, 8]));
    assert_eq!(render_palette(&palette, &vec![2]), None);
    assert_eq!(render_palette(&vec![], &vec![]), Some(vec![]));
}

#[test]
fn defaults() {
    let pdf = PdfConfig::default();
    assert!(pdf.remove_info && pdf.remove_metadata && !pdf.remove_unuse_fonts);
    assert_eq!((pdf.png.quality_min, pdf.png.quality_max), (65, 75));
    assert_eq!((pdf.jpeg.quality, pdf.jpeg.max_length), (70, 1500));
    let png = PngConfig::default();
    assert_eq!(png.quality, 2);
    assert_eq!(png.strip, "all");
    assert_eq!(png.interlacing, "none");
    let jpeg = JpegConfig::default();
    assert_eq!(jpeg.quality, 70);
    assert_eq!(jpeg.scan_optimization_mode.as_deref(), Some("all_components_together"));
    assert!(jpeg.optimize_coding && !jpeg.progressive_mode && !jpeg.use_scans_in_trellis);
    assert_eq!(jpeg.exif, "none");
    assert_eq!(HeifConfig::default().quality, Some(50));
}
