use compressor::config_json::{JpegConfig, SizeFilterConfig};
use compressor::jpeg_compressor::compress;

fn sample_jpeg(width: u32, height: u32) -> Vec<u8> {
    let mut rgb = Vec::new();
    for y in 0..height {
        for x in 0..width {
            rgb.extend_from_slice(&[(x * 9) as u8, (y * 5) as u8, 100]);
        }
    }
    let mut out = Vec::new();
    let encoder = image::codecs::jpeg::JpegEncoder::new_with_quality(&mut out, 95);
    image::ImageEncoder::write_image(encoder, &rgb, width, height, image::ExtendedColorType::Rgb8).unwrap();
    out
}

#[test]
fn jpeg_is_reencoded_at_its_size() {
    let out = compress(&JpegConfig::default(), false, &sample_jpeg(24, 16), None).unwrap();
    assert_eq!(&out[..3], &[0xFF, 0xD8, 0xFF]);
    let back = image::load_from_memory(&out).unwrap();
    assert_eq!((back.width(), back.height()), (24, 16));
}

#[test]
fn orientation_is_applied_only_under_explicit_settings() {
    let input = sample_jpeg(24, 16);
    let turned = compress(&JpegConfig::default(), true, &input, Some(6)).unwrap();
    let back = image::load_from_memory(&turned).unwrap();
    assert_eq!((back.width(), back.height()), (16, 24));
    let kept = compress(&JpegConfig::default(), false, &input, Some(6)).unwrap();
    let back = image::load_from_memory(&kept).unwrap();
    assert_eq!((back.width(), back.height()), (24, 16));
}

#[test]
fn jpeg_is_fitted_into_the_configured_size() {
    let mut config = JpegConfig::default();
    config.size = Some(SizeFilterConfig { width: 12, height: 12, filter: "lanczos3".to_string() });
    config.progressive_mode = true;
    let out = compress(&config, true, &sample_jpeg(24, 16), None).unwrap();
    let back = image::load_from_memory(&out).unwrap();
    assert_eq!((back.width(), back.height()), (12, 8));
}

#[test]
fn undecodable_jpeg_input_fails() {
    assert!(compress(&JpegConfig::default(), true, b"nothing here", None).is_err());
}
