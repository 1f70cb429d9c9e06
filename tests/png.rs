use compressor::config_json::{LossyConfig, PngConfig, SizeFilterConfig, ZopfliConfig};
use compressor::error::CompressorError;
use compressor::png_compressor::{compress, palette_raster};

fn sample_png(width: u32, height: u32) -> Vec<u8> {
    let mut rgba = Vec::new();
    for y in 0..height {
        for x in 0..width {
            rgba.extend_from_slice(&[(x * 7) as u8, (y * 5) as u8, ((x + y) * 3) as u8, 255]);
        }
    }
    let mut out = Vec::new();
    let encoder = image::codecs::png::PngEncoder::new(&mut out);
    image::ImageEncoder::write_image(encoder, &rgba, width, height, image::ExtendedColorType::Rgba8).unwrap();
    out
}

#[test]
fn png_is_optimized_to_a_png_of_the_same_size() {
    let out = compress(&PngConfig::default(), &sample_png(16, 8)).unwrap();
    let back = image::load_from_memory(&out).unwrap();
    assert_eq!((back.width(), back.height()), (16, 8));
}

#[test]
fn png_is_fitted_and_quantized() {
    let mut config = PngConfig::default();
    config.size = Some(SizeFilterConfig { width: 8, height: 8, filter: "triangle".to_string() });
    config.lossy = Some(LossyConfig { quality_min: 0, quality_max: 80, speed: None, colors: Some(16) });
    let out = compress(&config, &sample_png(32, 16)).unwrap();
    let back = image::load_from_memory(&out).unwrap();
    assert_eq!((back.width(), back.height()), (8, 4));
}

#[test]
fn zopfli_without_iterations_is_refused() {
    let mut config = PngConfig::default();
    config.zopfli = Some(ZopfliConfig { iterations: 0 });
    assert!(matches!(compress(&config, &sample_png(4, 4)), Err(CompressorError::ConfigError(_))));
}

#[test]
fn undecodable_input_is_a_decode_error() {
    assert!(matches!(compress(&PngConfig::default(), b"not an image"), Err(CompressorError::ImageDecodeError(_))));
}

#[test]
fn libdeflate_level_above_twelve_is_refused() {
    let mut config = PngConfig::default();
    config.libdeflater = Some(compressor::config_json::LibdeflaterConfig { compression: 13 });
    assert!(matches!(compress(&config, &sample_png(4, 4)), Err(CompressorError::ConfigError(_))));
}

#[test]
fn palette_raster_checks_indices() {
    let palette = vec![1, 2, 3, 4, 5, 6, 7, 8];
    assert_eq!(palette_raster(&palette, &vec![1, 0], 2, 1), Some(vec![5, 6, 7, 8, 1, 2, 3, 4]));
    assert_eq!(palette_raster(&palette, &vec![1, 0], 1, 1), None);
    assert_eq!(palette_raster(&palette, &vec![2, 0], 2, 1), None);
}
