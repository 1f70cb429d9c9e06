use compressor::config_json::PdfConfig;
use compressor::document::Document;
use compressor::fonts::{remove_unused_fonts, used_fonts};
use compressor::images::{
    classify, compress_images, recompress_dct, recompress_flate, ColorProfiles, DecodedJpeg, ImageKind,
    PixelFormat, RecompressError,
};
use compressor::object::{Dictionary, Object, ObjectId, Stream, StringFormat};
use compressor::pdf_compressor::compress_document;
use compressor::redact::redact_metadata;
use compressor::scale::downscale_dimensions;

fn name(s: &str) -> Object {
    Object::Name(s.as_bytes().to_vec())
}

fn dict(entries: Vec<(&str, Object)>) -> Dictionary {
    let mut d = Dictionary::new();
    for (k, v) in entries {
        d.set(k.as_bytes().to_vec(), v);
    }
    d
}

fn lookup<'a>(d: &'a Dictionary, k: &str) -> Option<&'a Object> {
    d.get(k.as_bytes())
}

fn assert_name(d: &Dictionary, k: &str, v: &str) {
    match lookup(d, k) {
        Some(Object::Name(n)) => assert_eq!(n.as_slice(), v.as_bytes()),
        other => panic!("{} is {:?}", k, other),
    }
}

fn int_of(d: &Dictionary, k: &str) -> i64 {
    match lookup(d, k) {
        Some(Object::Integer(i)) => *i,
        other => panic!("{} is {:?}", k, other),
    }
}

fn stream_of(doc: &Document, id: ObjectId) -> &Stream {
    match doc.get(id) {
        Some(Object::Stream(s)) => s,
        other => panic!("{:?} is {:?}", id, other),
    }
}

fn font(base: &str) -> Object {
    Object::Dictionary(dict(vec![("Type", name("Font")), ("BaseFont", name(base))]))
}

fn config(max_length: i64) -> PdfConfig {
    let mut c = PdfConfig::default();
    c.jpeg.max_length = max_length;
    c
}

fn gray_profiles() -> ColorProfiles {
    let white = lcms2::CIExyY { x: 0.3457, y: 0.3585, Y: 1.0 };
    let gray = lcms2::Profile::new_gray(&white, &lcms2::ToneCurve::new(2.2)).unwrap();
    ColorProfiles { gray: gray.icc().unwrap(), cmyk: Vec::new() }
}

fn no_profiles() -> ColorProfiles {
    ColorProfiles { gray: Vec::new(), cmyk: Vec::new() }
}

fn rgb_jpeg(width: u32, height: u32) -> Vec<u8> {
    let mut samples = Vec::new();
    for y in 0..height {
        for x in 0..width {
            samples.push((x * 255 / width.max(1)) as u8);
            samples.push((y * 255 / height.max(1)) as u8);
            samples.push(128);
        }
    }
    let mut out = Vec::new();
    let encoder = image::codecs::jpeg::JpegEncoder::new_with_quality(&mut out, 90);
    image::ImageEncoder::write_image(encoder, &samples, width, height, image::ExtendedColorType::Rgb8).unwrap();
    out
}

fn decode_with_image(bytes: &Vec<u8>) -> Option<DecodedJpeg> {
    let img = image::load_from_memory(bytes).ok()?.to_rgb8();
    Some(DecodedJpeg { format: PixelFormat::Rgb, width: img.width(), height: img.height(), samples: img.into_raw() })
}

fn dct_image(data: Vec<u8>, width: i64, height: i64, color_space: &str) -> Object {
    let len = data.len() as i64;
    Object::Stream(Stream {
        dict: dict(vec![
            ("Type", name("XObject")),
            ("Subtype", name("Image")),
            ("Width", Object::Integer(width)),
            ("Height", Object::Integer(height)),
            ("ColorSpace", name(color_space)),
            ("BitsPerComponent", Object::Integer(8)),
            ("Filter", name("DCTDecode")),
            ("Length", Object::Integer(len)),
        ]),
        content: data,
    })
}

fn deflate(data: &[u8]) -> Vec<u8> {
    let mut e = flate2::write::ZlibEncoder::new(Vec::new(), flate2::Compression::default());
    std::io::Write::write_all(&mut e, data).unwrap();
    e.finish().unwrap()
}

fn inflate(data: &[u8]) -> Vec<u8> {
    let mut d = flate2::read::ZlibDecoder::new(data);
    let mut out = Vec::new();
    std::io::Read::read_to_end(&mut d, &mut out).unwrap();
    out
}

fn flate_image(samples: &[u8], width: i64, height: i64, color_space: &str) -> Object {
    let data = deflate(samples);
    let len = data.len() as i64;
    Object::Stream(Stream {
        dict: dict(vec![
            ("Subtype", name("Image")),
            ("Width", Object::Integer(width)),
            ("Height", Object::Integer(height)),
            ("ColorSpace", name(color_space)),
            ("BitsPerComponent", Object::Integer(8)),
            ("Filter", name("FlateDecode")),
            ("Length", Object::Integer(len)),
        ]),
        content: data,
    })
}

fn two_page_document() -> (Document, Vec<Option<Dictionary>>) {
    let shared = (10, 0);
    let page_only = (11, 0);
    let doc = Document {
        objects: vec![
            (shared, font("Helvetica")),
            (page_only, font("Courier")),
            ((12, 0), Object::Dictionary(dict(vec![("Type", name("Catalog"))]))),
        ],
        trailer: dict(vec![("Root", Object::Reference((12, 0)))]),
    };
    (doc, vec![Some(first_page()), Some(second_page())])
}

fn first_page() -> Dictionary {
    dict(vec![("Font", Object::Dictionary(dict(vec![("F1", Object::Reference((10, 0)))])))])
}

fn second_page() -> Dictionary {
    dict(vec![(
        "Font",
        Object::Dictionary(dict(vec![("F1", Object::Reference((10, 0))), ("F2", Object::Reference((11, 0)))])),
    )])
}

fn ids(doc: &Document) -> Vec<ObjectId> {
    doc.objects.iter().map(|e| e.0).collect()
}

#[test]
fn shared_and_page_only_fonts_all_reachable_keeps_every_font() {
    let (mut doc, pages) = two_page_document();
    remove_unused_fonts(&mut doc, &pages);
    assert_eq!(ids(&doc), vec![(10, 0), (11, 0), (12, 0)]);
}

#[test]
fn page_only_font_of_unread_page_is_deleted() {
    let (mut doc, _) = two_page_document();
    let reachable = vec![Some(first_page()), None];
    remove_unused_fonts(&mut doc, &reachable);
    assert_eq!(ids(&doc), vec![(10, 0), (12, 0)]);
}

#[test]
fn font_map_given_by_reference_is_followed() {
    let (mut doc, _) = two_page_document();
    doc.objects.push(((20, 0), Object::Dictionary(dict(vec![("F9", Object::Reference((11, 0)))]))));
    let page = dict(vec![("Font", Object::Reference((20, 0)))]);
    let pages = vec![Some(page)];
    let used = used_fonts(&doc, &pages);
    assert_eq!(used, vec![(11, 0)]);
    remove_unused_fonts(&mut doc, &pages);
    assert_eq!(ids(&doc), vec![(11, 0), (12, 0), (20, 0)]);
}

#[test]
fn fonts_removed_are_exactly_the_unused_ones() {
    let (mut doc, _) = two_page_document();
    doc.objects.push(((13, 0), font("Times")));
    let page = dict(vec![("Font", Object::Dictionary(dict(vec![("F2", Object::Reference((11, 0)))])))]);
    remove_unused_fonts(&mut doc, &vec![Some(page)]);
    assert_eq!(ids(&doc), vec![(11, 0), (12, 0)]);
}

#[test]
fn redaction_removes_info_and_metadata() {
    let mut doc = Document {
        objects: vec![(
            (1, 0),
            Object::Dictionary(dict(vec![("Type", name("Catalog")), ("Metadata", Object::Reference((2, 0)))])),
        )],
        trailer: dict(vec![
            ("Root", Object::Reference((1, 0))),
            ("Info", Object::Reference((3, 0))),
            ("Metadata", Object::Reference((2, 0))),
        ]),
    };
    redact_metadata(&mut doc, true, true);
    assert!(lookup(&doc.trailer, "Info").is_none());
    assert!(lookup(&doc.trailer, "Metadata").is_none());
    assert!(lookup(&doc.trailer, "Root").is_some());
    match doc.get((1, 0)) {
        Some(Object::Dictionary(c)) => {
            assert!(lookup(c, "Metadata").is_none());
            assert_name(c, "Type", "Catalog");
        },
        other => panic!("catalog is {:?}", other),
    }
}

#[test]
fn redaction_with_both_switches_off_changes_nothing() {
    let mut doc = Document {
        objects: vec![((1, 0), Object::Dictionary(dict(vec![("Metadata", Object::Null)])))],
        trailer: dict(vec![
            ("Root", Object::Reference((1, 0))),
            ("Info", Object::Text(b"x".to_vec(), StringFormat::Literal)),
        ]),
    };
    redact_metadata(&mut doc, false, false);
    assert!(lookup(&doc.trailer, "Info").is_some());
    match doc.get((1, 0)) {
        Some(Object::Dictionary(c)) => assert!(lookup(c, "Metadata").is_some()),
        other => panic!("catalog is {:?}", other),
    }
}

#[test]
fn redaction_of_info_only_keeps_metadata() {
    let mut doc = Document {
        objects: vec![],
        trailer: dict(vec![("Info", Object::Null), ("Metadata", Object::Null)]),
    };
    redact_metadata(&mut doc, true, false);
    assert!(lookup(&doc.trailer, "Info").is_none());
    assert!(lookup(&doc.trailer, "Metadata").is_some());
}

#[test]
fn replace_keeps_every_reference_resolving() {
    let mut doc = Document {
        objects: vec![((1, 0), Object::Integer(1)), ((2, 0), Object::Reference((1, 0)))],
        trailer: Dictionary::new(),
    };
    assert!(doc.replace((1, 0), Object::Integer(7)));
    assert!(matches!(doc.get((1, 0)), Some(Object::Integer(7))));
    assert!(matches!(doc.get((2, 0)), Some(Object::Reference((1, 0)))));
    assert!(!doc.replace((9, 0), Object::Null));
    assert_eq!(ids(&doc), vec![(1, 0), (2, 0)]);
}

#[test]
fn downscale_examples() {
    assert_eq!(downscale_dimensions(4000, 3000, 1500), (1500, 1125));
    assert_eq!(downscale_dimensions(3000, 4000, 1500), (1125, 1500));
    assert_eq!(downscale_dimensions(1000, 1, 500), (500, 1));
    assert_eq!(downscale_dimensions(100, 80, 200), (100, 80));
    assert_eq!(downscale_dimensions(1501, 1000, 1500), (1500, 999));
    assert_eq!(downscale_dimensions(10000, 1, 1500), (1500, 0));
}

#[test]
fn downscale_never_grows_and_keeps_aspect() {
    for &(w, h, m) in &[(4000u32, 3000u32, 1500i64), (333, 777, 100), (1920, 1080, 1280), (7, 5000, 64)] {
        let (a, b) = downscale_dimensions(w, h, m);
        assert!(a <= w && b <= h);
        assert!(a as i64 <= m && b as i64 <= m);
        let skew = (a as i64 * h as i64 - b as i64 * w as i64).abs();
        assert!(2 * skew <= (w + h) as i64);
    }
}

#[test]
fn cmyk_scenario_dimensions() {
    assert_eq!(downscale_dimensions(4000, 3000, 1500), (1500, 1125));
}

#[test]
fn gray_source_becomes_rgb_jpeg_within_limit() {
    let (w, h) = (400u32, 300u32);
    let samples: Vec<u8> = (0..w * h).map(|i| (i % 251) as u8).collect();
    let decoded = DecodedJpeg { format: PixelFormat::Gray, width: w, height: h, samples };
    let mut c = config(150);
    c.jpeg.quality = 70;
    let s = recompress_dct(decoded, &c, &gray_profiles()).unwrap();
    assert_name(&s.dict, "ColorSpace", "DeviceRGB");
    assert_name(&s.dict, "Filter", "DCTDecode");
    assert_name(&s.dict, "Type", "XObject");
    assert_name(&s.dict, "Subtype", "Image");
    assert_eq!(int_of(&s.dict, "Width"), 150);
    assert_eq!(int_of(&s.dict, "Height"), 113);
    assert_eq!(int_of(&s.dict, "BitsPerComponent"), 8);
    assert_eq!(int_of(&s.dict, "Length"), s.content.len() as i64);
    assert!(matches!(lookup(&s.dict, "Interpolate"), Some(Object::Boolean(true))));
    let back = image::load_from_memory(&s.content).unwrap();
    assert_eq!((back.width(), back.height()), (150, 113));
}

#[test]
fn cmyk_source_without_profile_is_a_codec_error() {
    let decoded = DecodedJpeg { format: PixelFormat::Cmyk, width: 4, height: 3, samples: vec![0; 48] };
    let r = recompress_dct(decoded, &config(1500), &no_profiles());
    assert_eq!(r.err(), Some(RecompressError::Codec));
}

#[test]
fn decoded_image_with_wrong_sample_count_is_malformed() {
    let decoded = DecodedJpeg { format: PixelFormat::Rgb, width: 4, height: 3, samples: vec![0; 35] };
    assert_eq!(recompress_dct(decoded, &config(1500), &no_profiles()).err(), Some(RecompressError::Malformed));
    let empty = DecodedJpeg { format: PixelFormat::Rgb, width: 0, height: 3, samples: vec![] };
    assert_eq!(recompress_dct(empty, &config(1500), &no_profiles()).err(), Some(RecompressError::Malformed));
}

#[test]
fn sliver_that_rounds_to_zero_is_unscalable() {
    let decoded = DecodedJpeg { format: PixelFormat::Rgb, width: 10000, height: 1, samples: vec![9; 30000] };
    assert_eq!(recompress_dct(decoded, &config(1500), &no_profiles()).err(), Some(RecompressError::Unscalable));
}

#[test]
fn rgb_jpeg_recompression_is_stable_on_its_output() {
    let jpeg = rgb_jpeg(200, 100);
    let first = recompress_dct(decode_with_image(&jpeg).unwrap(), &config(150), &no_profiles()).unwrap();
    assert_eq!((int_of(&first.dict, "Width"), int_of(&first.dict, "Height")), (150, 75));
    let second = recompress_dct(decode_with_image(&first.content).unwrap(), &config(150), &no_profiles()).unwrap();
    assert_eq!((int_of(&second.dict, "Width"), int_of(&second.dict, "Height")), (150, 75));
    assert!(second.content.len() <= first.content.len() * 2);
}

#[test]
fn flate_rgb_image_is_quantized_and_stored_as_deflated_png() {
    let samples: Vec<u8> = (0..4 * 2 * 3).map(|i| (i * 10) as u8).collect();
    let object = flate_image(&samples, 4, 2, "DeviceRGB");
    assert_eq!(classify(&object), ImageKind::Flate(false));
    let s = match &object {
        Object::Stream(s) => recompress_flate(s, false, &PdfConfig::default()).unwrap(),
        _ => unreachable!(),
    };
    assert_name(&s.dict, "Filter", "FlateDecode");
    assert_name(&s.dict, "ColorSpace", "DeviceRGB");
    assert_eq!((int_of(&s.dict, "Width"), int_of(&s.dict, "Height")), (4, 2));
    assert_eq!(int_of(&s.dict, "Length"), s.content.len() as i64);
    let png = inflate(&s.content);
    assert_eq!(&png[..4], &[0x89, b'P', b'N', b'G']);
    let back = image::load_from_memory(&png).unwrap();
    assert_eq!((back.width(), back.height()), (4, 2));
}

#[test]
fn flate_gray_image_becomes_rgb() {
    let samples: Vec<u8> = vec![0, 64, 128, 255, 32, 96];
    let object = flate_image(&samples, 3, 2, "DeviceGray");
    assert_eq!(classify(&object), ImageKind::Flate(true));
    let s = match &object {
        Object::Stream(s) => recompress_flate(s, true, &PdfConfig::default()).unwrap(),
        _ => unreachable!(),
    };
    assert_name(&s.dict, "ColorSpace", "DeviceRGB");
    assert_eq!((int_of(&s.dict, "Width"), int_of(&s.dict, "Height")), (3, 2));
}

#[test]
fn flate_image_without_size_is_malformed() {
    let mut object = flate_image(&[1, 2, 3], 1, 1, "DeviceRGB");
    if let Object::Stream(s) = &mut object {
        s.dict.remove(b"Width");
        assert_eq!(recompress_flate(s, false, &PdfConfig::default()).err(), Some(RecompressError::Malformed));
    }
}

#[test]
fn flate_image_with_bad_payload_fails_to_decode() {
    if let Object::Stream(mut s) = flate_image(&[1, 2, 3], 1, 1, "DeviceRGB") {
        s.content = vec![1, 2, 3, 4];
        assert_eq!(recompress_flate(&s, false, &PdfConfig::default()).err(), Some(RecompressError::Decode));
    }
}

#[test]
fn classification_of_other_filters_and_objects() {
    let ccitt = Object::Stream(Stream {
        dict: dict(vec![("Subtype", name("Image")), ("Filter", name("CCITTFaxDecode"))]),
        content: vec![1, 2, 3],
    });
    assert_eq!(classify(&ccitt), ImageKind::Untouched);
    assert_eq!(classify(&flate_image(&[0], 1, 1, "Indexed")), ImageKind::Untouched);
    assert_eq!(classify(&dct_image(vec![], 1, 1, "DeviceCMYK")), ImageKind::Dct);
    assert_eq!(classify(&Object::Integer(3)), ImageKind::Untouched);
}

#[test]
fn ccitt_stream_is_left_byte_identical() {
    let payload = vec![0x26, 0xA0, 0x00, 0xFF, 0x13];
    let (mut doc, pages) = two_page_document();
    doc.objects.push((
        (30, 0),
        Object::Stream(Stream {
            dict: dict(vec![
                ("Subtype", name("Image")),
                ("Filter", name("CCITTFaxDecode")),
                ("Width", Object::Integer(8)),
                ("Height", Object::Integer(5)),
            ]),
            content: payload.clone(),
        }),
    ));
    let mut c = PdfConfig::default();
    c.remove_unuse_fonts = true;
    compress_document(&mut doc, &pages, &c, &no_profiles(), decode_with_image).unwrap();
    let s = stream_of(&doc, (30, 0));
    assert_eq!(s.content, payload);
    assert_name(&s.dict, "Filter", "CCITTFaxDecode");
    assert_eq!(int_of(&s.dict, "Width"), 8);
}

#[test]
fn document_run_recompresses_images_under_their_ids() {
    let jpeg = rgb_jpeg(300, 200);
    let mut doc = Document {
        objects: vec![
            ((5, 0), dct_image(jpeg, 300, 200, "DeviceRGB")),
            ((6, 0), flate_image(&[10, 20, 30, 40, 50, 60], 2, 1, "DeviceRGB")),
            ((7, 0), Object::Array(vec![Object::Reference((5, 0)), Object::Reference((6, 0))])),
        ],
        trailer: dict(vec![("Info", Object::Null)]),
    };
    compress_document(&mut doc, &vec![], &config(100), &no_profiles(), decode_with_image).unwrap();
    assert_eq!(ids(&doc), vec![(5, 0), (6, 0), (7, 0)]);
    let a = stream_of(&doc, (5, 0));
    assert_eq!((int_of(&a.dict, "Width"), int_of(&a.dict, "Height")), (100, 67));
    assert_name(&a.dict, "Filter", "DCTDecode");
    let b = stream_of(&doc, (6, 0));
    assert_name(&b.dict, "Filter", "FlateDecode");
    assert!(lookup(&doc.trailer, "Info").is_none());
}

#[test]
fn failed_decode_leaves_document_untouched_and_names_the_image() {
    let mut doc = Document {
        objects: vec![
            ((6, 0), flate_image(&[10, 20, 30], 1, 1, "DeviceRGB")),
            ((5, 0), dct_image(vec![1, 2, 3], 10, 10, "DeviceRGB")),
        ],
        trailer: Dictionary::new(),
    };
    let before = format!("{:?}", doc);
    let r = compress_images(&mut doc, &PdfConfig::default(), &no_profiles(), |_b: &Vec<u8>| None);
    let failure = r.unwrap_err();
    assert_eq!(failure.id, (5, 0));
    assert_eq!(failure.error, RecompressError::Decode);
    assert_eq!(format!("{:?}", doc), before);
}

#[test]
fn flate_payload_is_the_deflated_png_of_the_palette_raster() {
    let palette = vec![255, 0, 0, 255, 0, 0, 255, 255];
    let payload = compressor::images::flate_payload(&palette, &vec![0, 1, 1, 0], 2, 2).unwrap();
    let png = inflate(&payload);
    let back = image::load_from_memory(&png).unwrap().to_rgba8();
    assert_eq!(back.into_raw(), vec![255, 0, 0, 255, 0, 0, 255, 255, 0, 0, 255, 255, 255, 0, 0, 255]);
    assert_eq!(
        compressor::images::flate_payload(&palette, &vec![0, 2, 1, 0], 2, 2).err(),
        Some(RecompressError::Codec)
    );
    assert_eq!(compressor::images::flate_payload(&palette, &vec![0, 1], 2, 2).err(), Some(RecompressError::Codec));
}
