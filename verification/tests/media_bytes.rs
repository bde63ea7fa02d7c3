use canvas_ai::media::{
    compress_decoded, decode_image, downscale_request, label_jpeg_upload, max_upload_edge,
    needs_downscale, output_encoding, report_decoding, upload_payload, OutputEncoding,
};

fn png_bytes(width: u32, height: u32) -> Vec<u8> {
    let img = image::RgbImage::from_pixel(width, height, image::Rgb([200, 10, 30]));
    let mut out = std::io::Cursor::new(Vec::new());
    image::DynamicImage::ImageRgb8(img)
        .write_to(&mut out, image::ImageFormat::Png)
        .unwrap();
    out.into_inner()
}

#[test]
fn upload_payload_is_standard_base64_of_the_chosen_bytes() {
    assert_eq!(upload_payload(b"Man", Err("x".to_string())), "TWFu");
    assert_eq!(upload_payload(b"Ma", Err("x".to_string())), "TWE=");
    assert_eq!(upload_payload(b"M", Err("x".to_string())), "TQ==");
    assert_eq!(upload_payload(b"", Err("x".to_string())), "");
    assert_eq!(upload_payload(&[0xff, 0xfe, 0x3f], Err("x".to_string())), "//4/");
    assert_eq!(
        upload_payload(b"raw", Ok((b"hello world".to_vec(), "image/jpeg".to_string()))),
        "aGVsbG8gd29ybGQ="
    );
}

#[test]
fn encoding_follows_magic_bytes() {
    assert!(matches!(output_encoding(&[0xff, 0xd8, 0xff, 0xe0]), OutputEncoding::Jpeg));
    assert!(matches!(output_encoding(&[0x89, b'P', b'N', b'G', 0x0d]), OutputEncoding::RgbJpeg));
    assert!(matches!(output_encoding(b"GIF89a"), OutputEncoding::RgbJpeg));
    assert!(matches!(output_encoding(&[0xff, 0xd8, 0xff]), OutputEncoding::RgbJpeg));
}

#[test]
fn downscale_is_needed_only_beyond_the_edge() {
    assert_eq!(max_upload_edge(), 1024);
    assert!(!needs_downscale(1024, 1024, 1024));
    assert!(needs_downscale(1025, 10, 1024));
    assert!(needs_downscale(10, 2000, 1024));
}

#[test]
fn decode_failure_is_reported() {
    let err = decode_image(b"not an image").err().unwrap();
    assert!(err.starts_with("decode failed: "));
}

#[test]
fn png_references_become_jpeg_and_shrink() {
    let bytes = png_bytes(2048, 512);
    let img = decode_image(&bytes).ok().unwrap();
    let request = downscale_request(&img, 1024);
    assert_eq!(request, Some((2048, 512, 2048)));
    let (out, mime) = compress_decoded(&bytes, img, Some((1024, 256))).unwrap();
    assert_eq!(mime, "image/jpeg");
    assert_eq!(&out[..3], &[0xff, 0xd8, 0xff]);
    let back = image::load_from_memory(&out).unwrap();
    assert_eq!((back.width(), back.height()), (1024, 256));
}

#[test]
fn resizing_keeps_the_aspect_ratio_within_the_bounds() {
    let bytes = png_bytes(2048, 512);
    let img = decode_image(&bytes).ok().unwrap();
    let (out, _) = compress_decoded(&bytes, img, Some((1024, 1024))).unwrap();
    let back = image::load_from_memory(&out).unwrap();
    assert_eq!((back.width(), back.height()), (1024, 256));
}

#[test]
fn small_images_are_reencoded_without_resizing() {
    let bytes = png_bytes(16, 8);
    let img = decode_image(&bytes).ok().unwrap();
    assert_eq!(downscale_request(&img, 1024), None);
    let (out, mime) = compress_decoded(&bytes, img, None).unwrap();
    assert_eq!(mime, "image/jpeg");
    assert_eq!(&out[..3], &[0xff, 0xd8, 0xff]);
    let back = image::load_from_memory(&out).unwrap();
    assert_eq!((back.width(), back.height()), (16, 8));
}

#[test]
fn jpeg_references_stay_jpeg() {
    let img = image::RgbImage::from_pixel(40, 20, image::Rgb([9, 90, 200]));
    let mut out = std::io::Cursor::new(Vec::new());
    image::DynamicImage::ImageRgb8(img).write_to(&mut out, image::ImageFormat::Jpeg).unwrap();
    let jpeg = out.into_inner();
    assert!(matches!(output_encoding(&jpeg), OutputEncoding::Jpeg));
    let decoded = decode_image(&jpeg).ok().unwrap();
    let (bytes, mime) = compress_decoded(&jpeg, decoded, Some((20, 10))).unwrap();
    assert_eq!(mime, "image/jpeg");
    assert_ne!(bytes, jpeg);
    let back = image::load_from_memory(&bytes).unwrap();
    assert_eq!((back.width(), back.height()), (20, 10));
}

#[test]
fn decode_failure_keeps_the_codec_message() {
    let err = decode_image(b"GIF89a").err().unwrap();
    let codec = image::load_from_memory(b"GIF89a").err().unwrap().to_string();
    assert_eq!(err, format!("decode failed: {}", codec));
}

#[test]
fn other_formats_become_jpeg() {
    let img = image::RgbImage::from_pixel(4, 4, image::Rgb([1, 2, 3]));
    let mut out = std::io::Cursor::new(Vec::new());
    image::DynamicImage::ImageRgb8(img).write_to(&mut out, image::ImageFormat::Gif).unwrap();
    let gif = out.into_inner();
    let decoded = decode_image(&gif).ok().unwrap();
    let (bytes, mime) = compress_decoded(&gif, decoded, None).unwrap();
    assert_eq!(mime, "image/jpeg");
    assert_eq!(&bytes[..3], &[0xff, 0xd8, 0xff]);
}

#[test]
fn encoder_results_are_labelled_for_upload() {
    assert_eq!(
        label_jpeg_upload(Ok(vec![0xff, 0xd8, 0xff, 0x00])),
        Ok((vec![0xff, 0xd8, 0xff, 0x00], "image/jpeg".to_string()))
    );
    assert_eq!(label_jpeg_upload(Err("too big".to_string())), Err("jpeg encode failed: too big".to_string()));
}

#[test]
fn codec_errors_are_reported_as_decode_failures() {
    assert_eq!(report_decoding(Err("bad header".to_string())).err(), Some("decode failed: bad header".to_string()));
    let img = image::DynamicImage::ImageRgb8(image::RgbImage::new(3, 2));
    let back = report_decoding(Ok(img)).ok().unwrap();
    assert_eq!((back.width(), back.height()), (3, 2));
}

#[test]
fn bounds_equal_to_the_size_keep_the_size() {
    let bytes = png_bytes(16, 8);
    let img = decode_image(&bytes).ok().unwrap();
    let (out, _) = compress_decoded(&bytes, img, Some((16, 8))).unwrap();
    let back = image::load_from_memory(&out).unwrap();
    assert_eq!((back.width(), back.height()), (16, 8));
}
