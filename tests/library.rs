use std::io::Cursor;

use colorthumb::codec::ColorKind;
use colorthumb::color::{color_strings, triples_from_bytes, RgbColor};
use colorthumb::format::{take_format, OutputFormat};
use colorthumb::report::render_report;
use colorthumb::scale::scale_down_by_width;
use colorthumb::summary::{has_alpha, plan_thumbnail, summarize, SummaryError};
use colorthumb::swatch::{create_solid_color_image, solid_color_pixels};

fn encoded(width: u32, height: u32, format: image::ImageOutputFormat) -> Vec<u8> {
    let img = image::RgbImage::from_pixel(width, height, image::Rgb([200, 30, 40]));
    let mut buf: Vec<u8> = Vec::new();
    img.write_to(&mut Cursor::new(&mut buf), format).unwrap();
    buf
}

fn payload_of(report: &str) -> Vec<u8> {
    let marker = "data:image/png;base64,";
    let start = report.find(marker).unwrap() + marker.len();
    base64::decode(&report[start..]).unwrap()
}

#[test]
fn decimal_fields_in_report() {
    let r = render_report(&vec![], 0, 10, 7, u32::MAX, "");
    assert!(r.contains("\noriginal_dimension: 0/10\n"));
    assert!(r.contains("\nthumbnail_dimension: 7/4294967295\n"));
}

#[test]
fn color_to_string() {
    let c = RgbColor { r: 1u8, g: 22u8, b: 255u8 };
    assert_eq!(c.to_string(), "rgb(1,22,255)");
    let z = RgbColor { r: 0u8, g: 0u8, b: 0u8 };
    assert_eq!(z.to_string(), "rgb(0,0,0)");
}

#[test]
fn triples_exact_multiple() {
    let t = triples_from_bytes(&vec![1, 2, 3, 4, 5, 6]);
    assert_eq!(t.len(), 2);
    assert_eq!(t[0], RgbColor { r: 1, g: 2, b: 3 });
    assert_eq!(t[1], RgbColor { r: 4, g: 5, b: 6 });
}

#[test]
fn triples_drop_trailing_channels() {
    assert_eq!(triples_from_bytes(&vec![1, 2, 3, 4]).len(), 1);
    assert_eq!(triples_from_bytes(&vec![1, 2, 3, 4, 5]).len(), 1);
    assert_eq!(triples_from_bytes(&vec![9, 8, 7, 6, 5, 4, 3]).len(), 2);
    assert_eq!(triples_from_bytes(&vec![1, 2]).len(), 0);
    assert_eq!(triples_from_bytes(&vec![]).len(), 0);
    for n in 0..20usize {
        let bytes: Vec<u8> = (0..n as u8).collect();
        assert_eq!(triples_from_bytes(&bytes).len(), n / 3);
    }
}

#[test]
fn color_strings_in_order() {
    let cs = vec![RgbColor { r: 10, g: 20, b: 30 }, RgbColor { r: 255, g: 0, b: 7 }];
    assert_eq!(color_strings(&cs), vec!["rgb(10,20,30)".to_string(), "rgb(255,0,7)".to_string()]);
}

#[test]
fn scale_keeps_aspect_ratio() {
    let f = scale_down_by_width(200, 100, 100).unwrap();
    assert_eq!(f.numerator * 200, 100 * 100 * f.denominator);
    assert_eq!(f.floor(), 50);
    let g = scale_down_by_width(300, 100, 100).unwrap();
    assert_eq!(g.floor(), 33);
    assert!(g.floor() * 300 <= 100 * 100 && 100 * 100 < (g.floor() + 1) * 300);
}

#[test]
fn scale_wide_jpeg_to_five() {
    // 5 / (400 / 100) is exactly 1.25
    let f = scale_down_by_width(400, 100, 5).unwrap();
    assert_eq!(f.numerator * 4, f.denominator * 5);
    assert_eq!(f.numerator as f64 / f.denominator as f64, 1.25);
    assert_eq!(f.floor(), 1);
}

#[test]
fn scale_zero_sizes() {
    assert!(scale_down_by_width(0, 100, 100).is_none());
    assert_eq!(scale_down_by_width(100, 0, 100).unwrap().floor(), 0);
}

#[test]
fn solid_pixels_repeat_color() {
    let c = RgbColor { r: 1, g: 2, b: 3 };
    assert_eq!(solid_color_pixels(2, 1, &c), vec![1, 2, 3, 1, 2, 3]);
    assert_eq!(solid_color_pixels(2, 2, &c).len(), 12);
    assert!(solid_color_pixels(0, 5, &c).is_empty());
}

#[test]
fn solid_image_round_trip() {
    let c = RgbColor { r: 12, g: 140, b: 250 };
    let text = create_solid_color_image(3, 2, &c);
    assert!(!text.is_empty());
    let png = base64::decode(&text).unwrap();
    let img = image::load_from_memory(&png).unwrap().to_rgb8();
    assert_eq!(img.dimensions(), (3, 2));
    for p in img.pixels() {
        assert_eq!(p.0, [12, 140, 250]);
    }
}

#[test]
fn report_layout() {
    let cs = vec![RgbColor { r: 1, g: 2, b: 3 }, RgbColor { r: 40, g: 50, b: 60 }];
    let r = render_report(&cs, 200, 100, 100, 50, "QUJD");
    assert_eq!(
        r,
        "colors: [\"rgb(1,2,3)\", \"rgb(40,50,60)\"]\noriginal_dimension: 200/100\nthumbnail_dimension: 100/50\nbase64_thumbnail: data:image/png;base64,QUJD"
    );
    let empty = render_report(&vec![], 1, 2, 3, 4, "");
    assert_eq!(
        empty,
        "colors: []\noriginal_dimension: 1/2\nthumbnail_dimension: 3/4\nbase64_thumbnail: data:image/png;base64,"
    );
}

#[test]
fn format_from_mime() {
    assert_eq!(take_format("image/jpeg", 80), OutputFormat::Jpeg(80));
    assert_eq!(take_format("image/png", 80), OutputFormat::Png);
    assert_eq!(take_format("image/gif", 80), OutputFormat::Gif);
}

#[test]
fn format_unknown_mime_is_unsupported() {
    assert_eq!(take_format("image/webp", 80), OutputFormat::Unsupported("image/webp".to_string()));
    assert_eq!(take_format("", 80), OutputFormat::Unsupported(String::new()));
    assert_eq!(take_format("image/PNG", 80), OutputFormat::Unsupported("image/PNG".to_string()));
}

#[test]
fn alpha_hint_only_for_rgba8() {
    assert!(has_alpha(&ColorKind::Rgba8));
    assert!(!has_alpha(&ColorKind::Rgb8));
    assert!(!has_alpha(&ColorKind::La8));
    assert!(!has_alpha(&ColorKind::Rgba16));
}

#[test]
fn plan_ok() {
    let p = plan_thumbnail(&vec![1, 2, 3, 4, 5, 6, 7], 200, 100, 100, 1).unwrap();
    assert_eq!(p.thumbnail_height, 50);
    assert_eq!(p.thumbnail_width, 100);
    assert_eq!((p.width, p.height), (200, 100));
    assert_eq!(p.colors.len(), 2);
    assert_eq!(p.swatch, RgbColor { r: 4, g: 5, b: 6 });
}

#[test]
fn plan_errors() {
    assert_eq!(plan_thumbnail(&vec![1, 2, 3], 0, 100, 100, 0).unwrap_err(), SummaryError::ZeroWidth);
    assert_eq!(
        plan_thumbnail(&vec![1, 2, 3], 1, u32::MAX, u32::MAX, 0).unwrap_err(),
        SummaryError::TooLarge
    );
    assert_eq!(plan_thumbnail(&vec![1, 2], 200, 100, 100, 0).unwrap_err(), SummaryError::NoColor);
    assert_eq!(plan_thumbnail(&vec![1, 2, 3], 200, 100, 100, 1).unwrap_err(), SummaryError::NoColor);
}

#[test]
fn summarize_png_200_by_100() {
    let bytes = encoded(200, 100, image::ImageOutputFormat::Png);
    let report = summarize(&bytes, 100, 0).unwrap();
    assert!(report.starts_with("colors: [\"rgb("));
    assert!(report.contains("\noriginal_dimension: 200/100\n"));
    assert!(report.contains("\nthumbnail_dimension: 100/50\n"));
    let thumb = image::load_from_memory(&payload_of(&report)).unwrap();
    assert_eq!((thumb.width(), thumb.height()), (100, 50));
}

#[test]
fn summarize_jpeg_400_by_100() {
    let bytes = encoded(400, 100, image::ImageOutputFormat::Jpeg(90));
    let report = summarize(&bytes, 5, 0).unwrap();
    assert!(report.contains("\noriginal_dimension: 400/100\n"));
    assert!(report.contains("\nthumbnail_dimension: 5/1\n"));
    let thumb = image::load_from_memory(&payload_of(&report)).unwrap();
    assert_eq!((thumb.width(), thumb.height()), (5, 1));
}

#[test]
fn summarize_truncated_png_fails() {
    let bytes = encoded(20, 10, image::ImageOutputFormat::Png);
    let truncated = bytes[..12].to_vec();
    assert_eq!(summarize(&truncated, 100, 0).unwrap_err(), SummaryError::Decode);
    assert_eq!(summarize(&vec![1, 2, 3, 4], 100, 0).unwrap_err(), SummaryError::Decode);
    assert_eq!(summarize(&vec![], 100, 0).unwrap_err(), SummaryError::Decode);
}

#[test]
fn summarize_flat_image_fails_to_encode() {
    // 100 / (1000 / 1) rounds down to a zero-pixel height
    let bytes = encoded(1000, 1, image::ImageOutputFormat::Png);
    assert_eq!(summarize(&bytes, 100, 0).unwrap_err(), SummaryError::EmptyThumbnail);
}

#[test]
fn summarize_zero_thumbnail_width_fails() {
    let bytes = encoded(200, 100, image::ImageOutputFormat::Png);
    assert_eq!(summarize(&bytes, 0, 0).unwrap_err(), SummaryError::EmptyThumbnail);
}

#[test]
fn plan_empty_thumbnail() {
    assert_eq!(plan_thumbnail(&vec![1, 2, 3], 1000, 1, 100, 0).unwrap_err(), SummaryError::EmptyThumbnail);
    assert_eq!(plan_thumbnail(&vec![1, 2, 3], 200, 100, 0, 0).unwrap_err(), SummaryError::EmptyThumbnail);
}

#[test]
fn solid_image_single_pixel() {
    let c = RgbColor { r: 0, g: 0, b: 0 };
    let png = base64::decode(create_solid_color_image(1, 1, &c)).unwrap();
    assert_eq!(&png[..8], &[137, 80, 78, 71, 13, 10, 26, 10]);
}

#[test]
fn summarize_webp_inter_frame_has_no_metadata() {
    // a RIFF/WEBP file whose VP8 chunk starts with an inter frame
    let mut bytes: Vec<u8> = b"RIFF".to_vec();
    bytes.extend_from_slice(&24u32.to_le_bytes());
    bytes.extend_from_slice(b"WEBPVP8 ");
    bytes.extend_from_slice(&12u32.to_le_bytes());
    bytes.extend_from_slice(&[0x01, 0, 0, 0x9d, 0x01, 0x2a, 1, 0, 1, 0, 0, 0]);
    assert!(summarize(&bytes, 100, 0).is_err());
}
