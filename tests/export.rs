use page_recorder::dpi::{with_dpi, RasterFormat};
use page_recorder::export::{
    finish_export, parse_format, raw_layout, ColorLayout, ExportError, ExportFormat, ExportPlan,
    PixelRect,
};
use page_recorder::geometry::Rect;
use page_recorder::page::Page;
use page_recorder::recording::Paint;
use page_recorder::surface::PageRecorder;

fn fake_png() -> Vec<u8> {
    let mut v = vec![0x89, b'P', b'N', b'G', 0x0d, 0x0a, 0x1a, 0x0a];
    v.extend_from_slice(&[0, 0, 0, 13, b'I', b'H', b'D', b'R']);
    v.extend_from_slice(&[0; 17]);
    v.extend_from_slice(&[0, 0, 0, 0, b'I', b'D', b'A', b'T', 1, 2, 3, 4]);
    v
}

fn page(bounds: Rect) -> Page {
    let mut rec = PageRecorder::new(bounds);
    rec.append(Paint::FillRect(Rect::new(10, 10, 40, 40), 0xff000000));
    rec.get_page()
}

#[test]
fn disjoint_crop_is_refused() {
    let p = page(Rect::new(0, 0, 100, 100));
    let crop = Rect::new(200, 200, 300, 300);
    for fmt in ["png", "jpg", "pdf", "svg", "raw", "gif"] {
        let r = p.export_plan(fmt, 90, 1, false, Some(crop), None, None);
        assert_eq!(r, Err(ExportError::BadBounds { render: crop, page: Rect::new(0, 0, 100, 100) }));
    }
}

#[test]
fn empty_crop_is_refused() {
    let p = page(Rect::new(0, 0, 100, 100));
    let crop = Rect::new(10, 10, 10, 50);
    assert!(matches!(
        p.export_plan("png", 90, 1, false, Some(crop), None, None),
        Err(ExportError::BadBounds { .. })
    ));
}

#[test]
fn unsupported_format_is_named() {
    let p = page(Rect::new(0, 0, 100, 100));
    assert_eq!(
        p.export_plan("gif", 90, 1, false, None, None, None),
        Err(ExportError::UnsupportedFormat("gif".to_string()))
    );
}

#[test]
fn format_names() {
    assert_eq!(parse_format("jpg"), Some(ExportFormat::Raster(RasterFormat::Jpeg)));
    assert_eq!(parse_format("jpeg"), Some(ExportFormat::Raster(RasterFormat::Jpeg)));
    assert_eq!(parse_format("png"), Some(ExportFormat::Raster(RasterFormat::Png)));
    assert_eq!(parse_format("pdf"), Some(ExportFormat::Pdf));
    assert_eq!(parse_format("svg"), Some(ExportFormat::Svg));
    assert_eq!(parse_format("raw"), Some(ExportFormat::Raw));
    assert_eq!(parse_format("PNG"), None);
    assert_eq!(parse_format(""), None);
}

#[test]
fn png_plan_for_a_square_at_density_one() {
    let p = page(Rect::new(0, 0, 100, 100));
    let plan = p.export_plan("png", 100, 1, false, None, None, None).unwrap();
    assert_eq!(
        plan,
        ExportPlan::Raster {
            format: RasterFormat::Png,
            width: 100,
            height: 100,
            crop: PixelRect { left: 0, top: 0, right: 100, bottom: 100 },
            quality: 100,
            density: 1,
        }
    );
    let bytes = fake_png();
    let out = finish_export(&plan, Some(bytes.clone())).unwrap();
    assert_eq!(out, bytes);
    assert!(!out.windows(4).any(|w| w == b"pHYs"));
}

#[test]
fn raster_plan_scales_by_density() {
    let p = page(Rect::new(0, 0, 30, 20));
    let plan = p.export_plan("jpeg", 80, 2, false, Some(Rect::new(5, 5, 10, 10)), None, None).unwrap();
    assert_eq!(
        plan,
        ExportPlan::Raster {
            format: RasterFormat::Jpeg,
            width: 60,
            height: 40,
            crop: PixelRect { left: 10, top: 10, right: 20, bottom: 20 },
            quality: 80,
            density: 2,
        }
    );
}

#[test]
fn vector_plans_take_the_whole_page() {
    let p = page(Rect::new(0, 0, 30, 20));
    let crop = Some(Rect::new(5, 5, 10, 10));
    assert_eq!(
        p.export_plan("pdf", 50, 3, false, crop, None, None),
        Ok(ExportPlan::Pdf { width: 30, height: 20, quality: 50, raster_dpi: 216 })
    );
    assert_eq!(
        p.export_plan("svg", 50, 3, true, crop, None, None),
        Ok(ExportPlan::Svg { width: 30, height: 20, outline: true })
    );
}

#[test]
fn raw_plan_uses_crop_and_layout() {
    let p = page(Rect::new(0, 0, 30, 20));
    let plan = p
        .export_plan("raw", 50, 3, false, Some(Rect::new(0, 0, 10, 5)), Some(false), Some(ColorLayout::Argb4444))
        .unwrap();
    assert_eq!(plan, ExportPlan::Raw { layout: raw_layout(10, 5, Some(ColorLayout::Argb4444), Some(false)) });
    match plan {
        ExportPlan::Raw { layout } => {
            assert_eq!(layout.row_bytes, 20);
            assert_eq!(layout.byte_size, 100);
            assert!(!layout.premultiplied);
        }
        _ => unreachable!(),
    }
}

#[test]
fn raw_layout_defaults() {
    let l = raw_layout(4, 3, None, None);
    assert_eq!(l.color, ColorLayout::Bgra8888);
    assert!(l.premultiplied);
    assert_eq!(l.row_bytes, 16);
    assert_eq!(l.byte_size, 48);
}

#[test]
fn color_layout_names() {
    assert_eq!(ColorLayout::from_name("rgba"), ColorLayout::Rgba8888);
    assert_eq!(ColorLayout::from_name("rgb"), ColorLayout::Rgb888x);
    assert_eq!(ColorLayout::from_name("bgra"), ColorLayout::Bgra8888);
    assert_eq!(ColorLayout::from_name("argb"), ColorLayout::Argb4444);
    assert_eq!(ColorLayout::from_name("cmyk"), ColorLayout::Rgba8888);
    assert_eq!(ColorLayout::Argb4444.bytes_per_pixel(), 2);
    assert_eq!(ColorLayout::Rgb888x.bytes_per_pixel(), 4);
}

#[test]
fn failed_encodings_are_errors() {
    let raster = ExportPlan::Raster {
        format: RasterFormat::Png,
        width: 1,
        height: 1,
        crop: PixelRect { left: 0, top: 0, right: 1, bottom: 1 },
        quality: 100,
        density: 2,
    };
    assert_eq!(finish_export(&raster, None), Err(ExportError::EncodeFailed(ExportFormat::Raster(RasterFormat::Png))));
    assert_eq!(finish_export(&raster, Some(vec![1, 2, 3])), Err(ExportError::EncodeFailed(ExportFormat::Raster(RasterFormat::Png))));
    let raw = ExportPlan::Raw { layout: raw_layout(1, 1, None, None) };
    assert_eq!(finish_export(&raw, None), Err(ExportError::RawReadFailed));
    assert_eq!(finish_export(&raw, Some(vec![9, 9, 9, 9])), Ok(vec![9, 9, 9, 9]));
    let pdf = ExportPlan::Pdf { width: 1, height: 1, quality: 100, raster_dpi: 72 };
    assert_eq!(finish_export(&pdf, None), Err(ExportError::EncodeFailed(ExportFormat::Pdf)));
}

#[test]
fn png_density_two_gets_phys_chunk() {
    let bytes = fake_png();
    let out = with_dpi(bytes.clone(), RasterFormat::Png, 2);
    assert_eq!(out.len(), bytes.len() + 21);
    assert_eq!(&out[..33], &bytes[..33]);
    assert_eq!(&out[33..37], &[0, 0, 0, 9]);
    assert_eq!(&out[37..41], b"pHYs");
    let ppm = u32::from_be_bytes([out[41], out[42], out[43], out[44]]);
    assert_eq!(ppm, (144.0f64 * 39.3701).round() as u32);
    assert_eq!(ppm, 5669);
    assert_eq!(u32::from_be_bytes([out[45], out[46], out[47], out[48]]), 5669);
    assert_eq!(out[49], 1);
    let crc = crc::Crc::<u32>::new(&crc::CRC_32_ISO_HDLC).checksum(&out[37..50]);
    assert_eq!(u32::from_be_bytes([out[50], out[51], out[52], out[53]]), crc);
    assert_eq!(&out[54..], &bytes[33..]);
}

#[test]
fn png_density_one_is_untouched() {
    let bytes = fake_png();
    assert_eq!(with_dpi(bytes.clone(), RasterFormat::Png, 1), bytes);
}

#[test]
fn jpeg_density_fields_are_overwritten() {
    let bytes: Vec<u8> = (0u8..24).collect();
    let out = with_dpi(bytes.clone(), RasterFormat::Jpeg, 3);
    assert_eq!(out.len(), bytes.len());
    assert_eq!(&out[..13], &bytes[..13]);
    assert_eq!(&out[13..18], &[1, 0, 216, 0, 216]);
    assert_eq!(&out[18..], &bytes[18..]);
    assert_eq!(with_dpi(bytes.clone(), RasterFormat::Jpeg, 1), bytes);
}

#[test]
fn phys_checksum_matches_known_value() {
    // the pHYs chunk of a 72 dpi image, as written by common encoders
    let chunk = page_recorder::dpi::phys_chunk_bytes(2835);
    assert_eq!(&chunk[..8], &[0, 0, 0, 9, b'p', b'H', b'Y', b's']);
    assert_eq!(&chunk[17..21], &[0x00, 0x9a, 0x9c, 0x18]);
}
