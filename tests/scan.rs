use glyph_grid::confirm::confirmation_answer;
use glyph_grid::crop::CropConfig;
use glyph_grid::error::ScanError;
use glyph_grid::grid::GridSpec;
use glyph_grid::pipeline::{scan_image, scan_image_with, validate_threshold, DEFAULT_THRESHOLD};
use glyph_grid::raster::{LumaImage, Rect};

#[test]
fn white_page_yields_uniform_background_cells() {
    let page = LumaImage::filled(1200, 1600, 255);
    let out = scan_image(page, 190).unwrap();
    // oriented to 1600 x 1200, then margins 105 and 94, offset 18
    assert_eq!((out.image.width(), out.image.height()), (1390, 1030));
    assert_eq!(out.cell_count(), 108);
    assert_eq!(out.grid, GridSpec { columns: 12, rows: 9 });
    let views = out.views();
    assert_eq!(views.len(), 108);
    for (i, v) in views.iter().enumerate() {
        let r = v.rect();
        assert_eq!(r.width, 1390 / 12);
        assert_eq!(r.height, 1030 / 9);
        assert_eq!((r.x, r.y), ((i as u32 % 12) * 115, (i as u32 / 12) * 114));
        let cell = v.to_image();
        assert_eq!((cell.width(), cell.height()), (115, 114));
        assert!(cell.rows.iter().all(|row| row.iter().all(|&p| p == 255)));
    }
}

#[test]
fn threshold_out_of_range_is_rejected() {
    let page = LumaImage::filled(40, 30, 255);
    assert_eq!(scan_image(page, 300).err(), Some(ScanError::InvalidThreshold));
    let page = LumaImage::filled(40, 30, 255);
    assert_eq!(scan_image(page, -1).err(), Some(ScanError::InvalidThreshold));
    assert_eq!(validate_threshold(300), Err(ScanError::InvalidThreshold));
    assert_eq!(validate_threshold(0), Ok(0));
    assert_eq!(validate_threshold(255), Ok(255));
    assert_eq!(validate_threshold(DEFAULT_THRESHOLD), Ok(190));
}

#[test]
fn threshold_is_checked_before_geometry() {
    let bad = CropConfig { margin_x_num: 9, margin_x_den: 10, ..CropConfig::template() };
    let page = LumaImage::filled(40, 30, 255);
    let grid = GridSpec::template();
    assert_eq!(scan_image_with(page, 256, &bad, grid).err(), Some(ScanError::InvalidThreshold));
    let page = LumaImage::filled(40, 30, 255);
    assert_eq!(scan_image_with(page, 190, &bad, grid).err(), Some(ScanError::InvalidGeometry));
}

#[test]
fn ink_stays_foreground_through_the_pipeline() {
    let mut rows = vec![vec![255u8; 200]; 150];
    for row in rows.iter_mut().take(80).skip(60) {
        for p in row.iter_mut().take(110).skip(90) {
            *p = 20;
        }
    }
    let page = LumaImage::from_rows(200, rows).unwrap();
    let out = scan_image_with(page, 190, &CropConfig::template(), GridSpec { columns: 2, rows: 1 }).unwrap();
    // margins: floor(13.2) = 13, floor(11.85) = 11, offset floor(2.2) = 2
    assert_eq!((out.image.width(), out.image.height()), (174, 130));
    assert_eq!(out.cells, vec![
        Rect { x: 0, y: 0, width: 87, height: 130 },
        Rect { x: 87, y: 0, width: 87, height: 130 },
    ]);
    assert_eq!(out.image.get_pixel(100 - 13, 70 - 11), 0);
    assert_eq!(out.image.get_pixel(10, 10), 255);
}

#[test]
fn confirmation_answers() {
    assert_eq!(confirmation_answer(b"y\n"), Some(true));
    assert_eq!(confirmation_answer(b"  yes please"), Some(true));
    assert_eq!(confirmation_answer(b"\tno\r\n"), Some(false));
    assert_eq!(confirmation_answer(b"maybe"), None);
    assert_eq!(confirmation_answer(b"   \n"), None);
    assert_eq!(confirmation_answer(b""), None);
    assert_eq!(confirmation_answer(b"Y"), None);
}

#[test]
fn error_messages_are_distinct() {
    let a = ScanError::InvalidThreshold.message();
    let b = ScanError::InvalidGeometry.message();
    let c = ScanError::DecodeFailure.message();
    assert!(a != b && b != c && a != c);
}
