use glyph_grid::crop::{crop_border, crop_rect, CropConfig};
use glyph_grid::error::ScanError;
use glyph_grid::grid::{cell_rects, grid_cut_image, GridSpec};
use glyph_grid::raster::{LumaImage, Rect};
use glyph_grid::transform::{binarize, normalize_orientation, rotate270, sharpen, BACKGROUND, FOREGROUND};

fn image_from(width: u32, rows: Vec<Vec<u8>>) -> LumaImage {
    LumaImage::from_rows(width, rows).expect("rows of equal width")
}

fn gradient(width: u32, height: u32) -> LumaImage {
    let rows = (0..height)
        .map(|y| (0..width).map(|x| ((x * 7 + y * 13) % 256) as u8).collect())
        .collect();
    image_from(width, rows)
}

#[test]
fn portrait_is_rotated_to_landscape() {
    let img = image_from(2, vec![vec![1, 2], vec![3, 4], vec![5, 6]]);
    let out = normalize_orientation(img);
    assert_eq!(out.width(), 3);
    assert_eq!(out.height(), 2);
    assert!(out.width() >= out.height());
    // counter-clockwise: the right column becomes the top row
    assert_eq!(out.rows, vec![vec![2, 4, 6], vec![1, 3, 5]]);
}

#[test]
fn rotate270_moves_pixels_counter_clockwise() {
    let img = gradient(4, 6);
    let out = rotate270(&img);
    assert_eq!((out.width(), out.height()), (6, 4));
    for y in 0..6 {
        for x in 0..4 {
            assert_eq!(out.get_pixel(y, 4 - 1 - x), img.get_pixel(x, y));
        }
    }
}

#[test]
fn landscape_and_square_are_unchanged() {
    let wide = gradient(5, 3);
    let out = normalize_orientation(image_from(5, wide.rows.clone()));
    assert_eq!(out.rows, wide.rows);
    assert_eq!((out.width(), out.height()), (5, 3));
    let square = gradient(4, 4);
    let out = normalize_orientation(image_from(4, square.rows.clone()));
    assert_eq!(out.rows, square.rows);
}

#[test]
fn sharpen_keeps_uniform_images() {
    let img = LumaImage::filled(5, 4, 255);
    let out = sharpen(&img);
    assert_eq!((out.width(), out.height()), (5, 4));
    assert!(out.rows.iter().all(|r| r.iter().all(|&p| p == 255)));
    let grey = LumaImage::filled(3, 3, 90);
    assert!(sharpen(&grey).rows.iter().all(|r| r.iter().all(|&p| p == 90)));
}

#[test]
fn sharpen_applies_kernel_and_clamps() {
    let img = image_from(3, vec![vec![10, 20, 10], vec![30, 60, 40], vec![10, 50, 10]]);
    let out = sharpen(&img);
    // centre: 5*60 - (30 + 40 + 20 + 50) = 160
    assert_eq!(out.get_pixel(1, 1), 160);
    // top left, edge extended: 5*10 - (10 + 20 + 10 + 30) = -20 -> 0
    assert_eq!(out.get_pixel(0, 0), 0);
    // right middle: 5*40 - (60 + 40 + 10 + 10) = 80
    assert_eq!(out.get_pixel(2, 1), 80);
    let bright = image_from(3, vec![vec![0, 0, 0], vec![0, 200, 0], vec![0, 0, 0]]);
    assert_eq!(sharpen(&bright).get_pixel(1, 1), 255);
}

#[test]
fn binarize_gives_two_levels() {
    let img = gradient(16, 16);
    let out = binarize(&img, 128);
    for y in 0..16 {
        for x in 0..16 {
            let p = out.get_pixel(x, y);
            assert!(p == BACKGROUND || p == FOREGROUND);
            let expected = if img.get_pixel(x, y) >= 128 { BACKGROUND } else { FOREGROUND };
            assert_eq!(p, expected);
        }
    }
}

#[test]
fn binarize_threshold_extremes() {
    let img = image_from(4, vec![vec![0, 1, 254, 255]]);
    assert_eq!(binarize(&img, 0).rows, vec![vec![255, 255, 255, 255]]);
    assert_eq!(binarize(&img, 255).rows, vec![vec![0, 0, 0, 255]]);
    // a pixel equal to the threshold is background
    assert_eq!(binarize(&img, 254).rows, vec![vec![0, 0, 255, 255]]);
}

#[test]
fn crop_rect_of_a_scan() {
    let rect = crop_rect(&CropConfig::template(), 1600, 1200).unwrap();
    assert_eq!(rect, Rect { x: 105, y: 94, width: 1390, height: 1030 });
}

#[test]
fn crop_shrinks_images() {
    for (w, h) in [(16u32, 13u32), (30, 30), (31, 47), (1000, 700), (2550, 3300)] {
        let img = gradient(w, h);
        let out = crop_border(&img, &CropConfig::template()).unwrap();
        assert!(out.width() < w);
        assert!(out.height() < h);
    }
    // below those sizes the margins are empty
    let small = gradient(15, 12);
    let out = crop_border(&small, &CropConfig::template()).unwrap();
    assert_eq!((out.width(), out.height()), (15, 12));
}

#[test]
fn crop_copies_the_inner_region() {
    let img = gradient(100, 50);
    let out = crop_border(&img, &CropConfig::template()).unwrap();
    // margins: floor(6.6) = 6, floor(3.95) = 3, offset floor(0.6) = 0
    assert_eq!((out.width(), out.height()), (88, 44));
    for y in 0..44 {
        for x in 0..88 {
            assert_eq!(out.get_pixel(x, y), img.get_pixel(x + 6, y + 3));
        }
    }
}

#[test]
fn crop_outside_the_image_is_invalid_geometry() {
    let wide_margins = CropConfig {
        margin_x_num: 6,
        margin_x_den: 10,
        margin_y_num: 79,
        margin_y_den: 1000,
        offset_num: 2,
        offset_den: 10,
    };
    let img = gradient(100, 100);
    assert_eq!(crop_border(&img, &wide_margins).err(), Some(ScanError::InvalidGeometry));
    let long_offset = CropConfig { offset_num: 3, offset_den: 2, ..CropConfig::template() };
    assert_eq!(crop_rect(&long_offset, 100, 100), Err(ScanError::InvalidGeometry));
}

#[test]
fn grid_of_tiny_image_has_all_cells() {
    let img = LumaImage::filled(12, 9, 255);
    let grid = GridSpec::template();
    let views = grid_cut_image(&img, grid.columns, grid.rows);
    assert_eq!(views.len(), 108);
    for (i, v) in views.iter().enumerate() {
        let r = v.rect();
        assert_eq!(r, Rect { x: (i % 12) as u32, y: (i / 12) as u32, width: 1, height: 1 });
        assert_eq!(v.to_image().rows, vec![vec![255]]);
    }
    let empty = LumaImage::filled(5, 3, 0);
    let views = grid_cut_image(&empty, 12, 9);
    assert_eq!(views.len(), 108);
    assert!(views.iter().all(|v| v.rect().width == 0 && v.rect().height == 0));
}

#[test]
fn grid_drops_remainder_and_cells_do_not_overlap() {
    let (w, h, cols, rows) = (103u32, 50u32, 12u32, 9u32);
    let cells = cell_rects(w, h, cols, rows);
    assert_eq!(cells.len(), 108);
    for row in 0..rows as usize {
        let sum: u32 = cells[row * 12..row * 12 + 12].iter().map(|r| r.width).sum();
        assert_eq!(sum, 96);
        assert!(sum <= w);
    }
    for (i, a) in cells.iter().enumerate() {
        assert!(a.x + a.width <= w && a.y + a.height <= h);
        for b in cells.iter().skip(i + 1) {
            let apart_x = a.x + a.width <= b.x || b.x + b.width <= a.x;
            let apart_y = a.y + a.height <= b.y || b.y + b.height <= a.y;
            assert!(apart_x || apart_y);
        }
    }
    assert_eq!(cells[13], Rect { x: 8, y: 5, width: 8, height: 5 });
}

#[test]
fn cell_view_materializes_its_region() {
    let img = gradient(24, 18);
    let views = grid_cut_image(&img, 12, 9);
    let cell = views[12 + 3].to_image();
    assert_eq!((cell.width(), cell.height()), (2, 2));
    assert_eq!(cell.get_pixel(1, 0), img.get_pixel(7, 2));
    assert_eq!(cell.get_pixel(0, 1), img.get_pixel(6, 3));
}

#[test]
fn from_rows_rejects_ragged_rows() {
    assert!(LumaImage::from_rows(2, vec![vec![1, 2], vec![3]]).is_none());
    let img = LumaImage::from_rows(0, vec![vec![], vec![]]).unwrap();
    assert_eq!((img.width(), img.height()), (0, 2));
}
