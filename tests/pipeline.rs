use braille_view::braille::pixels_to_braille;
use braille_view::color::{CustomColorMap, BLACK, WHITE};
use braille_view::dither::dither;
use braille_view::raster::RgbImage;
use braille_view::render::{braille_art, dithered_braille, render_braille};
use braille_view::size::{resolve_size, size_source, SizeSource, DEFAULT_WIDTH};

fn solid(width: u32, height: u32, c: [u8; 3]) -> RgbImage {
    let mut pixels = Vec::new();
    for _ in 0..(width * height) {
        pixels.extend_from_slice(&c);
    }
    RgbImage::from_raw(width, height, pixels).unwrap()
}

fn with_lit(width: u32, height: u32, lit: &[(u32, u32)]) -> RgbImage {
    let mut img = solid(width, height, BLACK);
    for &(x, y) in lit {
        let o = (3 * (y * width + x)) as usize;
        img.pixels[o] = 255;
        img.pixels[o + 1] = 255;
        img.pixels[o + 2] = 255;
    }
    img
}

fn is_two_tone(img: &RgbImage) -> bool {
    img.pixels.chunks(3).all(|p| p == BLACK || p == WHITE)
}

#[test]
fn index_of_follows_luminance_threshold() {
    let map = CustomColorMap;
    assert_eq!(map.index_of(&[0, 0, 0]), 0);
    assert_eq!(map.index_of(&[255, 255, 255]), 1);
    assert_eq!(map.index_of(&[128, 128, 128]), 1);
    assert_eq!(map.index_of(&[127, 127, 127]), 0);
    assert_eq!(map.index_of(&[255, 0, 0]), 0);
    assert_eq!(map.index_of(&[0, 255, 0]), 1);
    assert_eq!(map.index_of(&[0, 0, 255]), 0);
    assert_eq!(map.index_of(&[0, 179, 0]), 1);
    assert_eq!(map.index_of(&[0, 178, 0]), 0);
}

#[test]
fn map_color_gives_palette_entries() {
    let map = CustomColorMap;
    let mut c = [200, 200, 200];
    map.map_color(&mut c);
    assert_eq!(c, WHITE);
    let mut d = [10, 20, 30];
    map.map_color(&mut d);
    assert_eq!(d, BLACK);
    let mut e = d;
    map.map_color(&mut e);
    assert_eq!(e, d);
    assert_eq!(map.index_of(&c), 1);
}

#[test]
fn from_raw_checks_length() {
    assert!(RgbImage::from_raw(2, 2, vec![0; 12]).is_some());
    assert!(RgbImage::from_raw(2, 2, vec![0; 11]).is_none());
    assert!(RgbImage::from_raw(0, 5, vec![]).is_some());
}

#[test]
fn full_block_is_full_cell() {
    let img = solid(2, 4, WHITE);
    assert_eq!(pixels_to_braille(0, 0, &img), Some('\u{28FF}'));
}

#[test]
fn dark_block_is_blank_cell() {
    let img = solid(2, 4, BLACK);
    assert_eq!(pixels_to_braille(0, 0, &img), Some('\u{2800}'));
}

#[test]
fn dot_bits_follow_layout() {
    let cases: [((u32, u32), u32); 8] = [
        ((0, 0), 0),
        ((0, 1), 1),
        ((0, 2), 2),
        ((1, 0), 3),
        ((1, 1), 4),
        ((1, 2), 5),
        ((0, 3), 6),
        ((1, 3), 7),
    ];
    for ((x, y), bit) in cases {
        let img = with_lit(2, 4, &[(x, y)]);
        let want = char::from_u32(0x2800 + (1 << bit)).unwrap();
        assert_eq!(pixels_to_braille(0, 0, &img), Some(want));
    }
}

#[test]
fn partial_block_treats_missing_pixels_as_dark() {
    let img = solid(1, 1, WHITE);
    assert_eq!(pixels_to_braille(0, 0, &img), Some('\u{2801}'));
    assert_eq!(pixels_to_braille(4, 4, &img), Some('\u{2800}'));
    let wide = solid(3, 5, WHITE);
    assert_eq!(pixels_to_braille(2, 4, &wide), Some('\u{2801}'));
}

#[test]
fn mean_threshold_is_strict() {
    let mut img = solid(2, 4, [129, 129, 129]);
    assert_eq!(pixels_to_braille(0, 0, &img), Some('\u{28FF}'));
    img = solid(2, 4, [128, 128, 128]);
    assert_eq!(pixels_to_braille(0, 0, &img), Some('\u{2800}'));
}

#[test]
fn explicit_width_doubles_columns() {
    assert_eq!(resolve_size(4, 8, Some(2), None), (4, 8));
    assert_eq!(resolve_size(100, 50, Some(10), Some((80, 25))), (20, 10));
    assert_eq!(resolve_size(3, 1, Some(1), None), (2, 0));
}

#[test]
fn no_terminal_uses_default_width() {
    assert_eq!(resolve_size(100, 50, None, None), (240, 120));
    assert_eq!(resolve_size(3, 7, None, None), (240, 560));
    assert_eq!(DEFAULT_WIDTH, 240);
}

#[test]
fn single_row_terminal_falls_back_to_default() {
    assert_eq!(resolve_size(100, 50, None, Some((80, 1))), (240, 120));
    assert_eq!(resolve_size(100, 50, None, Some((80, 0))), (240, 120));
    assert_eq!(size_source(None, Some((80, 1))), SizeSource::Default);
}

#[test]
fn terminal_fit_takes_smaller_width() {
    assert_eq!(size_source(None, Some((80, 25))), SizeSource::TerminalFit(160, 96));
    assert_eq!(resolve_size(100, 50, None, Some((80, 25))), (160, 80));
    assert_eq!(resolve_size(50, 100, None, Some((80, 25))), (48, 96));
    assert_eq!(resolve_size(0, 100, None, Some((80, 25))), (160, 0));
    assert_eq!(resolve_size(100, 0, None, Some((200, 25))), (240, 0));
}

#[test]
fn oversized_requests_fall_back_to_default() {
    assert_eq!(size_source(Some(u32::MAX), None), SizeSource::Default);
    assert_eq!(size_source(Some(7), None), SizeSource::Explicit(14));
    assert_eq!(size_source(None, Some((usize::MAX, 25))), SizeSource::Default);
    assert_eq!(resolve_size(10, 10, Some(u32::MAX), None), (240, 240));
}

#[test]
fn zero_source_width_gives_zero_height() {
    assert_eq!(resolve_size(0, 0, None, None), (240, 0));
    assert_eq!(resolve_size(0, 9, Some(3), None), (6, 0));
}

#[test]
fn height_saturates() {
    assert_eq!(resolve_size(1, u32::MAX, Some(2), None), (4, u32::MAX));
}

#[test]
fn dither_gives_two_tone_pixels() {
    let mut img = solid(4, 4, [100, 100, 100]);
    dither(&mut img);
    assert_eq!((img.width, img.height), (4, 4));
    assert!(is_two_tone(&img));
    assert!(img.pixels.chunks(3).any(|p| p == WHITE));
    assert!(img.pixels.chunks(3).any(|p| p == BLACK));
}

#[test]
fn dither_keeps_black_and_white() {
    let mut img = with_lit(2, 4, &[(0, 0), (1, 3)]);
    let before = img.pixels.clone();
    dither(&mut img);
    assert_eq!(img.pixels, before);
}

#[test]
fn dither_thresholds_narrow_images() {
    let mut img = RgbImage::from_raw(1, 2, vec![200, 200, 200, 30, 30, 30]).unwrap();
    dither(&mut img);
    assert_eq!(img.pixels, vec![255, 255, 255, 0, 0, 0]);
    let mut empty = RgbImage::from_raw(0, 0, vec![]).unwrap();
    dither(&mut empty);
    assert!(empty.pixels.is_empty());
}

#[test]
fn render_emits_rows_of_cells() {
    let img = solid(4, 8, WHITE);
    assert_eq!(render_braille(&img), "\u{28FF}\u{28FF}\n\u{28FF}\u{28FF}\n");
    let odd = solid(3, 5, WHITE);
    assert_eq!(render_braille(&odd), "\u{28FF}\u{2847}\n\u{2809}\u{2801}\n");
    let none = solid(0, 0, WHITE);
    assert_eq!(render_braille(&none), "");
}

#[test]
fn white_four_by_eight_at_two_columns() {
    let img = solid(4, 8, WHITE);
    assert_eq!(braille_art(&img, Some(2), None), Some("\u{28FF}\u{28FF}\n\u{28FF}\u{28FF}\n".to_string()));
}

#[test]
fn default_width_without_terminal() {
    let img = solid(10, 5, WHITE);
    let text = braille_art(&img, None, None).unwrap();
    let lines: Vec<&str> = text.lines().collect();
    assert_eq!(lines.len(), 30);
    assert!(lines.iter().all(|l| l.chars().count() == 120));
}

#[test]
fn single_row_terminal_renders_at_default_width() {
    let img = solid(10, 5, BLACK);
    let text = braille_art(&img, None, Some((80, 1))).unwrap();
    assert_eq!(text.lines().count(), 30);
    assert!(text.lines().all(|l| l.chars().count() == 120 && l.chars().all(|c| c == '\u{2800}')));
}

#[test]
fn resize_upscales_to_target() {
    let img = solid(2, 2, WHITE);
    assert_eq!(braille_art(&img, Some(2), None), Some("\u{28FF}\u{28FF}\n".to_string()));
}

#[test]
fn zero_area_gives_empty_text() {
    let img = solid(5, 5, WHITE);
    assert_eq!(braille_art(&img, Some(0), None), Some(String::new()));
    let flat = solid(8, 0, WHITE);
    assert_eq!(braille_art(&flat, Some(3), None), Some(String::new()));
}

#[test]
fn oversized_target_is_refused() {
    let img = solid(1, 1, WHITE);
    assert_eq!(braille_art(&img, Some(u32::MAX / 2), None), None);
}

#[test]
fn dithered_braille_dithers_then_renders() {
    let narrow = solid(1, 4, [200, 200, 200]);
    assert_eq!(dithered_braille(narrow), "\u{2847}\n");
    let dark = solid(2, 4, [20, 20, 20]);
    assert_eq!(dithered_braille(dark), "\u{2800}\n");
    let white = solid(4, 8, WHITE);
    assert_eq!(dithered_braille(white), "\u{28FF}\u{28FF}\n\u{28FF}\u{28FF}\n");
    let empty = solid(0, 0, WHITE);
    assert_eq!(dithered_braille(empty), "");
}
