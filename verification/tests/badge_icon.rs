use whatsapp_lite::icon::{
    badge_digit_rects, digit_glyph, PixelRect, BADGE_GREEN, DIGIT_WHITE, ICON_SIZE, TRANSPARENT_KEY,
};

const FONT: [[u8; 15]; 10] = [
    [1, 1, 1, 1, 0, 1, 1, 0, 1, 1, 0, 1, 1, 1, 1],
    [0, 1, 0, 1, 1, 0, 0, 1, 0, 0, 1, 0, 1, 1, 1],
    [1, 1, 1, 0, 0, 1, 1, 1, 1, 1, 0, 0, 1, 1, 1],
    [1, 1, 1, 0, 0, 1, 1, 1, 1, 0, 0, 1, 1, 1, 1],
    [1, 0, 1, 1, 0, 1, 1, 1, 1, 0, 0, 1, 0, 0, 1],
    [1, 1, 1, 1, 0, 0, 1, 1, 1, 0, 0, 1, 1, 1, 1],
    [1, 1, 1, 1, 0, 0, 1, 1, 1, 1, 0, 1, 1, 1, 1],
    [1, 1, 1, 0, 0, 1, 0, 1, 0, 0, 1, 0, 0, 1, 0],
    [1, 1, 1, 1, 0, 1, 1, 1, 1, 1, 0, 1, 1, 1, 1],
    [1, 1, 1, 1, 0, 1, 1, 1, 1, 0, 0, 1, 1, 1, 1],
];

fn rect(left: i32, top: i32, right: i32, bottom: i32) -> PixelRect {
    PixelRect { left, top, right, bottom }
}

fn painted(rects: &[PixelRect], x: i32, y: i32) -> bool {
    rects.iter().any(|r| r.left <= x && x < r.right && r.top <= y && y < r.bottom)
}

fn expected_white(num: u32, x: i32, y: i32) -> bool {
    let lit = |d: u32, row: i32, col: i32| FONT[d as usize][(row * 3 + col) as usize] == 1;
    if num < 10 {
        (5..11).contains(&x) && (3..13).contains(&y) && lit(num, (y - 3) / 2, (x - 5) / 2)
    } else {
        (6..11).contains(&y)
            && (((5..8).contains(&x) && lit(num / 10, y - 6, x - 5))
                || ((9..12).contains(&x) && lit(num % 10, y - 6, x - 9)))
    }
}

#[test]
fn the_font_has_ten_digits_of_fifteen_cells() {
    for d in 0..10u32 {
        assert_eq!(digit_glyph(d), FONT[d as usize]);
    }
}

#[test]
fn a_single_digit_is_drawn_with_two_pixel_cells() {
    let rects = badge_digit_rects(1);
    assert_eq!(
        rects,
        vec![
            rect(7, 3, 9, 5),
            rect(5, 5, 7, 7),
            rect(7, 5, 9, 7),
            rect(7, 7, 9, 9),
            rect(7, 9, 9, 11),
            rect(5, 11, 7, 13),
            rect(7, 11, 9, 13),
            rect(9, 11, 11, 13),
        ]
    );
}

#[test]
fn zero_is_drawn_as_a_ring_of_twelve_cells() {
    let rects = badge_digit_rects(0);
    assert_eq!(rects.len(), 12);
    assert_eq!(rects[0], rect(5, 3, 7, 5));
    assert_eq!(rects[11], rect(9, 11, 11, 13));
}

#[test]
fn two_digits_interleave_tens_and_ones_cell_by_cell() {
    let rects = badge_digit_rects(17);
    // Row 0: tens "1" lights col 1; ones "7" lights cols 0, 1, 2.
    assert_eq!(&rects[..4], &[rect(9, 6, 10, 7), rect(6, 6, 7, 7), rect(10, 6, 11, 7), rect(11, 6, 12, 7)]);
    let lit_cells: usize = FONT[1].iter().chain(FONT[7].iter()).filter(|c| **c == 1).count();
    assert_eq!(rects.len(), lit_cells);
}

#[test]
fn every_count_paints_exactly_its_digits() {
    for count in 0..=120u32 {
        let rects = badge_digit_rects(count);
        let shown = count.min(99);
        for r in &rects {
            assert!(0 <= r.left && r.left < r.right && r.right <= ICON_SIZE);
            assert!(0 <= r.top && r.top < r.bottom && r.bottom <= ICON_SIZE);
            let side = if shown < 10 { 2 } else { 1 };
            assert_eq!(r.right - r.left, side);
            assert_eq!(r.bottom - r.top, side);
        }
        for y in 0..ICON_SIZE {
            for x in 0..ICON_SIZE {
                assert_eq!(painted(&rects, x, y), expected_white(shown, x, y), "count {count} pixel ({x}, {y})");
            }
        }
    }
}

#[test]
fn counts_from_ninety_nine_up_share_one_badge() {
    let ninety_nine = badge_digit_rects(99);
    assert_eq!(badge_digit_rects(100), ninety_nine);
    assert_eq!(badge_digit_rects(12345), ninety_nine);
    assert_eq!(badge_digit_rects(u32::MAX), ninety_nine);
}

#[test]
fn counts_below_ninety_nine_get_distinct_badges() {
    let badges: Vec<Vec<PixelRect>> = (0..=99u32).map(badge_digit_rects).collect();
    for i in 0..badges.len() {
        for j in (i + 1)..badges.len() {
            assert_ne!(badges[i], badges[j], "counts {i} and {j}");
        }
    }
}

#[test]
fn the_badge_colours_are_whatsapp_green_white_and_a_magenta_key() {
    // COLORREF is 0x00BBGGRR.
    let rgb = |c: u32| (c & 0xFF, (c >> 8) & 0xFF, (c >> 16) & 0xFF);
    assert_eq!(rgb(BADGE_GREEN), (0x25, 0xD3, 0x66));
    assert_eq!(rgb(DIGIT_WHITE), (0xFF, 0xFF, 0xFF));
    assert_eq!(rgb(TRANSPARENT_KEY), (0xFF, 0x00, 0xFF));
}
