//! The pixel layout of the numeric badge that is drawn over the taskbar
//! button: a filled circle with white digits from a 3x5 pixel font, drawn at
//! twice the size for one digit and at natural size for two.

use vstd::prelude::*;

verus! {

/// Width and height of the badge icon, in pixels.
pub const ICON_SIZE: i32 = 16;

/// Background colour (COLORREF, 0x00BBGGRR): the pixels left in this colour
/// (those outside the circle) are masked out and become transparent.
pub const TRANSPARENT_KEY: u32 = 0xFF00FF;

/// Colour of the filled circle (#25D366 written as 0x00BBGGRR).
pub const BADGE_GREEN: u32 = 0x66D325;

/// Colour of the digits.
pub const DIGIT_WHITE: u32 = 0xFFFFFF;

/// Largest count the badge icon can show.
pub const MAX_SHOWN: u32 = 99;

/// A rectangle of icon pixels, half-open: it covers the pixels `(x, y)` with
/// `left <= x < right` and `top <= y < bottom`.
#[derive(Clone, Copy, Debug, PartialEq, Eq, Structural)]
pub struct PixelRect {
    pub left: i32,
    pub top: i32,
    pub right: i32,
    pub bottom: i32,
}

/// The 3x5 pixel font: the 15 cells of digit `d`, row by row, 1 for a lit cell.
pub open spec fn glyph(d: int) -> Seq<u8> {
    if d == 0 {
        seq![1u8, 1, 1, 1, 0, 1, 1, 0, 1, 1, 0, 1, 1, 1, 1]
    } else if d == 1 {
        seq![0u8, 1, 0, 1, 1, 0, 0, 1, 0, 0, 1, 0, 1, 1, 1]
    } else if d == 2 {
        seq![1u8, 1, 1, 0, 0, 1, 1, 1, 1, 1, 0, 0, 1, 1, 1]
    } else if d == 3 {
        seq![1u8, 1, 1, 0, 0, 1, 1, 1, 1, 0, 0, 1, 1, 1, 1]
    } else if d == 4 {
        seq![1u8, 0, 1, 1, 0, 1, 1, 1, 1, 0, 0, 1, 0, 0, 1]
    } else if d == 5 {
        seq![1u8, 1, 1, 1, 0, 0, 1, 1, 1, 0, 0, 1, 1, 1, 1]
    } else if d == 6 {
        seq![1u8, 1, 1, 1, 0, 0, 1, 1, 1, 1, 0, 1, 1, 1, 1]
    } else if d == 7 {
        seq![1u8, 1, 1, 0, 0, 1, 0, 1, 0, 0, 1, 0, 0, 1, 0]
    } else if d == 8 {
        seq![1u8, 1, 1, 1, 0, 1, 1, 1, 1, 1, 0, 1, 1, 1, 1]
    } else {
        seq![1u8, 1, 1, 1, 0, 1, 1, 1, 1, 0, 0, 1, 1, 1, 1]
    }
}

/// Whether the font lights the cell at `row`, `col` of digit `d`.
pub open spec fn lit(d: int, row: int, col: int) -> bool {
    glyph(d)[row * 3 + col] == 1
}

/// The count that the icon shows for `count` unread messages.
pub open spec fn shown(count: u32) -> int {
    if count < MAX_SHOWN { count as int } else { MAX_SHOWN as int }
}

/// The square of side `size` whose top-left pixel is `(x, y)`.
pub open spec fn tile(x: int, y: int, size: int) -> PixelRect {
    PixelRect {
        left: x as i32,
        top: y as i32,
        right: (x + size) as i32,
        bottom: (y + size) as i32,
    }
}

/// The rectangles for one font cell: one digit is drawn at twice the size
/// from pixel (5, 3); two digits at natural size from pixel (5, 6), the
/// second four pixels to the right of the first.
pub open spec fn cell_rects(num: int, row: int, col: int) -> Seq<PixelRect> {
    if num < 10 {
        if lit(num, row, col) { seq![tile(5 + 2 * col, 3 + 2 * row, 2)] } else { seq![] }
    } else {
        (if lit(num / 10, row, col) { seq![tile(5 + col, 6 + row, 1)] } else { seq![] })
            + (if lit(num % 10, row, col) { seq![tile(9 + col, 6 + row, 1)] } else { seq![] })
    }
}

/// The rectangles for the first `cols` cells of font row `row`, left to right.
pub open spec fn row_rects(num: int, row: int, cols: nat) -> Seq<PixelRect>
    decreases cols,
{
    if cols == 0 {
        seq![]
    } else {
        row_rects(num, row, (cols - 1) as nat) + cell_rects(num, row, cols - 1)
    }
}

/// The rectangles for the first `rows` font rows, top to bottom.
pub open spec fn grid_rects(num: int, rows: nat) -> Seq<PixelRect>
    decreases rows,
{
    if rows == 0 {
        seq![]
    } else {
        grid_rects(num, (rows - 1) as nat) + row_rects(num, rows - 1, 3)
    }
}

/// The white rectangles of the badge for `count` unread messages, in the
/// order in which they are painted.
pub open spec fn badge_rects(count: u32) -> Seq<PixelRect> {
    grid_rects(shown(count), 5)
}

/// Whether rectangle `r` covers pixel `(x, y)`.
pub open spec fn covers(r: PixelRect, x: int, y: int) -> bool {
    r.left <= x < r.right && r.top <= y < r.bottom
}

/// Whether some rectangle of `rects` covers pixel `(x, y)`.
pub open spec fn painted(rects: Seq<PixelRect>, x: int, y: int) -> bool {
    exists|i: int| 0 <= i < rects.len() && covers(#[trigger] rects[i], x, y)
}

/// Whether pixel `(x, y)` of the badge for the shown count `num` belongs to
/// a digit: one digit fills the 6x10 box from (5, 3) with 2x2 cells, two
/// digits fill the 3x5 boxes from (5, 6) and (9, 6) with single pixels.
pub open spec fn digit_pixel(num: int, x: int, y: int) -> bool {
    if num < 10 {
        5 <= x < 11 && 3 <= y < 13 && lit(num, (y - 3) / 2, (x - 5) / 2)
    } else {
        6 <= y < 11 && ((5 <= x < 8 && lit(num / 10, y - 6, x - 5)) || (9 <= x < 12 && lit(
            num % 10,
            y - 6,
            x - 9,
        )))
    }
}

/// Whether `r` is a non-empty rectangle inside the icon.
pub open spec fn inside_icon(r: PixelRect) -> bool {
    0 <= r.left < r.right <= ICON_SIZE && 0 <= r.top < r.bottom <= ICON_SIZE
}

/// The side of the square cells in which the digits of `num` are drawn.
pub open spec fn cell_side(num: int) -> int {
    if num < 10 { 2 } else { 1 }
}

proof fn lemma_painted_concat(a: Seq<PixelRect>, b: Seq<PixelRect>, x: int, y: int)
    ensures
        painted(a + b, x, y) <==> (painted(a, x, y) || painted(b, x, y)),
{
    let ab = a + b;
    if painted(ab, x, y) {
        let i = choose|i: int| 0 <= i < ab.len() && covers(#[trigger] ab[i], x, y);
        if i < a.len() {
            assert(a[i] == ab[i]);
        } else {
            assert(b[i - a.len()] == ab[i]);
        }
    }
    if painted(a, x, y) {
        let i = choose|i: int| 0 <= i < a.len() && covers(#[trigger] a[i], x, y);
        assert(ab[i] == a[i]);
    }
    if painted(b, x, y) {
        let i = choose|i: int| 0 <= i < b.len() && covers(#[trigger] b[i], x, y);
        assert(ab[i + a.len()] == b[i]);
    }
}

proof fn lemma_painted_single(r: PixelRect, x: int, y: int)
    ensures
        painted(seq![r], x, y) <==> covers(r, x, y),
{
    if covers(r, x, y) {
        assert(seq![r][0] == r);
    }
}

proof fn lemma_painted_empty(x: int, y: int)
    ensures
        !painted(Seq::<PixelRect>::empty(), x, y),
{
}

proof fn lemma_cell_painted(num: int, row: int, col: int, x: int, y: int)
    requires
        0 <= num < 100,
        0 <= row < 5,
        0 <= col < 3,
    ensures
        painted(cell_rects(num, row, col), x, y) <==> (if num < 10 {
            lit(num, row, col) && 5 + 2 * col <= x < 7 + 2 * col && 3 + 2 * row <= y < 5 + 2 * row
        } else {
            y == 6 + row && ((x == 5 + col && lit(num / 10, row, col)) || (x == 9 + col && lit(
                num % 10,
                row,
                col,
            )))
        }),
{
    lemma_painted_empty(x, y);
    if num < 10 {
        lemma_painted_single(tile(5 + 2 * col, 3 + 2 * row, 2), x, y);
    } else {
        let a = if lit(num / 10, row, col) { seq![tile(5 + col, 6 + row, 1)] } else { seq![] };
        let b = if lit(num % 10, row, col) { seq![tile(9 + col, 6 + row, 1)] } else { seq![] };
        lemma_painted_concat(a, b, x, y);
        lemma_painted_single(tile(5 + col, 6 + row, 1), x, y);
        lemma_painted_single(tile(9 + col, 6 + row, 1), x, y);
    }
}

proof fn lemma_row_painted(num: int, row: int, cols: nat, x: int, y: int)
    requires
        0 <= num < 100,
        0 <= row < 5,
        cols <= 3,
    ensures
        painted(row_rects(num, row, cols), x, y) <==> (if num < 10 {
            3 + 2 * row <= y < 5 + 2 * row && 5 <= x < 5 + 2 * cols && lit(num, row, (x - 5) / 2)
        } else {
            y == 6 + row && ((5 <= x < 5 + cols && lit(num / 10, row, x - 5)) || (9 <= x < 9
                + cols && lit(num % 10, row, x - 9)))
        }),
    decreases cols,
{
    if cols == 0 {
        lemma_painted_empty(x, y);
    } else {
        let c = cols - 1;
        lemma_row_painted(num, row, c as nat, x, y);
        lemma_painted_concat(row_rects(num, row, c as nat), cell_rects(num, row, c), x, y);
        lemma_cell_painted(num, row, c, x, y);
        if num < 10 && 5 + 2 * c <= x < 7 + 2 * c {
            assert((x - 5) / 2 == c);
        }
    }
}

proof fn lemma_grid_painted(num: int, rows: nat, x: int, y: int)
    requires
        0 <= num < 100,
        rows <= 5,
    ensures
        painted(grid_rects(num, rows), x, y) <==> (if num < 10 {
            5 <= x < 11 && 3 <= y < 3 + 2 * rows && lit(num, (y - 3) / 2, (x - 5) / 2)
        } else {
            6 <= y < 6 + rows && ((5 <= x < 8 && lit(num / 10, y - 6, x - 5)) || (9 <= x < 12
                && lit(num % 10, y - 6, x - 9)))
        }),
    decreases rows,
{
    if rows == 0 {
        lemma_painted_empty(x, y);
    } else {
        let r = rows - 1;
        lemma_grid_painted(num, r as nat, x, y);
        lemma_painted_concat(grid_rects(num, r as nat), row_rects(num, r, 3), x, y);
        lemma_row_painted(num, r, 3, x, y);
        if num < 10 && 3 + 2 * r <= y < 5 + 2 * r {
            assert((y - 3) / 2 == r);
        }
    }
}

/// The badge shows exactly the digits of `min(count, 99)`: a pixel is
/// painted white if and only if it lies in a lit cell of the 3x5 font, at
/// twice the size for a single digit and at natural size for two.
pub proof fn badge_paints_digits(count: u32, x: int, y: int)
    ensures
        painted(badge_rects(count), x, y) <==> digit_pixel(shown(count), x, y),
{
    lemma_grid_painted(shown(count), 5, x, y);
}

proof fn lemma_cell_shape(num: int, row: int, col: int)
    requires
        0 <= num < 100,
        0 <= row < 5,
        0 <= col < 3,
    ensures
        forall|i: int|
            0 <= i < cell_rects(num, row, col).len() ==> {
                let r = #[trigger] cell_rects(num, row, col)[i];
                &&& inside_icon(r)
                &&& r.right - r.left == cell_side(num)
                &&& r.bottom - r.top == cell_side(num)
            },
{
}

proof fn lemma_row_shape(num: int, row: int, cols: nat)
    requires
        0 <= num < 100,
        0 <= row < 5,
        cols <= 3,
    ensures
        forall|i: int|
            0 <= i < row_rects(num, row, cols).len() ==> {
                let r = #[trigger] row_rects(num, row, cols)[i];
                &&& inside_icon(r)
                &&& r.right - r.left == cell_side(num)
                &&& r.bottom - r.top == cell_side(num)
            },
    decreases cols,
{
    if cols > 0 {
        let c = cols - 1;
        lemma_row_shape(num, row, c as nat);
        lemma_cell_shape(num, row, c);
        let a = row_rects(num, row, c as nat);
        let b = cell_rects(num, row, c);
        assert forall|i: int| 0 <= i < (a + b).len() implies #[trigger] (a + b)[i] == (if i < a.len() {
            a[i]
        } else {
            b[i - a.len()]
        }) by {}
    }
}

proof fn lemma_grid_shape(num: int, rows: nat)
    requires
        0 <= num < 100,
        rows <= 5,
    ensures
        forall|i: int|
            0 <= i < grid_rects(num, rows).len() ==> {
                let r = #[trigger] grid_rects(num, rows)[i];
                &&& inside_icon(r)
                &&& r.right - r.left == cell_side(num)
                &&& r.bottom - r.top == cell_side(num)
            },
    decreases rows,
{
    if rows > 0 {
        let r = rows - 1;
        lemma_grid_shape(num, r as nat);
        lemma_row_shape(num, r, 3);
        let a = grid_rects(num, r as nat);
        let b = row_rects(num, r, 3);
        assert forall|i: int| 0 <= i < (a + b).len() implies #[trigger] (a + b)[i] == (if i < a.len() {
            a[i]
        } else {
            b[i - a.len()]
        }) by {}
    }
}

/// Every white rectangle of the badge is a non-empty square inside the
/// 16x16 icon, of side 2 when one digit is shown and of side 1 when two are.
pub proof fn badge_rects_are_cells(count: u32)
    ensures
        forall|i: int|
            0 <= i < badge_rects(count).len() ==> {
                let r = #[trigger] badge_rects(count)[i];
                &&& inside_icon(r)
                &&& r.right - r.left == cell_side(shown(count))
                &&& r.bottom - r.top == cell_side(shown(count))
            },
{
    lemma_grid_shape(shown(count), 5);
}

/// Counts of 99 and more all get the same badge.
pub proof fn badge_saturates_at_max(a: u32, b: u32)
    requires
        a >= MAX_SHOWN,
        b >= MAX_SHOWN,
    ensures
        badge_rects(a) == badge_rects(b),
{
}

proof fn lemma_font_distinct(a: int, b: int)
    requires
        0 <= a < 10,
        0 <= b < 10,
        forall|row: int, col: int| 0 <= row < 5 && 0 <= col < 3 ==> lit(a, row, col) == lit(b, row, col),
    ensures
        a == b,
{
    assert(lit(a, 0, 0) == lit(b, 0, 0));
    assert(lit(a, 0, 1) == lit(b, 0, 1));
    assert(lit(a, 0, 2) == lit(b, 0, 2));
    assert(lit(a, 1, 0) == lit(b, 1, 0));
    assert(lit(a, 1, 1) == lit(b, 1, 1));
    assert(lit(a, 1, 2) == lit(b, 1, 2));
    assert(lit(a, 2, 0) == lit(b, 2, 0));
    assert(lit(a, 2, 1) == lit(b, 2, 1));
    assert(lit(a, 2, 2) == lit(b, 2, 2));
    assert(lit(a, 3, 0) == lit(b, 3, 0));
    assert(lit(a, 3, 1) == lit(b, 3, 1));
    assert(lit(a, 3, 2) == lit(b, 3, 2));
    assert(lit(a, 4, 0) == lit(b, 4, 0));
    assert(lit(a, 4, 1) == lit(b, 4, 1));
    assert(lit(a, 4, 2) == lit(b, 4, 2));
}

proof fn lemma_last_column_lit(d: int)
    requires
        0 <= d < 10,
    ensures
        lit(d, 0, 2) || lit(d, 4, 2),
{
}

/// The badge tells apart every count up to 99: for two counts that are not
/// both 99 or more, some pixel is painted white on one badge and not on the
/// other.
pub proof fn badges_tell_counts_apart(a: u32, b: u32)
    requires
        a != b,
        a < MAX_SHOWN || b < MAX_SHOWN,
    ensures
        exists|x: int, y: int|
            #[trigger] painted(badge_rects(a), x, y) != painted(badge_rects(b), x, y),
        badge_rects(a) != badge_rects(b),
{
    let na = shown(a);
    let nb = shown(b);
    if !exists|x: int, y: int|
        #[trigger] painted(badge_rects(a), x, y) != painted(badge_rects(b), x, y) {
        assert forall|x: int, y: int| digit_pixel(na, x, y) == digit_pixel(nb, x, y) by {
            badge_paints_digits(a, x, y);
            badge_paints_digits(b, x, y);
            assert(painted(badge_rects(a), x, y) == painted(badge_rects(b), x, y));
        }
        if na < 10 && nb < 10 {
            assert forall|row: int, col: int| 0 <= row < 5 && 0 <= col < 3 implies lit(na, row, col)
                == lit(nb, row, col) by {
                assert(digit_pixel(na, 5 + 2 * col, 3 + 2 * row) == digit_pixel(
                    nb,
                    5 + 2 * col,
                    3 + 2 * row,
                ));
                assert((3 + 2 * row - 3) / 2 == row);
                assert((5 + 2 * col - 5) / 2 == col);
            }
            lemma_font_distinct(na, nb);
        } else if na >= 10 && nb >= 10 {
            assert forall|row: int, col: int| 0 <= row < 5 && 0 <= col < 3 implies #[trigger] lit(
                na / 10,
                row,
                col,
            ) == lit(nb / 10, row, col) by {
                assert(digit_pixel(na, 5 + col, 6 + row) == digit_pixel(nb, 5 + col, 6 + row));
            }
            assert forall|row: int, col: int| 0 <= row < 5 && 0 <= col < 3 implies #[trigger] lit(
                na % 10,
                row,
                col,
            ) == lit(nb % 10, row, col) by {
                assert(digit_pixel(na, 9 + col, 6 + row) == digit_pixel(nb, 9 + col, 6 + row));
            }
            lemma_font_distinct(na / 10, nb / 10);
            lemma_font_distinct(na % 10, nb % 10);
        } else {
            let two = if na >= 10 { na } else { nb };
            lemma_last_column_lit(two % 10);
            assert(digit_pixel(na, 11, 6) == digit_pixel(nb, 11, 6));
            assert(digit_pixel(na, 11, 10) == digit_pixel(nb, 11, 10));
        }
    }
}

/// The font cells of digit `d`, row by row.
pub fn digit_glyph(d: u32) -> (cells: [u8; 15])
    requires
        d < 10,
    ensures
        cells@ == glyph(d as int),
{
    let cells: [u8; 15] = match d {
        0 => [1, 1, 1, 1, 0, 1, 1, 0, 1, 1, 0, 1, 1, 1, 1],
        1 => [0, 1, 0, 1, 1, 0, 0, 1, 0, 0, 1, 0, 1, 1, 1],
        2 => [1, 1, 1, 0, 0, 1, 1, 1, 1, 1, 0, 0, 1, 1, 1],
        3 => [1, 1, 1, 0, 0, 1, 1, 1, 1, 0, 0, 1, 1, 1, 1],
        4 => [1, 0, 1, 1, 0, 1, 1, 1, 1, 0, 0, 1, 0, 0, 1],
        5 => [1, 1, 1, 1, 0, 0, 1, 1, 1, 0, 0, 1, 1, 1, 1],
        6 => [1, 1, 1, 1, 0, 0, 1, 1, 1, 1, 0, 1, 1, 1, 1],
        7 => [1, 1, 1, 0, 0, 1, 0, 1, 0, 0, 1, 0, 0, 1, 0],
        8 => [1, 1, 1, 1, 0, 1, 1, 1, 1, 1, 0, 1, 1, 1, 1],
        _ => [1, 1, 1, 1, 0, 1, 1, 1, 1, 0, 0, 1, 1, 1, 1],
    };
    assert(cells@ =~= glyph(d as int));
    cells
}

/// The white rectangles to paint on the green circle for `count` unread
/// messages: the digits of `min(count, 99)` in the 3x5 font, one lit cell
/// (of each digit) after the other, row by row.
pub fn badge_digit_rects(count: u32) -> (rects: Vec<PixelRect>)
    ensures
        rects@ == badge_rects(count),
{
    let num: u32 = if count < MAX_SHOWN { count } else { MAX_SHOWN };
    let mut rects: Vec<PixelRect> = Vec::new();
    if num < 10 {
        let cells = digit_glyph(num);
        let ox: i32 = 5;
        let oy: i32 = 3;
        for row in 0..5i32
            invariant
                num < 10,
                num == shown(count),
                cells@ == glyph(num as int),
                ox == 5,
                oy == 3,
                rects@ == grid_rects(num as int, row as nat),
        {
            for col in 0..3i32
                invariant
                    0 <= row < 5,
                    num < 10,
                    cells@ == glyph(num as int),
                    ox == 5,
                    oy == 3,
                    rects@ == grid_rects(num as int, row as nat) + row_rects(
                        num as int,
                        row as int,
                        col as nat,
                    ),
            {
                if cells[(row * 3 + col) as usize] == 1 {
                    rects.push(
                        PixelRect {
                            left: ox + col * 2,
                            top: oy + row * 2,
                            right: ox + col * 2 + 2,
                            bottom: oy + row * 2 + 2,
                        },
                    );
                }
            }
        }
    } else {
        let tens = digit_glyph(num / 10);
        let ones = digit_glyph(num % 10);
        let ox: i32 = 5;
        let oy: i32 = 6;
        for row in 0..5i32
            invariant
                10 <= num < 100,
                num == shown(count),
                tens@ == glyph((num / 10) as int),
                ones@ == glyph((num % 10) as int),
                ox == 5,
                oy == 6,
                rects@ == grid_rects(num as int, row as nat),
        {
            for col in 0..3i32
                invariant
                    0 <= row < 5,
                    10 <= num < 100,
                    tens@ == glyph((num / 10) as int),
                    ones@ == glyph((num % 10) as int),
                    ox == 5,
                    oy == 6,
                    rects@ == grid_rects(num as int, row as nat) + row_rects(
                        num as int,
                        row as int,
                        col as nat,
                    ),
            {
                if tens[(row * 3 + col) as usize] == 1 {
                    rects.push(
                        PixelRect {
                            left: ox + col,
                            top: oy + row,
                            right: ox + col + 1,
                            bottom: oy + row + 1,
                        },
                    );
                }
                if ones[(row * 3 + col) as usize] == 1 {
                    rects.push(
                        PixelRect {
                            left: ox + 4 + col,
                            top: oy + row,
                            right: ox + 4 + col + 1,
                            bottom: oy + row + 1,
                        },
                    );
                }
            }
        }
    }
    rects
}

} // verus!
