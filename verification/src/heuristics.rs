//! Cheap whole-frame heuristics: text, menus, dialog boxes, the highlighted
//! menu row and the dominant colours of a frame.
//!
//! The comparisons are exact: a brightness difference "above 50" between
//! channel means is a difference above 150 between channel sums.

use vstd::prelude::*;
use crate::raster::{RgbBuffer, channel_sum, pixel_channel_sum};
use crate::sampling::{tally, tally2, row_of, sum_over, sample_count, lemma_tally_bound, lemma_sample_count_bound};

verus! {

pub open spec fn abs_diff(a: int, b: int) -> int {
    if a >= b { a - b } else { b - a }
}

pub fn abs_diff_u32(a: u32, b: u32) -> (r: u32)
    ensures r == abs_diff(a as int, b as int),
{
    if a >= b { a - b } else { b - a }
}

/// Channel sum of pixel (x, y).
pub open spec fn sum_at(img: RgbBuffer, x: int, y: int) -> int {
    channel_sum(img.spec_pixel(x, y))
}

// ---------------------------------------------------------------- text

/// (x, y) is at least one pixel away from every edge.
pub open spec fn interior(img: RgbBuffer, x: int, y: int) -> bool {
    0 < x < img.spec_width() - 1 && 0 < y < img.spec_height() - 1
}

/// An interior sample whose brightness differs by more than 50 from its
/// left or its upper neighbour.
pub open spec fn text_contrast_at(img: RgbBuffer, x: int, y: int) -> bool {
    interior(img, x, y) && (abs_diff(sum_at(img, x, y), sum_at(img, x - 1, y)) > 150
        || abs_diff(sum_at(img, x, y), sum_at(img, x, y - 1)) > 150)
}

pub open spec fn interior_pred(img: RgbBuffer) -> spec_fn(int, int) -> bool {
    |x: int, y: int| interior(img, x, y)
}

pub open spec fn text_pred(img: RgbBuffer) -> spec_fn(int, int) -> bool {
    |x: int, y: int| text_contrast_at(img, x, y)
}

/// Interior samples on the 8-pixel grid.
pub open spec fn text_samples(img: RgbBuffer) -> nat {
    tally2(0, img.spec_height() as int, 8, 0, img.spec_width() as int, 8, interior_pred(img))
}

/// High-contrast interior samples on the 8-pixel grid.
pub open spec fn text_hits(img: RgbBuffer) -> nat {
    tally2(0, img.spec_height() as int, 8, 0, img.spec_width() as int, 8, text_pred(img))
}

/// More than a fifth of the interior grid samples are high-contrast.
pub open spec fn has_text(img: RgbBuffer) -> bool {
    text_samples(img) > 0 && 5 * text_hits(img) > text_samples(img)
}

fn text_contrast(img: &RgbBuffer, x: u32, y: u32) -> (r: (bool, bool))
    ensures
        r.0 == interior(*img, x as int, y as int),
        r.1 == text_contrast_at(*img, x as int, y as int),
{
    let w = img.width();
    let h = img.height();
    if x > 0 && y > 0 && (x as u64) + 1 < w as u64 && (y as u64) + 1 < h as u64 {
        let c = pixel_channel_sum(img.pixel(x, y)) as u32;
        let l = pixel_channel_sum(img.pixel(x - 1, y)) as u32;
        let a = pixel_channel_sum(img.pixel(x, y - 1)) as u32;
        (true, abs_diff_u32(c, l) > 150 || abs_diff_u32(c, a) > 150)
    } else {
        (false, false)
    }
}

/// Whether the frame looks like it holds text: more than a fifth of the
/// interior samples on an 8-pixel grid differ in brightness by more than 50
/// from their left or upper neighbour.
pub fn detect_text_simple(img: &RgbBuffer) -> (r: bool)
    ensures r == has_text(*img),
{
    let w: u64 = img.width() as u64;
    let h: u64 = img.height() as u64;
    let ghost tp = text_pred(*img);
    let ghost ip = interior_pred(*img);
    let mut hits: u128 = 0;
    let mut total: u128 = 0;
    let mut y: u64 = 0;
    while y < h
        invariant
            w == img.spec_width(),
            h == img.spec_height(),
            w <= u32::MAX,
            h <= u32::MAX,
            tp == text_pred(*img),
            ip == interior_pred(*img),
            y <= h + 8,
            hits <= total,
            total <= y * 0x1_0000_0000,
            hits + tally2(y as int, h as int, 8, 0, w as int, 8, tp) == tally2(0, h as int, 8, 0, w as int, 8, tp),
            total + tally2(y as int, h as int, 8, 0, w as int, 8, ip) == tally2(0, h as int, 8, 0, w as int, 8, ip),
        decreases h + 8 - y,
    {
        let mut row_hits: u64 = 0;
        let mut row_total: u64 = 0;
        let mut x: u64 = 0;
        while x < w
            invariant
                w == img.spec_width(),
                h == img.spec_height(),
                w <= u32::MAX,
                h <= u32::MAX,
                y < h,
                tp == text_pred(*img),
                ip == interior_pred(*img),
                x <= w + 8,
                row_hits <= row_total,
                row_total <= x,
                row_hits + tally(x as int, w as int, 8, row_of(tp, y as int)) == tally(0, w as int, 8, row_of(tp, y as int)),
                row_total + tally(x as int, w as int, 8, row_of(ip, y as int)) == tally(0, w as int, 8, row_of(ip, y as int)),
            decreases w + 8 - x,
        {
            let (inside, hit) = text_contrast(img, x as u32, y as u32);
            if inside {
                row_total = row_total + 1;
            }
            if hit {
                row_hits = row_hits + 1;
            }
            x = x + 8;
        }
        hits = hits + row_hits as u128;
        total = total + row_total as u128;
        y = y + 8;
    }
    total > 0 && 5 * hits > total
}


// ---------------------------------------------------------------- menus

/// Pixels on the outline of a 16 x 16 box.
pub open spec fn on_box_outline(dx: int, dy: int) -> bool {
    dx == 0 || dx == 15 || dy == 0 || dy == 15
}

pub open spec fn outline_pred() -> spec_fn(int, int) -> bool {
    |dx: int, dy: int| on_box_outline(dx, dy)
}

/// Outline pixels of the box at (x, y) whose brightness differs from the
/// box centre by at least 30.
pub open spec fn outline_contrast_pred(img: RgbBuffer, x: int, y: int) -> spec_fn(int, int) -> bool {
    |dx: int, dy: int| on_box_outline(dx, dy)
        && abs_diff(sum_at(img, x + 8, y + 8), sum_at(img, x + dx, y + dy)) >= 90
}

/// The 16 x 16 box at (x, y) fits in the frame and at least 70% of its
/// outline contrasts with its centre.
pub open spec fn menu_item_at(img: RgbBuffer, x: int, y: int) -> bool {
    let outline = tally2(0, 16, 1, 0, 16, 1, outline_pred());
    let hits = tally2(0, 16, 1, 0, 16, 1, outline_contrast_pred(img, x, y));
    &&& x + 16 <= img.spec_width()
    &&& y + 16 <= img.spec_height()
    &&& outline > 0
    &&& 10 * hits >= 7 * outline
}

pub open spec fn menu_item_pred(img: RgbBuffer) -> spec_fn(int, int) -> bool {
    |x: int, y: int| menu_item_at(img, x, y)
}

/// Menu-like boxes found on the 16-pixel grid.
pub open spec fn menu_items(img: RgbBuffer) -> nat {
    tally2(0, img.spec_height() as int, 16, 0, img.spec_width() as int, 16, menu_item_pred(img))
}

/// At least two menu-like boxes.
pub open spec fn has_menu(img: RgbBuffer) -> bool {
    menu_items(img) >= 2
}

/// Whether the 16 x 16 box whose top-left corner is (x, y) looks like a
/// menu item: it fits in the frame and at least 70% of its outline differs
/// in brightness by at least 30 from its centre.
pub fn looks_like_menu_item(img: &RgbBuffer, x: u32, y: u32) -> (r: bool)
    ensures r == menu_item_at(*img, x as int, y as int),
{
    let w = img.width() as u64;
    let h = img.height() as u64;
    if x as u64 + 16 > w || y as u64 + 16 > h {
        return false;
    }
    let center = pixel_channel_sum(img.pixel(x + 8, y + 8)) as u32;
    let ghost op = outline_pred();
    let ghost cp = outline_contrast_pred(*img, x as int, y as int);
    let mut outline: u32 = 0;
    let mut hits: u32 = 0;
    let mut dy: u32 = 0;
    while dy < 16
        invariant
            w == img.spec_width(),
            h == img.spec_height(),
            x + 16 <= w,
            y + 16 <= h,
            w <= u32::MAX,
            h <= u32::MAX,
            center == sum_at(*img, x + 8, y + 8),
            op == outline_pred(),
            cp == outline_contrast_pred(*img, x as int, y as int),
            dy <= 16,
            hits <= outline <= dy * 16,
            outline + tally2(dy as int, 16, 1, 0, 16, 1, op) == tally2(0, 16, 1, 0, 16, 1, op),
            hits + tally2(dy as int, 16, 1, 0, 16, 1, cp) == tally2(0, 16, 1, 0, 16, 1, cp),
        decreases 16 - dy,
    {
        let mut row_outline: u32 = 0;
        let mut row_hits: u32 = 0;
        let mut dx: u32 = 0;
        while dx < 16
            invariant
                w == img.spec_width(),
                h == img.spec_height(),
                x + 16 <= w,
                y + 16 <= h,
                w <= u32::MAX,
                h <= u32::MAX,
                dy < 16,
                center == sum_at(*img, x + 8, y + 8),
                op == outline_pred(),
                cp == outline_contrast_pred(*img, x as int, y as int),
                dx <= 16,
                row_hits <= row_outline <= dx,
                row_outline + tally(dx as int, 16, 1, row_of(op, dy as int)) == tally(0, 16, 1, row_of(op, dy as int)),
                row_hits + tally(dx as int, 16, 1, row_of(cp, dy as int)) == tally(0, 16, 1, row_of(cp, dy as int)),
            decreases 16 - dx,
        {
            if dx == 0 || dx == 15 || dy == 0 || dy == 15 {
                let p = pixel_channel_sum(img.pixel(x + dx, y + dy)) as u32;
                row_outline = row_outline + 1;
                if abs_diff_u32(center, p) >= 90 {
                    row_hits = row_hits + 1;
                }
            }
            dx = dx + 1;
        }
        outline = outline + row_outline;
        hits = hits + row_hits;
        dy = dy + 1;
    }
    outline > 0 && 10 * hits >= 7 * outline
}

/// Whether the frame shows at least two menu-like boxes on a 16-pixel grid.
pub fn detect_menu_simple(img: &RgbBuffer) -> (r: bool)
    ensures r == has_menu(*img),
{
    let w: u64 = img.width() as u64;
    let h: u64 = img.height() as u64;
    let ghost mp = menu_item_pred(*img);
    let mut found: u128 = 0;
    let mut y: u64 = 0;
    while y < h
        invariant
            w == img.spec_width(),
            h == img.spec_height(),
            w <= u32::MAX,
            h <= u32::MAX,
            mp == menu_item_pred(*img),
            y <= h + 16,
            found <= y * 0x1_0000_0000,
            found + tally2(y as int, h as int, 16, 0, w as int, 16, mp) == tally2(0, h as int, 16, 0, w as int, 16, mp),
        decreases h + 16 - y,
    {
        let mut row: u64 = 0;
        let mut x: u64 = 0;
        while x < w
            invariant
                w == img.spec_width(),
                h == img.spec_height(),
                w <= u32::MAX,
                h <= u32::MAX,
                y < h,
                mp == menu_item_pred(*img),
                x <= w + 16,
                row <= x,
                row + tally(x as int, w as int, 16, row_of(mp, y as int)) == tally(0, w as int, 16, row_of(mp, y as int)),
            decreases w + 16 - x,
        {
            if looks_like_menu_item(img, x as u32, y as u32) {
                row = row + 1;
            }
            x = x + 16;
        }
        found = found + row as u128;
        y = y + 16;
    }
    found >= 2
}

// ---------------------------------------------------------------- dialog box

/// Row at which the scan for a dialog box starts: four fifths of the height.
pub open spec fn dialog_start_row(h: int) -> int {
    h * 4 / 5
}

/// Column samples x = 4, 8, ... of row y whose brightness differs by more
/// than 35 from the sample four pixels to the left.
pub open spec fn transition_pred(img: RgbBuffer, y: int) -> spec_fn(int) -> bool {
    |x: int| abs_diff(sum_at(img, x, y), sum_at(img, x - 4, y)) > 105
}

pub open spec fn row_transitions(img: RgbBuffer, y: int) -> nat {
    tally(4, img.spec_width() as int, 4, transition_pred(img, y))
}

/// A row with more transitions than a sixth of its column samples (w / 4 / 6).
pub open spec fn strong_row(img: RgbBuffer, y: int) -> bool {
    row_transitions(img, y) > img.spec_width() as int / 4 / 6
}

pub open spec fn strong_row_pred(img: RgbBuffer) -> spec_fn(int) -> bool {
    |y: int| strong_row(img, y)
}

/// In a frame of at least 64 x 32 pixels, more than 30% of the rows sampled
/// every second line in the bottom fifth are strong rows.
pub open spec fn has_dialog_box(img: RgbBuffer) -> bool {
    let w = img.spec_width() as int;
    let h = img.spec_height() as int;
    let rows = sample_count(dialog_start_row(h), h, 2);
    let strong = tally(dialog_start_row(h), h, 2, strong_row_pred(img));
    &&& h >= 32
    &&& w >= 64
    &&& rows > 0
    &&& 10 * strong > 3 * rows
}

fn count_row_transitions(img: &RgbBuffer, y: u32) -> (r: u64)
    requires y < img.spec_height(),
    ensures r == row_transitions(*img, y as int),
{
    let w: u64 = img.width() as u64;
    let ghost tp = transition_pred(*img, y as int);
    let mut n: u64 = 0;
    let mut x: u64 = 4;
    while x < w
        invariant
            w == img.spec_width(),
            w <= u32::MAX,
            y < img.spec_height(),
            tp == transition_pred(*img, y as int),
            4 <= x <= w + 4,
            n <= x,
            n + tally(x as int, w as int, 4, tp) == tally(4, w as int, 4, tp),
        decreases w + 4 - x,
    {
        let a = pixel_channel_sum(img.pixel(x as u32, y)) as u32;
        let b = pixel_channel_sum(img.pixel((x - 4) as u32, y)) as u32;
        if abs_diff_u32(a, b) > 105 {
            n = n + 1;
        }
        x = x + 4;
    }
    n
}

/// Whether the bottom fifth of the frame looks like a dialog box: in a frame
/// of at least 64 x 32 pixels, more than 30% of the rows sampled every second
/// line there have many brightness transitions between column samples four
/// pixels apart.
pub fn detect_dialog_box_bottom(img: &RgbBuffer) -> (r: bool)
    ensures r == has_dialog_box(*img),
{
    let w: u32 = img.width();
    let h: u32 = img.height();
    if h < 32 || w < 64 {
        return false;
    }
    let start: u32 = ((h as u64) * 4 / 5) as u32;
    let ghost sp = strong_row_pred(*img);
    let mut strong: u64 = 0;
    let mut rows: u64 = 0;
    let mut y: u64 = start as u64;
    while y < h as u64
        invariant
            w == img.spec_width(),
            h == img.spec_height(),
            start == dialog_start_row(h as int),
            sp == strong_row_pred(*img),
            start <= y <= h as u64 + 2,
            strong <= rows <= y,
            rows + sample_count(y as int, h as int, 2) == sample_count(start as int, h as int, 2),
            strong + tally(y as int, h as int, 2, sp) == tally(start as int, h as int, 2, sp),
        decreases h as u64 + 2 - y,
    {
        rows = rows + 1;
        let t = count_row_transitions(img, y as u32);
        if t > (w as u64 / 4) / 6 {
            strong = strong + 1;
        }
        y = y + 2;
    }
    rows > 0 && 10 * strong > 3 * rows
}


// ---------------------------------------------------------------- cursor row

/// Rec. 709 luma of an 8-bit RGB pixel, as the grey conversion of the
/// `image` crate computes it.
pub open spec fn luma(p: (u8, u8, u8)) -> int {
    (2126 * p.0 as int + 7152 * p.1 as int + 722 * p.2 as int) / 10000
}

pub fn pixel_luma(p: (u8, u8, u8)) -> (r: u32)
    ensures r == luma(p), r <= 255,
{
    (2126 * p.0 as u32 + 7152 * p.1 as u32 + 722 * p.2 as u32) / 10000
}

pub open spec fn luma_fn(img: RgbBuffer, y: int) -> spec_fn(int) -> int {
    |x: int| luma(img.spec_pixel(x, y))
}

/// Sum of the luma of the samples x = 0, 4, 8, ... of row y.
pub open spec fn row_luma(img: RgbBuffer, y: int) -> int {
    sum_over(0, img.spec_width() as int, 4, luma_fn(img, y))
}

/// How strongly row y stands out from the rows two above and two below (a
/// missing neighbour counts as equal), scaled by the number of samples per
/// row.
pub open spec fn band_score(img: RgbBuffer, y: int) -> int {
    let h = img.spec_height() as int;
    let here = row_luma(img, y);
    let above = if y >= 2 { row_luma(img, y - 2) } else { here };
    let below = if y + 2 < h { row_luma(img, y + 2) } else { here };
    abs_diff(here, above) + abs_diff(here, below)
}

/// The threshold on `band_score`: a mean difference of 40 per sample.
pub open spec fn band_threshold(img: RgbBuffer) -> int {
    40 * sample_count(0, img.spec_width() as int, 4) as int
}

pub open spec fn cursor_candidate(img: RgbBuffer, y: int) -> bool {
    0 <= y < img.spec_height() && y % 2 == 0
}

fn sum_row_luma(img: &RgbBuffer, y: u32) -> (r: u64)
    requires y < img.spec_height(),
    ensures
        r == row_luma(*img, y as int),
        r <= 255 * sample_count(0, img.spec_width() as int, 4),
{
    let w: u64 = img.width() as u64;
    let ghost f = luma_fn(*img, y as int);
    let mut s: u64 = 0;
    let mut x: u64 = 0;
    while x < w
        invariant
            w == img.spec_width(),
            w <= u32::MAX,
            y < img.spec_height(),
            f == luma_fn(*img, y as int),
            x <= w + 4,
            x % 4 == 0,
            s <= 255 * (x / 4),
            s + sum_over(x as int, w as int, 4, f) == sum_over(0, w as int, 4, f),
            (x / 4) + sample_count(x as int, w as int, 4) == sample_count(0, w as int, 4),
        decreases w + 4 - x,
    {
        s = s + pixel_luma(img.pixel(x as u32, y)) as u64;
        x = x + 4;
    }
    s
}

fn score_row(img: &RgbBuffer, y: u32) -> (r: u64)
    requires y < img.spec_height(),
    ensures r == band_score(*img, y as int),
{
    let h = img.height();
    let w = img.width();
    proof { lemma_sample_count_bound(0, w as int, 4); }
    let here = sum_row_luma(img, y);
    let above = if y >= 2 { sum_row_luma(img, y - 2) } else { here };
    let below = if (y as u64) + 2 < h as u64 { sum_row_luma(img, y + 2) } else { here };
    let d1 = if here >= above { here - above } else { above - here };
    let d2 = if here >= below { here - below } else { below - here };
    d1 + d2
}

/// `r` is the highlighted-row answer for the frame: `None` for a frame under
/// 64 x 32 pixels or when no candidate row scores above the threshold,
/// otherwise the first candidate row with the highest score.
pub open spec fn cursor_row_ok(img: RgbBuffer, r: Option<u32>) -> bool {
    &&& r is None <==> (img.spec_height() < 32 || img.spec_width() < 64
        || forall|y: int| cursor_candidate(img, y) ==> #[trigger] band_score(img, y) <= band_threshold(img))
    &&& r matches Some(row) ==> {
        &&& cursor_candidate(img, row as int)
        &&& band_score(img, row as int) > band_threshold(img)
        &&& forall|y: int| cursor_candidate(img, y) ==> #[trigger] band_score(img, y) <= band_score(img, row as int)
        &&& forall|y: int| cursor_candidate(img, y) && y < row ==> #[trigger] band_score(img, y) < band_score(img, row as int)
    }
}

/// The row, among every second row of a frame of at least 64 x 32 pixels,
/// that differs most in mean brightness from the rows two above and two
/// below; the first such row, and only when the difference exceeds 40.
pub fn detect_menu_cursor_row(img: &RgbBuffer) -> (r: Option<u32>)
    ensures cursor_row_ok(*img, r),
{
    let w: u32 = img.width();
    let h: u32 = img.height();
    if h < 32 || w < 64 {
        return None;
    }
    let threshold: u64 = 40 * count_samples(w as u64, 4);
    let mut best_row: Option<u32> = None;
    let mut best: u64 = 0;
    let mut y: u64 = 0;
    while y < h as u64
        invariant
            w == img.spec_width(),
            h == img.spec_height(),
            h >= 32,
            w >= 64,
            threshold == band_threshold(*img),
            y <= h as u64 + 1,
            y % 2 == 0,
            best_row is None ==> best == 0,
            best_row is None ==> forall|k: int| cursor_candidate(*img, k) && k < y ==> #[trigger] band_score(*img, k) == 0,
            best_row matches Some(b) ==> {
                &&& cursor_candidate(*img, b as int)
                &&& b < y
                &&& band_score(*img, b as int) == best
                &&& best > 0
                &&& forall|k: int| cursor_candidate(*img, k) && k < y ==> #[trigger] band_score(*img, k) <= best
                &&& forall|k: int| cursor_candidate(*img, k) && k < b ==> #[trigger] band_score(*img, k) < best
            },
        decreases h as u64 + 1 - y,
    {
        let score = score_row(img, y as u32);
        if score > best {
            best = score;
            best_row = Some(y as u32);
        }
        y = y + 2;
    }
    if best > threshold {
        best_row
    } else {
        None
    }
}

/// Length of `(0..end).step_by(step)`.
pub fn count_samples(end: u64, step: u64) -> (r: u64)
    requires step > 0,
    ensures r == sample_count(0, end as int, step as int), r <= end,
{
    let mut n: u64 = 0;
    let mut x: u64 = 0;
    proof { lemma_sample_count_bound(0, end as int, step as int); }
    while x < end
        invariant
            step > 0,
            n <= x,
            x <= end + step,
            n + sample_count(x as int, end as int, step as int) == sample_count(0, end as int, step as int),
            x < end ==> n + 1 <= end,
        decreases end + step - x,
    {
        proof { lemma_sample_count_bound(x as int, end as int, step as int); }
        n = n + 1;
        if end - x <= step {
            proof {
                assert(sample_count(x + step, end as int, step as int) == 0);
                assert(sample_count(end as int, end as int, step as int) == 0);
            }
            x = end;
        } else {
            x = x + step;
        }
    }
    n
}


// ---------------------------------------------------------------- colours

/// Names under which colours are reported.
#[derive(Clone, Copy, Debug, PartialEq, Eq, Structural, Hash)]
pub enum ColorName {
    White,
    Black,
    Red,
    Green,
    Blue,
    Yellow,
    Other,
    Brown,
    Gray,
}

impl ColorName {
    /// The lower-case name of the colour.
    pub fn name(&self) -> (r: &'static str)
        ensures
            r@ == (match *self {
                ColorName::White => "white"@,
                ColorName::Black => "black"@,
                ColorName::Red => "red"@,
                ColorName::Green => "green"@,
                ColorName::Blue => "blue"@,
                ColorName::Yellow => "yellow"@,
                ColorName::Other => "other"@,
                ColorName::Brown => "brown"@,
                ColorName::Gray => "gray"@,
            }),
    {
        proof {
            reveal_strlit("white");
            reveal_strlit("black");
            reveal_strlit("red");
            reveal_strlit("green");
            reveal_strlit("blue");
            reveal_strlit("yellow");
            reveal_strlit("other");
            reveal_strlit("brown");
            reveal_strlit("gray");
        }
        match self {
            ColorName::White => "white",
            ColorName::Black => "black",
            ColorName::Red => "red",
            ColorName::Green => "green",
            ColorName::Blue => "blue",
            ColorName::Yellow => "yellow",
            ColorName::Other => "other",
            ColorName::Brown => "brown",
            ColorName::Gray => "gray",
        }
    }
}

/// The colour class of a pixel, tested in this order: white, black, a
/// dominant red, green or blue channel (50 above both others), yellow, other.
pub open spec fn color_class(p: (u8, u8, u8)) -> ColorName {
    let (r, g, b) = (p.0 as int, p.1 as int, p.2 as int);
    if r > 200 && g > 200 && b > 200 {
        ColorName::White
    } else if r < 50 && g < 50 && b < 50 {
        ColorName::Black
    } else if r > g + 50 && r > b + 50 {
        ColorName::Red
    } else if g > r + 50 && g > b + 50 {
        ColorName::Green
    } else if b > r + 50 && b > g + 50 {
        ColorName::Blue
    } else if r > 150 && g > 150 && b < 100 {
        ColorName::Yellow
    } else {
        ColorName::Other
    }
}

pub fn categorize_color(p: (u8, u8, u8)) -> (r: ColorName)
    ensures r == color_class(p),
{
    let r = p.0 as u32;
    let g = p.1 as u32;
    let b = p.2 as u32;
    if r > 200 && g > 200 && b > 200 {
        ColorName::White
    } else if r < 50 && g < 50 && b < 50 {
        ColorName::Black
    } else if r > g + 50 && r > b + 50 {
        ColorName::Red
    } else if g > r + 50 && g > b + 50 {
        ColorName::Green
    } else if b > r + 50 && b > g + 50 {
        ColorName::Blue
    } else if r > 150 && g > 150 && b < 100 {
        ColorName::Yellow
    } else {
        ColorName::Other
    }
}

/// The seven classes `color_class` can return, by index.
pub open spec fn class_of_index(i: int) -> ColorName {
    if i == 0 {
        ColorName::White
    } else if i == 1 {
        ColorName::Black
    } else if i == 2 {
        ColorName::Red
    } else if i == 3 {
        ColorName::Green
    } else if i == 4 {
        ColorName::Blue
    } else if i == 5 {
        ColorName::Yellow
    } else {
        ColorName::Other
    }
}

pub open spec fn index_of_class(c: ColorName) -> int {
    match c {
        ColorName::White => 0,
        ColorName::Black => 1,
        ColorName::Red => 2,
        ColorName::Green => 3,
        ColorName::Blue => 4,
        ColorName::Yellow => 5,
        _ => 6,
    }
}

fn class_index(c: ColorName) -> (r: usize)
    ensures r == index_of_class(c), r < 7,
{
    match c {
        ColorName::White => 0,
        ColorName::Black => 1,
        ColorName::Red => 2,
        ColorName::Green => 3,
        ColorName::Blue => 4,
        ColorName::Yellow => 5,
        _ => 6,
    }
}

fn class_at(i: usize) -> (r: ColorName)
    requires i < 7,
    ensures r == class_of_index(i as int),
{
    if i == 0 {
        ColorName::White
    } else if i == 1 {
        ColorName::Black
    } else if i == 2 {
        ColorName::Red
    } else if i == 3 {
        ColorName::Green
    } else if i == 4 {
        ColorName::Blue
    } else if i == 5 {
        ColorName::Yellow
    } else {
        ColorName::Other
    }
}

pub open spec fn class_pred(img: RgbBuffer, c: ColorName) -> spec_fn(int, int) -> bool {
    |x: int, y: int| color_class(img.spec_pixel(x, y)) == c
}

/// Number of samples on the 8-pixel grid whose colour class is `c`.
pub open spec fn class_count(img: RgbBuffer, c: ColorName) -> nat {
    tally2(0, img.spec_height() as int, 8, 0, img.spec_width() as int, 8, class_pred(img, c))
}

/// `r` lists the most frequent colour classes of the 8-pixel grid samples:
/// at most three distinct classes, each present, in non-increasing order of
/// frequency; a present class is left out only when three classes at least
/// as frequent were listed.
pub open spec fn dominant_colors_ok(img: RgbBuffer, r: Seq<ColorName>) -> bool {
    &&& r.len() <= 3
    &&& forall|i: int| 0 <= i < r.len() ==> class_count(img, #[trigger] r[i]) > 0
    &&& forall|i: int| 0 <= i < r.len() ==> index_of_class(#[trigger] r[i]) < 7
    &&& forall|i: int, j: int| 0 <= i < j < r.len() ==> r[i] != r[j]
    &&& forall|i: int, j: int| 0 <= i < j < r.len() ==> class_count(img, r[i]) >= class_count(img, r[j])
    &&& forall|k: int| 0 <= k < 7 && class_count(img, class_of_index(k)) > 0 && !r.contains(class_of_index(k)) ==> {
            &&& r.len() == 3
            &&& forall|i: int| 0 <= i < r.len() ==> class_count(img, class_of_index(k)) <= class_count(img, #[trigger] r[i])
        }
}

proof fn lemma_class_roundtrip()
    ensures
        forall|i: int| 0 <= i < 7 ==> #[trigger] index_of_class(class_of_index(i)) == i,
        forall|p: (u8, u8, u8)| #[trigger] index_of_class(color_class(p)) < 7
            && class_of_index(index_of_class(color_class(p))) == color_class(p),
{
}

/// Per-class sample counts on the 8-pixel grid, indexed as `class_of_index`.
fn count_classes(img: &RgbBuffer) -> (r: Vec<u64>)
    ensures
        r@.len() == 7,
        forall|i: int| 0 <= i < 7 ==> #[trigger] r@[i] == class_count(*img, class_of_index(i)),
{
    let w: u64 = img.width() as u64;
    let h: u64 = img.height() as u64;
    let mut counts: Vec<u64> = vec![0, 0, 0, 0, 0, 0, 0];
    proof { lemma_class_roundtrip(); }
    let mut y: u64 = 0;
    while y < h
        invariant
            w == img.spec_width(),
            h == img.spec_height(),
            w <= u32::MAX,
            h <= u32::MAX,
            y <= h + 8,
            counts@.len() == 7,
            forall|i: int| 0 <= i < 7 ==> #[trigger] counts@[i] <= y * 0x1_0000_0000,
            forall|i: int| 0 <= i < 7 ==> #[trigger] counts@[i]
                + tally2(y as int, h as int, 8, 0, w as int, 8, class_pred(*img, class_of_index(i)))
                == tally2(0, h as int, 8, 0, w as int, 8, class_pred(*img, class_of_index(i))),
        decreases h + 8 - y,
    {
        let ghost before = counts@;
        let mut x: u64 = 0;
        while x < w
            invariant
                w == img.spec_width(),
                h == img.spec_height(),
                w <= u32::MAX,
                h <= u32::MAX,
                y < h,
                x <= w + 8,
                counts@.len() == 7,
                before.len() == 7,
                forall|i: int| 0 <= i < 7 ==> #[trigger] counts@[i] <= before[i] + x,
                forall|i: int| 0 <= i < 7 ==> before[i] <= y * 0x1_0000_0000,
                forall|i: int| 0 <= i < 7 ==> #[trigger] counts@[i]
                    + tally(x as int, w as int, 8, row_of(class_pred(*img, class_of_index(i)), y as int))
                    == before[i] + tally(0, w as int, 8, row_of(class_pred(*img, class_of_index(i)), y as int)),
            decreases w + 8 - x,
        {
            let c = categorize_color(img.pixel(x as u32, y as u32));
            let k = class_index(c);
            proof { lemma_class_roundtrip(); }
            let v = counts[k];
            counts.set(k, v + 1);
            x = x + 8;
        }
        y = y + 8;
    }
    counts
}

/// Up to three colour classes that occur most often among the pixels
/// sampled on an 8-pixel grid, most frequent first.
pub fn get_dominant_colors_simple(img: &RgbBuffer) -> (r: Vec<ColorName>)
    ensures dominant_colors_ok(*img, r@),
{
    let counts = count_classes(img);
    let mut chosen: Vec<usize> = Vec::new();
    let mut done = false;
    let mut round: usize = 0;
    while round < 3 && !done
        invariant
            counts@.len() == 7,
            forall|i: int| 0 <= i < 7 ==> #[trigger] counts@[i] == class_count(*img, class_of_index(i)),
            round <= 3,
            chosen@.len() == round,
            forall|j: int| 0 <= j < chosen@.len() ==> #[trigger] chosen@[j] < 7,
            forall|j: int| 0 <= j < chosen@.len() ==> counts@[#[trigger] chosen@[j] as int] > 0,
            forall|a: int, b: int| 0 <= a < b < chosen@.len() ==> chosen@[a] != chosen@[b],
            forall|a: int, b: int| 0 <= a < b < chosen@.len() ==> counts@[chosen@[a] as int] >= counts@[chosen@[b] as int],
            forall|k: int, j: int| 0 <= k < 7 && !chosen@.contains(k as usize) && 0 <= j < chosen@.len()
                ==> #[trigger] counts@[k] <= counts@[#[trigger] chosen@[j] as int],
            done ==> forall|k: int| 0 <= k < 7 && counts@[k] > 0 ==> chosen@.contains(k as usize),
        decreases 3 - round, if done { 0int } else { 1int },
    {
        // the most frequent class not yet listed; the first on ties
        let mut best: Option<usize> = None;
        let mut i: usize = 0;
        while i < 7
            invariant
                counts@.len() == 7,
                i <= 7,
                best matches Some(b) ==> {
                    &&& b < i
                    &&& counts@[b as int] > 0
                    &&& !chosen@.contains(b)
                    &&& forall|k: int| 0 <= k < i && !chosen@.contains(k as usize) ==> counts@[k] <= counts@[b as int]
                },
                best is None ==> forall|k: int| 0 <= k < i && !chosen@.contains(k as usize) ==> counts@[k] == 0,
            decreases 7 - i,
        {
            let mut taken = false;
            let mut j: usize = 0;
            while j < chosen.len()
                invariant
                    j <= chosen@.len(),
                    taken <==> exists|t: int| 0 <= t < j && chosen@[t] == i,
                decreases chosen@.len() - j,
            {
                if chosen[j] == i {
                    taken = true;
                }
                j = j + 1;
            }
            proof {
                assert(taken <==> chosen@.contains(i));
            }
            if !taken && counts[i] > 0 {
                match best {
                    Some(b) => {
                        if counts[i] > counts[b] {
                            best = Some(i);
                        }
                    },
                    None => {
                        best = Some(i);
                    },
                }
            }
            i = i + 1;
        }
        match best {
            Some(b) => {
                let ghost old_chosen = chosen@;
                chosen.push(b);
                proof {
                    assert forall|k: int| 0 <= k < 7 && !#[trigger] chosen@.contains(k as usize) implies !old_chosen.contains(k as usize) by {
                        if old_chosen.contains(k as usize) {
                            let t = choose|t: int| 0 <= t < old_chosen.len() && old_chosen[t] == k as usize;
                            assert(chosen@[t] == k as usize);
                        }
                    }
                    assert forall|k: int| 0 <= k < 7 && #[trigger] chosen@.contains(k as usize) && k as usize != b implies old_chosen.contains(k as usize) by {
                        let t = choose|t: int| 0 <= t < chosen@.len() && chosen@[t] == k as usize;
                        assert(t < old_chosen.len());
                        assert(old_chosen[t] == k as usize);
                    }
                }
                round = round + 1;
            },
            None => {
                done = true;
            },
        }
    }
    let mut result: Vec<ColorName> = Vec::new();
    let mut j: usize = 0;
    proof { lemma_class_roundtrip(); }
    while j < chosen.len()
        invariant
            j <= chosen@.len(),
            chosen@.len() <= 3,
            result@.len() == j,
            forall|t: int| 0 <= t < j ==> #[trigger] result@[t] == class_of_index(chosen@[t] as int),
            forall|t: int| 0 <= t < chosen@.len() ==> #[trigger] chosen@[t] < 7,
        decreases chosen@.len() - j,
    {
        result.push(class_at(chosen[j]));
        j = j + 1;
    }
    proof {
        lemma_class_roundtrip();
        let rs = result@;
        assert forall|k: int| 0 <= k < 7 && class_count(*img, class_of_index(k)) > 0 && !rs.contains(class_of_index(k)) implies {
            &&& rs.len() == 3
            &&& forall|i: int| 0 <= i < rs.len() ==> class_count(*img, class_of_index(k)) <= class_count(*img, #[trigger] rs[i])
        } by {
            if chosen@.contains(k as usize) {
                let t = choose|t: int| 0 <= t < chosen@.len() && chosen@[t] == k as usize;
                assert(rs[t] == class_of_index(k));
            }
            assert(!chosen@.contains(k as usize));
            assert(counts@[k] > 0);
            if !(round == 3) {
                assert(done);
            }
            assert forall|i: int| 0 <= i < rs.len() implies class_count(*img, class_of_index(k)) <= class_count(*img, #[trigger] rs[i]) by {
                assert(counts@[k] <= counts@[chosen@[i] as int]);
            }
        }
        assert forall|a: int, b: int| 0 <= a < b < rs.len() implies rs[a] != rs[b] by {
            assert(index_of_class(class_of_index(chosen@[a] as int)) == chosen@[a] as int);
            assert(index_of_class(class_of_index(chosen@[b] as int)) == chosen@[b] as int);
        }
    }
    result
}

} // verus!
