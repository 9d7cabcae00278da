//! Colour statistics of a frame: dominant colours, high-contrast tiles,
//! rows of text-like edges and menu indicators. Luma is Rec. 709 taken
//! exactly, in ten-thousandths (2126 r + 7152 g + 722 b), so every threshold
//! is an integer comparison.

use vstd::prelude::*;
use crate::raster::{RgbBuffer, px, pixel_at};
use crate::sampling::{tally, tally2, row_of, count_grid, sum_over};

verus! {

/// Rec. 709 luma of a pixel in ten-thousandths.
pub open spec fn luma_e4(p: (u8, u8, u8)) -> int {
    2126 * p.0 as int + 7152 * p.1 as int + 722 * p.2 as int
}

pub fn pixel_luma_e4(p: (u8, u8, u8)) -> (r: u32)
    ensures r == luma_e4(p), r <= 2_550_000,
{
    2126 * p.0 as u32 + 7152 * p.1 as u32 + 722 * p.2 as u32
}

/// Luma of the pixel at (x, y) in ten-thousandths, 0 outside the raster.
pub open spec fn luma_at(img: RgbBuffer, x: int, y: int) -> int {
    match px(img, x, y) {
        Some(p) => luma_e4(p),
        None => 0,
    }
}

fn luma_at_exec(img: &RgbBuffer, x: u64, y: u64) -> (r: u32)
    ensures r == luma_at(*img, x as int, y as int), r <= 2_550_000,
{
    match pixel_at(img, x, y) {
        Some(p) => pixel_luma_e4(p),
        None => 0,
    }
}

/// A channel quantised down to a multiple of `step`, at most 255.
pub open spec fn quantize_channel(c: u8, step: int) -> u8 {
    let v = (c as int / step) * step;
    if v > 255 { 255 } else { v as u8 }
}

/// A pixel quantised to `q` levels per channel.
pub open spec fn quantized(p: (u8, u8, u8), q: u8) -> (u8, u8, u8) {
    let step: int = 256int / q as int;
    (quantize_channel(p.0, step), quantize_channel(p.1, step), quantize_channel(p.2, step))
}

/// The rectangle (x, y, w, h) as corners (x, y, x2, y2), the far corner
/// held inside `max_w` x `max_h`.
pub open spec fn clamped_rect(x: u32, y: u32, w: u32, h: u32, max_w: u32, max_h: u32) -> (u32, u32, u32, u32) {
    (
        x,
        y,
        if x + w < max_w { (x + w) as u32 } else { max_w },
        if y + h < max_h { (y + h) as u32 } else { max_h },
    )
}

/// The pixel at (x, y) is brighter than the mean of its eight neighbours by
/// more than 50 (a menu cursor); never on the border of the raster.
pub open spec fn cursor_pattern_at(img: RgbBuffer, x: int, y: int) -> bool {
    if x == 0 || y == 0 || x + 1 >= img.spec_width() || y + 1 >= img.spec_height() {
        false
    } else {
        let s = luma_at(img, x - 1, y - 1) + luma_at(img, x, y - 1) + luma_at(img, x + 1, y - 1)
            + luma_at(img, x - 1, y) + luma_at(img, x + 1, y)
            + luma_at(img, x - 1, y + 1) + luma_at(img, x, y + 1) + luma_at(img, x + 1, y + 1);
        8 * luma_at(img, x, y) > s + 8 * 500_000
    }
}

/// A border sample at least as bright as the centre, within 5.
pub open spec fn border_bright(img: RgbBuffer, sx: int, sy: int, centre: int) -> bool {
    luma_at(img, sx, sy) + 50_000 > centre
}

/// Brighter border samples of the 16 x 16 square at (x, y): the top and
/// bottom rows and the left and right columns, corners counted twice.
pub open spec fn bright_border_count(img: RgbBuffer, x: int, y: int) -> nat {
    let c = luma_at(img, x + 8, y + 8);
    tally(0, 16, 1, |d: int| border_bright(img, x + d, y, c))
        + tally(0, 16, 1, |d: int| border_bright(img, x + d, y + 15, c))
        + tally(0, 16, 1, |d: int| border_bright(img, x, y + d, c))
        + tally(0, 16, 1, |d: int| border_bright(img, x + 15, y + d, c))
}

/// The 16 x 16 square at (x, y) lies inside the raster and more than three
/// quarters of its 64 border samples are brighter than its centre.
pub open spec fn button_pattern_at(img: RgbBuffer, x: int, y: int) -> bool {
    x + 16 <= img.spec_width() && y + 16 <= img.spec_height() && bright_border_count(img, x, y) > 48
}

pub open spec fn button_pred(img: RgbBuffer) -> spec_fn(int, int) -> bool {
    |x: int, y: int| button_pattern_at(img, x, y)
}

/// Button-like squares on the grid of step 16.
pub open spec fn button_count(img: RgbBuffer) -> nat {
    tally2(0, img.spec_height() as int, 16, 0, img.spec_width() as int, 16, button_pred(img))
}

pub open spec fn cursor_pred(img: RgbBuffer) -> spec_fn(int, int) -> bool {
    |x: int, y: int| cursor_pattern_at(img, x, y)
}

/// Cursor-like pixels on the grid of step 8.
pub open spec fn cursor_count(img: RgbBuffer) -> nat {
    tally2(0, img.spec_height() as int, 8, 0, img.spec_width() as int, 8, cursor_pred(img))
}


// ---------------------------------------------------------------- dominant colours

/// A colour bin: a pixel quantised to 16 levels per channel.
pub open spec fn bin_pred(img: RgbBuffer, k: (u8, u8, u8)) -> spec_fn(int, int) -> bool {
    |x: int, y: int| match px(img, x, y) {
        Some(p) => quantized(p, 16) == k,
        None => false,
    }
}

pub open spec fn any_pred() -> spec_fn(int, int) -> bool {
    |x: int, y: int| true
}

/// Samples on the grid of step 4 that fall in bin `k`.
pub open spec fn bin_count(img: RgbBuffer, k: (u8, u8, u8)) -> nat {
    tally2(0, img.spec_height() as int, 4, 0, img.spec_width() as int, 4, bin_pred(img, k))
}

/// Number of samples on the grid of step 4.
pub open spec fn sample_total(img: RgbBuffer) -> nat {
    tally2(0, img.spec_height() as int, 4, 0, img.spec_width() as int, 4, any_pred())
}

/// No bin occurs twice.
pub open spec fn bins_distinct(s: Seq<((u8, u8, u8), u64)>) -> bool {
    forall|i: int, j: int| 0 <= i < j < s.len() ==> #[trigger] s[i].0 != #[trigger] s[j].0
}

pub open spec fn has_bin(s: Seq<((u8, u8, u8), u64)>, k: (u8, u8, u8)) -> bool {
    exists|i: int| 0 <= i < s.len() && #[trigger] s[i].0 == k
}

/// `s` lists every non-empty bin of the frame once, with its sample count.
pub open spec fn is_color_histogram(img: RgbBuffer, s: Seq<((u8, u8, u8), u64)>) -> bool {
    &&& bins_distinct(s)
    &&& forall|i: int| 0 <= i < s.len() ==> #[trigger] s[i].1 == bin_count(img, s[i].0) && s[i].1 > 0
    &&& forall|k: (u8, u8, u8)| #[trigger] bin_count(img, k) > 0 ==> has_bin(s, k)
}

/// Counts do not increase along the list.
pub open spec fn by_count_desc(s: Seq<((u8, u8, u8), u64)>) -> bool {
    forall|i: int, j: int| 0 <= i < j < s.len() ==> #[trigger] s[i].1 >= #[trigger] s[j].1
}

/// Samples of bin `k` from (x, y) on: the rest of row y, then the rows below.
pub open spec fn bin_rest(img: RgbBuffer, k: (u8, u8, u8), x: int, y: int) -> nat {
    tally(x, img.spec_width() as int, 4, row_of(bin_pred(img, k), y))
        + tally2(y + 4, img.spec_height() as int, 4, 0, img.spec_width() as int, 4, bin_pred(img, k))
}

pub open spec fn any_rest(img: RgbBuffer, x: int, y: int) -> nat {
    tally(x, img.spec_width() as int, 4, row_of(any_pred(), y))
        + tally2(y + 4, img.spec_height() as int, 4, 0, img.spec_width() as int, 4, any_pred())
}

proof fn lemma_bin_step(img: RgbBuffer, x: int, y: int, q: (u8, u8, u8))
    requires
        0 <= x < img.spec_width(),
        0 <= y < img.spec_height(),
        q == quantized(img.spec_pixel(x, y), 16),
    ensures
        forall|k: (u8, u8, u8)| #[trigger] bin_rest(img, k, x, y) == bin_rest(img, k, x + 4, y) + (if k == q { 1nat } else { 0nat }),
        any_rest(img, x, y) == any_rest(img, x + 4, y) + 1,
{
    assert forall|k: (u8, u8, u8)| #[trigger] bin_rest(img, k, x, y) == bin_rest(img, k, x + 4, y) + (if k == q { 1nat } else { 0nat }) by {
        assert(row_of(bin_pred(img, k), y)(x) == (k == q));
    }
}

proof fn lemma_bin_row(img: RgbBuffer, y: int)
    requires
        0 <= y < img.spec_height(),
    ensures
        forall|k: (u8, u8, u8)| #[trigger] bin_rest(img, k, 0, y)
            == tally2(y, img.spec_height() as int, 4, 0, img.spec_width() as int, 4, bin_pred(img, k)),
        any_rest(img, 0, y) == tally2(y, img.spec_height() as int, 4, 0, img.spec_width() as int, 4, any_pred()),
{
}

proof fn lemma_bin_row_end(img: RgbBuffer, x: int, y: int)
    requires
        x >= img.spec_width(),
    ensures
        forall|k: (u8, u8, u8)| #[trigger] bin_rest(img, k, x, y)
            == tally2(y + 4, img.spec_height() as int, 4, 0, img.spec_width() as int, 4, bin_pred(img, k)),
        any_rest(img, x, y) == tally2(y + 4, img.spec_height() as int, 4, 0, img.spec_width() as int, 4, any_pred()),
{
    assert forall|k: (u8, u8, u8)| #[trigger] bin_rest(img, k, x, y)
        == tally2(y + 4, img.spec_height() as int, 4, 0, img.spec_width() as int, 4, bin_pred(img, k)) by {
        assert(tally(x, img.spec_width() as int, 4, row_of(bin_pred(img, k), y)) == 0);
    }
}

/// Inserting an entry behind every entry of at least its count, and before
/// the first of a smaller count, keeps a list ordered by decreasing count.
proof fn lemma_insert_sorted(s: Seq<((u8, u8, u8), u64)>, pos: int, e: ((u8, u8, u8), u64))
    requires
        0 <= pos <= s.len(),
        forall|j: int| 0 <= j < pos ==> #[trigger] s[j].1 >= e.1,
        pos < s.len() ==> s[pos].1 < e.1,
        by_count_desc(s),
    ensures
        by_count_desc(s.insert(pos, e)),
{
    let out = s.insert(pos, e);
    assert forall|a: int, b: int| 0 <= a < b < out.len() implies #[trigger] out[a].1 >= #[trigger] out[b].1 by {
        if b < pos {
            assert(out[a] == s[a]);
            assert(out[b] == s[b]);
        } else if b == pos {
            assert(out[a] == s[a]);
        } else if a < pos {
            assert(out[a] == s[a]);
            assert(out[b] == s[b - 1]);
        } else if a == pos {
            assert(out[b] == s[b - 1]);
            assert(s[pos].1 >= s[b - 1].1 || b - 1 == pos);
        } else {
            assert(out[a] == s[a - 1]);
            assert(out[b] == s[b - 1]);
        }
    }
}

/// A list indexed both ways against the histogram it was built from holds
/// the same bins.
proof fn lemma_sorted_result(hist: Seq<((u8, u8, u8), u64)>, out: Seq<((u8, u8, u8), u64)>, src: Seq<int>, dst: Seq<int>)
    requires
        out.len() == hist.len(),
        src.len() == hist.len(),
        dst.len() == hist.len(),
        forall|j: int| 0 <= j < hist.len() ==> 0 <= #[trigger] src[j] < hist.len() && out[j] == hist[src[j]],
        forall|i: int| 0 <= i < hist.len() ==> 0 <= #[trigger] dst[i] < hist.len() && out[dst[i]] == hist[i],
        forall|a: int, b: int| 0 <= a < b < hist.len() ==> #[trigger] src[a] != #[trigger] src[b],
    ensures
        forall|j: int| 0 <= j < out.len() ==> hist.contains(#[trigger] out[j]),
        forall|i: int| 0 <= i < hist.len() ==> out.contains(#[trigger] hist[i]),
        bins_distinct(hist) ==> bins_distinct(out),
{
    lemma_from_hist(hist, out, src);
    lemma_to_out(hist, out, dst);
    if bins_distinct(hist) {
        lemma_distinct_through(hist, out, src);
    }
}

proof fn lemma_from_hist(hist: Seq<((u8, u8, u8), u64)>, out: Seq<((u8, u8, u8), u64)>, src: Seq<int>)
    requires
        out.len() == hist.len(),
        src.len() == hist.len(),
        forall|j: int| 0 <= j < hist.len() ==> 0 <= #[trigger] src[j] < hist.len() && out[j] == hist[src[j]],
    ensures
        forall|j: int| 0 <= j < out.len() ==> hist.contains(#[trigger] out[j]),
{
    assert forall|j: int| 0 <= j < out.len() implies hist.contains(#[trigger] out[j]) by {
        let i = src[j];
        assert(out[j] == hist[i]);
    }
}

proof fn lemma_to_out(hist: Seq<((u8, u8, u8), u64)>, out: Seq<((u8, u8, u8), u64)>, dst: Seq<int>)
    requires
        out.len() == hist.len(),
        dst.len() == hist.len(),
        forall|i: int| 0 <= i < hist.len() ==> 0 <= #[trigger] dst[i] < hist.len() && out[dst[i]] == hist[i],
    ensures
        forall|i: int| 0 <= i < hist.len() ==> out.contains(#[trigger] hist[i]),
{
    assert forall|i: int| 0 <= i < hist.len() implies out.contains(#[trigger] hist[i]) by {
        let j = dst[i];
        assert(out[j] == hist[i]);
    }
}

proof fn lemma_distinct_through(hist: Seq<((u8, u8, u8), u64)>, out: Seq<((u8, u8, u8), u64)>, src: Seq<int>)
    requires
        out.len() == hist.len(),
        src.len() == hist.len(),
        forall|j: int| 0 <= j < hist.len() ==> 0 <= #[trigger] src[j] < hist.len() && out[j] == hist[src[j]],
        forall|a: int, b: int| 0 <= a < b < hist.len() ==> #[trigger] src[a] != #[trigger] src[b],
        bins_distinct(hist),
    ensures
        bins_distinct(out),
{
    assert forall|a: int, b: int| 0 <= a < b < out.len() implies #[trigger] out[a].0 != #[trigger] out[b].0 by {
        let sa = src[a];
        let sb = src[b];
        assert(sa != sb);
        assert(out[a] == hist[sa]);
        assert(out[b] == hist[sb]);
        if sa < sb {
            assert(hist[sa].0 != hist[sb].0);
        } else {
            assert(hist[sb].0 != hist[sa].0);
        }
    }
}

/// The first `n` entries of `s`, or all of them when there are fewer.
pub open spec fn first_n<A>(s: Seq<A>, n: int) -> Seq<A> {
    if s.len() <= n { s } else { s.take(n) }
}

/// Colour statistics of a frame.
pub struct ColorAnalysis {
    /// The five most frequent colour bins, most frequent first.
    pub dominant_colors: Vec<(u8, u8, u8)>,
    /// The 32 most frequent bins with their sample counts, most frequent
    /// first; a bin's share of the frame is its count over `sampled_pixels`.
    pub color_distributions: Vec<((u8, u8, u8), u64)>,
    /// Number of pixels sampled for the colour bins.
    pub sampled_pixels: u64,
    /// High-contrast 16 x 16 tiles as (x, y, x2, y2).
    pub high_contrast_areas: Vec<(u32, u32, u32, u32)>,
    /// Runs of strong horizontal edges as (x, y, x2, y2).
    pub likely_text_areas: Vec<(u32, u32, u32, u32)>,
    /// "cursor" for each cursor-like pixel, then "button" when buttons show.
    pub menu_indicators: Vec<String>,
}

impl ColorAnalysis {
    /// Empty statistics.
    pub fn new() -> (r: ColorAnalysis)
        ensures
            r.dominant_colors@.len() == 0,
            r.color_distributions@.len() == 0,
            r.sampled_pixels == 0,
            r.high_contrast_areas@.len() == 0,
            r.likely_text_areas@.len() == 0,
            r.menu_indicators@.len() == 0,
    {
        ColorAnalysis {
            dominant_colors: Vec::new(),
            color_distributions: Vec::new(),
            sampled_pixels: 0,
            high_contrast_areas: Vec::new(),
            likely_text_areas: Vec::new(),
            menu_indicators: Vec::new(),
        }
    }
}

/// `s` ranks the frame's colour bins: every non-empty bin once, with its
/// count, most frequent first (bins of equal count in any order).
pub open spec fn is_color_ranking(img: RgbBuffer, s: Seq<((u8, u8, u8), u64)>) -> bool {
    is_color_histogram(img, s) && by_count_desc(s)
}

// ---------------------------------------------------------------- contrast

pub open spec fn luma_row_fn(img: RgbBuffer, x: int, y: int) -> spec_fn(int) -> int {
    |d: int| luma_at(img, x + d, y)
}

pub open spec fn luma_sq_row_fn(img: RgbBuffer, x: int, y: int) -> spec_fn(int) -> int {
    |d: int| luma_at(img, x + d, y) * luma_at(img, x + d, y)
}

/// Sum of the luma of the `w` pixels from (x, y) rightwards.
pub open spec fn row_luma_sum(img: RgbBuffer, x: int, y: int, w: int) -> int {
    sum_over(0, w, 1, luma_row_fn(img, x, y))
}

/// Sum of the squared luma of the `w` pixels from (x, y) rightwards.
pub open spec fn row_luma_sq(img: RgbBuffer, x: int, y: int, w: int) -> int {
    sum_over(0, w, 1, luma_sq_row_fn(img, x, y))
}

/// Sum of the luma over the w x h block at (x, y).
pub open spec fn block_luma_sum(img: RgbBuffer, x: int, y: int, w: int, h: int) -> int {
    sum_over(0, h, 1, |e: int| row_luma_sum(img, x, y + e, w))
}

/// Sum of the squared luma over the w x h block at (x, y).
pub open spec fn block_luma_sq(img: RgbBuffer, x: int, y: int, w: int, h: int) -> int {
    sum_over(0, h, 1, |e: int| row_luma_sq(img, x, y + e, w))
}

/// Width of the tile of side 16 at x, cut at the right edge.
pub open spec fn tile_extent(size: int, start: int, limit: int) -> int {
    if size < limit - start { size } else { limit - start }
}

/// The luma of the tile of side 16 at (x, y), cut at the frame's edges, has
/// a sample standard deviation above 50: with n pixels, luma sum S and sum
/// of squares Q (in ten-thousandths), n Q - S^2 > 2500 * 10^8 * n (n - 1).
pub open spec fn high_contrast_tile(img: RgbBuffer, x: int, y: int) -> bool {
    let w = tile_extent(16, x, img.spec_width() as int);
    let h = tile_extent(16, y, img.spec_height() as int);
    let n = w * h;
    let s1 = block_luma_sum(img, x, y, w, h);
    let s2 = block_luma_sq(img, x, y, w, h);
    n >= 2 && n * s2 - s1 * s1 > 250_000_000_000 * (n * (n - 1))
}

/// High-contrast tiles of row `y` from column `x` on, as clamped corners.
pub open spec fn contrast_row(img: RgbBuffer, x: int, y: int) -> Seq<(u32, u32, u32, u32)>
    decreases if x < img.spec_width() { img.spec_width() - x } else { 0 },
{
    if x >= img.spec_width() || x < 0 {
        Seq::empty()
    } else {
        (if high_contrast_tile(img, x, y) {
            seq![clamped_rect(x as u32, y as u32, 16, 16, img.spec_width() as u32, img.spec_height() as u32)]
        } else {
            Seq::empty()
        }) + contrast_row(img, x + 16, y)
    }
}

/// High-contrast tiles of the rows from `y` down, row by row.
pub open spec fn contrast_rows(img: RgbBuffer, y: int) -> Seq<(u32, u32, u32, u32)>
    decreases if y < img.spec_height() { img.spec_height() - y } else { 0 },
{
    if y >= img.spec_height() || y < 0 {
        Seq::empty()
    } else {
        contrast_row(img, 0, y) + contrast_rows(img, y + 16)
    }
}

/// The high-contrast tiles of a frame in scan order.
pub open spec fn high_contrast_areas(img: RgbBuffer) -> Seq<(u32, u32, u32, u32)> {
    contrast_rows(img, 0)
}

// ---------------------------------------------------------------- text rows

/// Luma changes by more than 25 between (x - 1, y) and (x, y).
pub open spec fn strong_edge(img: RgbBuffer, x: int, y: int) -> bool {
    let d = luma_at(img, x, y) - luma_at(img, x - 1, y);
    d > 250_000 || -d > 250_000
}

/// The text-like runs of row `y` from column `x` on, given the run in
/// progress (its first column and length): a run of at least 30 strong
/// edges is recorded when it ends, as (first column, y, end column,
/// y + 8 held inside the frame); a run still open at the row's end is not.
pub open spec fn row_runs(img: RgbBuffer, y: int, x: int, start: int, len: int) -> Seq<(u32, u32, u32, u32)>
    decreases if x < img.spec_width() { img.spec_width() - x } else { 0 },
{
    if x >= img.spec_width() || x < 1 {
        Seq::empty()
    } else if strong_edge(img, x, y) {
        row_runs(img, y, x + 1, if len == 0 { x - 1 } else { start }, len + 1)
    } else if len > 0 {
        (if len >= 30 {
            seq![(start as u32, y as u32, x as u32, (if y + 8 < img.spec_height() { y + 8 } else { img.spec_height() as int }) as u32)]
        } else {
            Seq::empty()
        }) + row_runs(img, y, x + 1, 0, 0)
    } else {
        row_runs(img, y, x + 1, 0, 0)
    }
}

/// The text-like runs of the rows from `y` down, every eighth row.
pub open spec fn text_rows(img: RgbBuffer, y: int) -> Seq<(u32, u32, u32, u32)>
    decreases if y < img.spec_height() { img.spec_height() - y } else { 0 },
{
    if y >= img.spec_height() || y < 0 {
        Seq::empty()
    } else {
        row_runs(img, y, 1, 0, 0) + text_rows(img, y + 8)
    }
}

/// The text-like runs of a frame in scan order.
pub open spec fn likely_text_areas(img: RgbBuffer) -> Seq<(u32, u32, u32, u32)> {
    text_rows(img, 0)
}

/// Computes colour statistics of frames.
pub struct ColorAnalysisService;

impl ColorAnalysisService {
    pub fn new() -> (r: ColorAnalysisService) {
        ColorAnalysisService
    }

    /// Quantises each channel down to a multiple of 256 / q.
    pub fn quantize_rgb(&self, px: (u8, u8, u8), q: u8) -> (r: (u8, u8, u8))
        requires q > 0,
        ensures r == quantized(px, q),
    {
        let step: u32 = 256 / q as u32;
        proof {
            assert(1 <= step <= 256) by (nonlinear_arith) requires 1 <= q <= 255, step == 256int / (q as int);
            assert((px.0 as u32 / step) * step <= px.0) by (nonlinear_arith) requires step > 0;
            assert((px.1 as u32 / step) * step <= px.1) by (nonlinear_arith) requires step > 0;
            assert((px.2 as u32 / step) * step <= px.2) by (nonlinear_arith) requires step > 0;
        }
        let a: u32 = (px.0 as u32 / step) * step;
        let b: u32 = (px.1 as u32 / step) * step;
        let c: u32 = (px.2 as u32 / step) * step;
        (
            if a > 255 { 255 } else { a as u8 },
            if b > 255 { 255 } else { b as u8 },
            if c > 255 { 255 } else { c as u8 },
        )
    }

    /// The rectangle's corners with the far one held inside the raster.
    pub fn clamp_rect(&self, x: u32, y: u32, w: u32, h: u32, max_w: u32, max_h: u32) -> (r: (u32, u32, u32, u32))
        requires
            x + w <= u32::MAX,
            y + h <= u32::MAX,
        ensures r == clamped_rect(x, y, w, h, max_w, max_h),
    {
        let x2 = x + w;
        let y2 = y + h;
        (x, y, if x2 < max_w { x2 } else { max_w }, if y2 < max_h { y2 } else { max_h })
    }

    /// Whether (x, y) looks like a menu cursor.
    pub fn is_cursor_pattern(&self, image: &RgbBuffer, x: u32, y: u32) -> (r: bool)
        requires
            image.spec_width() > 0,
            image.spec_height() > 0,
        ensures r == cursor_pattern_at(*image, x as int, y as int),
    {
        if x == 0 || y == 0 || x as u64 + 1 >= image.width() as u64 || y as u64 + 1 >= image.height() as u64 {
            return false;
        }
        let x = x as u64;
        let y = y as u64;
        let c = luma_at_exec(image, x, y) as u64;
        let s: u64 = luma_at_exec(image, x - 1, y - 1) as u64 + luma_at_exec(image, x, y - 1) as u64
            + luma_at_exec(image, x + 1, y - 1) as u64 + luma_at_exec(image, x - 1, y) as u64
            + luma_at_exec(image, x + 1, y) as u64 + luma_at_exec(image, x - 1, y + 1) as u64
            + luma_at_exec(image, x, y + 1) as u64 + luma_at_exec(image, x + 1, y + 1) as u64;
        8 * c > s + 8 * 500_000
    }

    /// Whether the 16 x 16 square at (x, y) looks like a button: inside the
    /// raster, with a border mostly brighter than its centre.
    pub fn is_button_pattern(&self, image: &RgbBuffer, x: u32, y: u32) -> (r: bool)
        requires
            x + 16 <= u32::MAX,
            y + 16 <= u32::MAX,
        ensures r == button_pattern_at(*image, x as int, y as int),
    {
        if x as u64 + 16 > image.width() as u64 || y as u64 + 16 > image.height() as u64 {
            return false;
        }
        let x = x as u64;
        let y = y as u64;
        let c = luma_at_exec(image, x + 8, y + 8);
        let ghost ci = c as int;
        let ghost img = *image;
        let ghost xi = x as int;
        let ghost yi = y as int;
        let ghost p0 = |d: int| border_bright(img, xi + d, yi, ci);
        let ghost p1 = |d: int| border_bright(img, xi + d, yi + 15, ci);
        let ghost p2 = |d: int| border_bright(img, xi, yi + d, ci);
        let ghost p3 = |d: int| border_bright(img, xi + 15, yi + d, ci);
        let mut n: u64 = 0;
        let mut d: u64 = 0;
        while d < 16
            invariant
                d <= 16,
                n <= 4 * d,
                ci == luma_at(img, x + 8, y + 8),
                ci == c,
                img == *image,
                xi == x,
                yi == y,
                p0 == (|d: int| border_bright(img, xi + d, yi, ci)),
                p1 == (|d: int| border_bright(img, xi + d, yi + 15, ci)),
                p2 == (|d: int| border_bright(img, xi, yi + d, ci)),
                p3 == (|d: int| border_bright(img, xi + 15, yi + d, ci)),
                x + 16 <= u32::MAX,
                y + 16 <= u32::MAX,
                n + tally(d as int, 16, 1, p0) + tally(d as int, 16, 1, p1) + tally(d as int, 16, 1, p2) + tally(d as int, 16, 1, p3)
                    == tally(0, 16, 1, p0) + tally(0, 16, 1, p1) + tally(0, 16, 1, p2) + tally(0, 16, 1, p3),
            decreases 16 - d,
        {
            let la = luma_at_exec(image, x + d, y);
            let lb = luma_at_exec(image, x + d, y + 15);
            let ll = luma_at_exec(image, x, y + d);
            let lr = luma_at_exec(image, x + 15, y + d);
            let a = la + 50_000 > c;
            let b = lb + 50_000 > c;
            let l = ll + 50_000 > c;
            let rr = lr + 50_000 > c;
            proof {
                assert(a == p0(d as int));
                assert(b == p1(d as int));
                assert(l == p2(d as int));
                assert(rr == p3(d as int));
            }
            if a { n = n + 1; }
            if b { n = n + 1; }
            if l { n = n + 1; }
            if rr { n = n + 1; }
            d = d + 1;
        }
        proof {
            assert(tally(16, 16, 1, p0) == 0);
            assert(tally(16, 16, 1, p1) == 0);
            assert(tally(16, 16, 1, p2) == 0);
            assert(tally(16, 16, 1, p3) == 0);
        }
        n > 48
    }

    /// The position of bin `k` in `hist`, if it is there.
    fn find_bin(hist: &Vec<((u8, u8, u8), u64)>, k: (u8, u8, u8)) -> (r: Option<usize>)
        ensures
            r matches Some(i) ==> i < hist@.len() && hist@[i as int].0 == k,
            r is None ==> !has_bin(hist@, k),
    {
        let mut i: usize = 0;
        while i < hist.len()
            invariant
                i <= hist@.len(),
                forall|j: int| 0 <= j < i ==> hist@[j].0 != k,
            decreases hist@.len() - i,
        {
            let e = hist[i].0;
            if e.0 == k.0 && e.1 == k.1 && e.2 == k.2 {
                return Some(i);
            }
            i = i + 1;
        }
        None
    }

    /// Sample counts of the colour bins over the grid of step 4, bins in
    /// the order they are first met, and the number of samples.
    fn color_histogram(&self, image: &RgbBuffer) -> (r: (Vec<((u8, u8, u8), u64)>, u64))
        ensures
            is_color_histogram(*image, r.0@),
            r.1 == sample_total(*image),
    {
        let ghost img = *image;
        proof { crate::raster::lemma_dims_bounded(img); }
        let w = image.width() as u64;
        let h = image.height() as u64;
        proof {
            crate::sampling::lemma_tally2_bound(0, h as int, 4, 0, w as int, 4, any_pred());
            assert(h * w <= 0xffff_fffe_0000_0001) by (nonlinear_arith) requires h <= 0xffff_ffff, w <= 0xffff_ffff;
            assert forall|k: (u8, u8, u8)| #[trigger] bin_count(img, k) <= h * w by {
                crate::sampling::lemma_tally2_bound(0, h as int, 4, 0, w as int, 4, bin_pred(img, k));
            }
        }
        let mut hist: Vec<((u8, u8, u8), u64)> = Vec::new();
        let mut total: u64 = 0;
        let mut y: u64 = 0;
        while y < h
            invariant
                img == *image,
                w == img.spec_width(),
                h == img.spec_height(),
                w <= u32::MAX,
                h <= u32::MAX,
                y <= h + 4,
                h * w <= 0xffff_fffe_0000_0001,
                forall|k: (u8, u8, u8)| #[trigger] bin_count(img, k) <= h * w,
                sample_total(img) <= h * w,
                bins_distinct(hist@),
                forall|i: int| 0 <= i < hist@.len() ==> #[trigger] hist@[i].1
                    + tally2(y as int, h as int, 4, 0, w as int, 4, bin_pred(img, hist@[i].0)) == bin_count(img, hist@[i].0)
                    && hist@[i].1 > 0,
                forall|k: (u8, u8, u8)| !has_bin(hist@, k)
                    ==> tally2(y as int, h as int, 4, 0, w as int, 4, bin_pred(img, k)) == #[trigger] bin_count(img, k),
                total + tally2(y as int, h as int, 4, 0, w as int, 4, any_pred()) == sample_total(img),
            decreases h + 4 - y,
        {
            proof { lemma_bin_row(img, y as int); }
            let mut x: u64 = 0;
            while x < w
                invariant
                    img == *image,
                    w == img.spec_width(),
                    h == img.spec_height(),
                    w <= u32::MAX,
                    h <= u32::MAX,
                    y < h,
                    x <= w + 4,
                    h * w <= 0xffff_fffe_0000_0001,
                    forall|k: (u8, u8, u8)| #[trigger] bin_count(img, k) <= h * w,
                    sample_total(img) <= h * w,
                    bins_distinct(hist@),
                    forall|i: int| 0 <= i < hist@.len() ==> #[trigger] hist@[i].1
                        + bin_rest(img, hist@[i].0, x as int, y as int) == bin_count(img, hist@[i].0)
                        && hist@[i].1 > 0,
                    forall|k: (u8, u8, u8)| !has_bin(hist@, k)
                        ==> bin_rest(img, k, x as int, y as int) == #[trigger] bin_count(img, k),
                    total + any_rest(img, x as int, y as int) == sample_total(img),
                decreases w + 4 - x,
            {
                let p = image.pixel(x as u32, y as u32);
                let q = self.quantize_rgb(p, 16);
                proof { lemma_bin_step(img, x as int, y as int, q); }
                let ghost old_hist = hist@;
                match Self::find_bin(&hist, q) {
                    Some(i) => {
                        let c = hist[i].1;
                        proof {
                            assert(c + bin_rest(img, q, x as int, y as int) == bin_count(img, q));
                        }
                        hist.set(i, (q, c + 1));
                        proof {
                            assert forall|j: int| 0 <= j < hist@.len() implies #[trigger] hist@[j].1
                                + bin_rest(img, hist@[j].0, x + 4, y as int) == bin_count(img, hist@[j].0)
                                && hist@[j].1 > 0 by {
                                assert(bin_rest(img, old_hist[j].0, x as int, y as int) == bin_rest(img, old_hist[j].0, x + 4, y as int)
                                    + (if old_hist[j].0 == q { 1nat } else { 0nat }));
                                if j != i {
                                    assert(old_hist[j].0 != q);
                                }
                            }
                            assert forall|k: (u8, u8, u8)| !has_bin(hist@, k)
                                implies bin_rest(img, k, x + 4, y as int) == #[trigger] bin_count(img, k) by {
                                assert(!has_bin(old_hist, k)) by {
                                    if has_bin(old_hist, k) {
                                        let j = choose|j: int| 0 <= j < old_hist.len() && #[trigger] old_hist[j].0 == k;
                                        assert(hist@[j].0 == k);
                                    }
                                }
                                assert(bin_rest(img, k, x as int, y as int) == bin_rest(img, k, x + 4, y as int)
                                    + (if k == q { 1nat } else { 0nat }));
                                assert(k != q) by {
                                    assert(hist@[i as int].0 == q);
                                }
                            }
                        }
                    },
                    None => {
                        proof {
                            assert(bin_rest(img, q, x as int, y as int) == bin_count(img, q));
                        }
                        hist.push((q, 1));
                        proof {
                            assert forall|j: int| 0 <= j < hist@.len() implies #[trigger] hist@[j].1
                                + bin_rest(img, hist@[j].0, x + 4, y as int) == bin_count(img, hist@[j].0)
                                && hist@[j].1 > 0 by {
                                if j < old_hist.len() {
                                    assert(hist@[j] == old_hist[j]);
                                    assert(old_hist[j].0 != q);
                                    assert(bin_rest(img, old_hist[j].0, x as int, y as int) == bin_rest(img, old_hist[j].0, x + 4, y as int));
                                } else {
                                    assert(bin_rest(img, q, x as int, y as int) == bin_rest(img, q, x + 4, y as int) + 1);
                                }
                            }
                            assert forall|k: (u8, u8, u8)| !has_bin(hist@, k)
                                implies bin_rest(img, k, x + 4, y as int) == #[trigger] bin_count(img, k) by {
                                assert(k != q) by {
                                    assert(hist@[old_hist.len() as int].0 == q);
                                }
                                assert(!has_bin(old_hist, k)) by {
                                    if has_bin(old_hist, k) {
                                        let j = choose|j: int| 0 <= j < old_hist.len() && #[trigger] old_hist[j].0 == k;
                                        assert(hist@[j].0 == k);
                                    }
                                }
                                assert(bin_rest(img, k, x as int, y as int) == bin_rest(img, k, x + 4, y as int));
                            }
                            assert(bins_distinct(hist@)) by {
                                assert forall|a: int, b: int| 0 <= a < b < hist@.len() implies #[trigger] hist@[a].0 != #[trigger] hist@[b].0 by {
                                    if b == old_hist.len() {
                                        assert(hist@[a] == old_hist[a]);
                                    } else {
                                        assert(hist@[a] == old_hist[a]);
                                        assert(hist@[b] == old_hist[b]);
                                    }
                                }
                            }
                        }
                    },
                }
                total = total + 1;
                x = x + 4;
            }
            proof { lemma_bin_row_end(img, x as int, y as int); }
            y = y + 4;
        }
        proof {
            assert forall|k: (u8, u8, u8)| #[trigger] bin_count(img, k) > 0 implies has_bin(hist@, k) by {
                assert(tally2(y as int, h as int, 4, 0, w as int, 4, bin_pred(img, k)) == 0);
            }
            assert forall|i: int| 0 <= i < hist@.len() implies #[trigger] hist@[i].1 == bin_count(img, hist@[i].0) && hist@[i].1 > 0 by {
                assert(tally2(y as int, h as int, 4, 0, w as int, 4, bin_pred(img, hist@[i].0)) == 0);
            }
        }
        (hist, total)
    }

    /// The bins reordered by decreasing count; bins of equal count keep
    /// their order.
    fn sort_by_count(hist: &Vec<((u8, u8, u8), u64)>) -> (r: Vec<((u8, u8, u8), u64)>)
        ensures
            r@.len() == hist@.len(),
            forall|j: int| 0 <= j < r@.len() ==> hist@.contains(#[trigger] r@[j]),
            forall|i: int| 0 <= i < hist@.len() ==> r@.contains(#[trigger] hist@[i]),
            bins_distinct(hist@) ==> bins_distinct(r@),
            by_count_desc(r@),
    {
        let mut out: Vec<((u8, u8, u8), u64)> = Vec::new();
        let ghost mut src: Seq<int> = Seq::empty();
        let ghost mut dst: Seq<int> = Seq::empty();
        let mut p: usize = 0;
        while p < hist.len()
            invariant
                p <= hist@.len(),
                out@.len() == p,
                src.len() == p,
                dst.len() == p,
                forall|j: int| 0 <= j < p ==> 0 <= #[trigger] src[j] < p && out@[j] == hist@[src[j]],
                forall|i: int| 0 <= i < p ==> 0 <= #[trigger] dst[i] < p && out@[dst[i]] == hist@[i],
                forall|a: int, b: int| 0 <= a < b < p ==> #[trigger] src[a] != #[trigger] src[b],
                by_count_desc(out@),
            decreases hist@.len() - p,
        {
            let e = hist[p];
            let mut pos: usize = 0;
            while pos < out.len() && out[pos].1 >= e.1
                invariant
                    pos <= out@.len(),
                    forall|j: int| 0 <= j < pos ==> #[trigger] out@[j].1 >= e.1,
                decreases out@.len() - pos,
            {
                pos = pos + 1;
            }
            let ghost old_out = out@;
            let ghost old_src = src;
            let ghost old_dst = dst;
            out.insert(pos, e);
            proof {
                lemma_insert_sorted(old_out, pos as int, e);
                src = old_src.insert(pos as int, p as int);
                dst = Seq::new((p + 1) as nat, |i: int| if i == p { pos as int } else if old_dst[i] < pos { old_dst[i] } else { old_dst[i] + 1 });
                assert forall|j: int| 0 <= j < p + 1 implies 0 <= #[trigger] src[j] < p + 1 && out@[j] == hist@[src[j]] by {
                    if j < pos {
                        assert(src[j] == old_src[j]);
                    } else if j > pos {
                        assert(src[j] == old_src[j - 1]);
                    }
                }
                assert forall|i: int| 0 <= i < p + 1 implies 0 <= #[trigger] dst[i] < p + 1 && out@[dst[i]] == hist@[i] by {
                    if i < p {
                        let d = old_dst[i];
                        if d < pos {
                            assert(out@[d] == old_out[d]);
                        } else {
                            assert(out@[d + 1] == old_out[d]);
                        }
                    }
                }
                assert forall|a: int, b: int| 0 <= a < b < p + 1 implies #[trigger] src[a] != #[trigger] src[b] by {
                    if a < pos && b < pos {
                        assert(src[a] == old_src[a] && src[b] == old_src[b]);
                    } else if a < pos && b > pos {
                        assert(src[a] == old_src[a] && src[b] == old_src[b - 1]);
                    } else if a > pos {
                        assert(src[a] == old_src[a - 1] && src[b] == old_src[b - 1]);
                    } else if a == pos {
                        assert(src[b] == old_src[b - 1]);
                    } else {
                        assert(src[a] == old_src[a]);
                    }
                }
            }
            p = p + 1;
        }
        proof { lemma_sorted_result(hist@, out@, src, dst); }
        out
    }

    /// Ranks the colour bins of the samples on the grid of step 4 and keeps
    /// the five most frequent as dominant colours and the 32 most frequent
    /// with their counts.
    pub fn find_dominant_colors(&self, image: &RgbBuffer, analysis: &mut ColorAnalysis)
        ensures
            exists|s: Seq<((u8, u8, u8), u64)>| {
                &&& is_color_ranking(*image, s)
                &&& final(analysis).dominant_colors@ == first_n(s, 5).map_values(|e: ((u8, u8, u8), u64)| e.0)
                &&& final(analysis).color_distributions@ == first_n(s, 32)
            },
            final(analysis).sampled_pixels == sample_total(*image),
            final(analysis).high_contrast_areas == old(analysis).high_contrast_areas,
            final(analysis).likely_text_areas == old(analysis).likely_text_areas,
            final(analysis).menu_indicators == old(analysis).menu_indicators,
    {
        let (hist, total) = self.color_histogram(image);
        let sorted = Self::sort_by_count(&hist);
        proof {
            let s = sorted@;
            assert forall|i: int| 0 <= i < s.len() implies #[trigger] s[i].1 == bin_count(*image, s[i].0) && s[i].1 > 0 by {
                assert(hist@.contains(s[i]));
            }
            assert forall|k: (u8, u8, u8)| #[trigger] bin_count(*image, k) > 0 implies has_bin(s, k) by {
                let i = choose|i: int| 0 <= i < hist@.len() && #[trigger] hist@[i].0 == k;
                assert(s.contains(hist@[i]));
                let j = choose|j: int| 0 <= j < s.len() && s[j] == hist@[i];
                assert(s[j].0 == k);
            }
        }
        let mut dominant: Vec<(u8, u8, u8)> = Vec::new();
        let mut i: usize = 0;
        while i < sorted.len() && i < 5
            invariant
                i <= sorted@.len(),
                i <= 5,
                dominant@ == sorted@.take(i as int).map_values(|e: ((u8, u8, u8), u64)| e.0),
            decreases 5 - i,
        {
            dominant.push(sorted[i].0);
            i = i + 1;
            proof {
                assert(dominant@ =~= sorted@.take(i as int).map_values(|e: ((u8, u8, u8), u64)| e.0));
            }
        }
        proof {
            if sorted@.len() <= 5 {
                assert(sorted@.take(i as int) =~= sorted@);
            }
        }
        let mut dist: Vec<((u8, u8, u8), u64)> = Vec::new();
        let mut j: usize = 0;
        while j < sorted.len() && j < 32
            invariant
                j <= sorted@.len(),
                j <= 32,
                dist@ == sorted@.take(j as int),
            decreases 32 - j,
        {
            dist.push(sorted[j]);
            j = j + 1;
            proof {
                assert(dist@ =~= sorted@.take(j as int));
            }
        }
        proof {
            if sorted@.len() <= 32 {
                assert(sorted@.take(j as int) =~= sorted@);
            }
        }
        analysis.dominant_colors = dominant;
        analysis.color_distributions = dist;
        analysis.sampled_pixels = total;
        proof {
            assert(is_color_ranking(*image, sorted@));
            assert(first_n(sorted@, 5) == sorted@.take(i as int));
            assert(first_n(sorted@, 32) == sorted@.take(j as int));
            assert(analysis.dominant_colors@ == first_n(sorted@, 5).map_values(|e: ((u8, u8, u8), u64)| e.0));
            assert(analysis.color_distributions@ == first_n(sorted@, 32));
        }
    }

    /// Whether the tile of side 16 at (x, y), cut at the frame's edges, has
    /// a luma standard deviation above 50.
    pub fn is_high_contrast_tile(&self, image: &RgbBuffer, x: u32, y: u32) -> (r: bool)
        requires
            x <= image.spec_width(),
            y <= image.spec_height(),
        ensures r == high_contrast_tile(*image, x as int, y as int),
    {
        let ghost img = *image;
        let w: u64 = if 16 < image.width() - x { 16 } else { (image.width() - x) as u64 };
        let h: u64 = if 16 < image.height() - y { 16 } else { (image.height() - y) as u64 };
        let x = x as u64;
        let y = y as u64;
        let ghost xi = x as int;
        let ghost yi = y as int;
        let mut s1: u128 = 0;
        let mut s2: u128 = 0;
        let mut dy: u64 = 0;
        while dy < h
            invariant
                img == *image,
                xi == x,
                yi == y,
                w <= 16,
                h <= 16,
                x <= u32::MAX,
                y <= u32::MAX,
                dy <= h,
                dy * w <= 256,
                s1 <= (dy * w) * 2_550_000,
                s2 <= (dy * w) * 6_502_500_000_000,
                s1 + sum_over(dy as int, h as int, 1, |e: int| row_luma_sum(img, xi, yi + e, w as int)) == block_luma_sum(img, x as int, y as int, w as int, h as int),
                s2 + sum_over(dy as int, h as int, 1, |e: int| row_luma_sq(img, xi, yi + e, w as int)) == block_luma_sq(img, x as int, y as int, w as int, h as int),
            decreases h - dy,
        {
            let mut dx: u64 = 0;
            proof {
                assert(dy * w + w <= 256) by (nonlinear_arith) requires dy < h, h <= 16, w <= 16;
            }
            while dx < w
                invariant
                    img == *image,
                    xi == x,
                    yi == y,
                    w <= 16,
                    h <= 16,
                    x <= u32::MAX,
                    y <= u32::MAX,
                    dy < h,
                    dx <= w,
                    dy * w + dx <= 256,
                    dy * w + w <= 256,
                    s1 <= (dy * w + dx) * 2_550_000,
                    s2 <= (dy * w + dx) * 6_502_500_000_000,
                    s1 + sum_over(dx as int, w as int, 1, luma_row_fn(img, x as int, y + dy))
                        + sum_over(dy + 1, h as int, 1, |e: int| row_luma_sum(img, xi, yi + e, w as int))
                        == block_luma_sum(img, x as int, y as int, w as int, h as int),
                    s2 + sum_over(dx as int, w as int, 1, luma_sq_row_fn(img, x as int, y + dy))
                        + sum_over(dy + 1, h as int, 1, |e: int| row_luma_sq(img, xi, yi + e, w as int))
                        == block_luma_sq(img, x as int, y as int, w as int, h as int),
                decreases w - dx,
            {
                let v = luma_at_exec(image, x + dx, y + dy) as u128;
                proof {
                    assert(luma_row_fn(img, x as int, y + dy)(dx as int) == v);
                    assert(luma_sq_row_fn(img, x as int, y + dy)(dx as int) == v * v);
                    assert(v * v <= 6_502_500_000_000) by (nonlinear_arith) requires v <= 2_550_000;
                }
                s1 = s1 + v;
                s2 = s2 + v * v;
                dx = dx + 1;
                proof {
                    assert(s1 <= (dy * w + dx) * 2_550_000);
                }
            }
            proof {
                assert(sum_over(dx as int, w as int, 1, luma_row_fn(img, x as int, y + dy)) == 0);
                assert(sum_over(dx as int, w as int, 1, luma_sq_row_fn(img, x as int, y + dy)) == 0);
                assert((dy + 1) * w == dy * w + w) by (nonlinear_arith);
            }
            dy = dy + 1;
        }
        proof {
            assert(sum_over(dy as int, h as int, 1, |e: int| row_luma_sum(img, xi, yi + e, w as int)) == 0);
            assert(sum_over(dy as int, h as int, 1, |e: int| row_luma_sq(img, xi, yi + e, w as int)) == 0);
            assert(w * h <= 256) by (nonlinear_arith) requires w <= 16, h <= 16;
            assert(dy * w == w * h) by (nonlinear_arith) requires dy == h;
        }
        let n: u128 = (w * h) as u128;
        if n < 2 {
            return false;
        }
        proof {
            assert(s1 * s1 <= 652_800_000 * 652_800_000) by (nonlinear_arith) requires s1 <= 652_800_000;
            assert(n * s2 <= 256 * 1_664_640_000_000_000) by (nonlinear_arith) requires n <= 256, s2 <= 1_664_640_000_000_000;
            assert(n * (n - 1) <= 65536) by (nonlinear_arith) requires 2 <= n <= 256;
        }
        proof {
            assert(s1 == block_luma_sum(img, xi, yi, w as int, h as int));
            assert(s2 == block_luma_sq(img, xi, yi, w as int, h as int));
            assert(w == tile_extent(16, xi, img.spec_width() as int));
            assert(h == tile_extent(16, yi, img.spec_height() as int));
            assert(n == w * h);
        }
        n * s2 > s1 * s1 + 250_000_000_000 * (n * (n - 1))
    }

    /// Records every tile of side 16 with a luma standard deviation above
    /// 50, as corners held inside the frame, in scan order.
    pub fn find_high_contrast_areas(&self, image: &RgbBuffer, analysis: &mut ColorAnalysis)
        requires
            image.spec_width() <= u32::MAX - 15,
            image.spec_height() <= u32::MAX - 15,
        ensures
            final(analysis).high_contrast_areas@ == old(analysis).high_contrast_areas@ + high_contrast_areas(*image),
            final(analysis).dominant_colors == old(analysis).dominant_colors,
            final(analysis).color_distributions == old(analysis).color_distributions,
            final(analysis).sampled_pixels == old(analysis).sampled_pixels,
            final(analysis).likely_text_areas == old(analysis).likely_text_areas,
            final(analysis).menu_indicators == old(analysis).menu_indicators,
    {
        let ghost img = *image;
        let ghost start = analysis.high_contrast_areas@;
        let width = image.width() as u64;
        let height = image.height() as u64;
        let mut y: u64 = 0;
        while y < height
            invariant
                img == *image,
                width == img.spec_width(),
                height == img.spec_height(),
                width <= u32::MAX - 15,
                height <= u32::MAX - 15,
                y <= height + 16,
                y >= height ==> contrast_rows(img, y as int) =~= Seq::<(u32, u32, u32, u32)>::empty(),
                start + high_contrast_areas(img) == analysis.high_contrast_areas@ + contrast_rows(img, y as int),
                analysis.dominant_colors == old(analysis).dominant_colors,
                analysis.color_distributions == old(analysis).color_distributions,
                analysis.sampled_pixels == old(analysis).sampled_pixels,
                analysis.likely_text_areas == old(analysis).likely_text_areas,
                analysis.menu_indicators == old(analysis).menu_indicators,
            decreases height + 16 - y,
        {
            let mut x: u64 = 0;
            while x < width
                invariant
                    img == *image,
                    width == img.spec_width(),
                    height == img.spec_height(),
                    width <= u32::MAX - 15,
                    height <= u32::MAX - 15,
                    y < height,
                    x <= width + 16,
                    start + high_contrast_areas(img)
                        == analysis.high_contrast_areas@ + (contrast_row(img, x as int, y as int) + contrast_rows(img, y + 16)),
                    analysis.dominant_colors == old(analysis).dominant_colors,
                    analysis.color_distributions == old(analysis).color_distributions,
                    analysis.sampled_pixels == old(analysis).sampled_pixels,
                    analysis.likely_text_areas == old(analysis).likely_text_areas,
                    analysis.menu_indicators == old(analysis).menu_indicators,
                decreases width + 16 - x,
            {
                let ghost before = analysis.high_contrast_areas@;
                if self.is_high_contrast_tile(image, x as u32, y as u32) {
                    let r = self.clamp_rect(x as u32, y as u32, 16, 16, width as u32, height as u32);
                    analysis.high_contrast_areas.push(r);
                    proof {
                        assert(analysis.high_contrast_areas@ + (contrast_row(img, x + 16, y as int) + contrast_rows(img, y + 16))
                            =~= before + (contrast_row(img, x as int, y as int) + contrast_rows(img, y + 16)));
                    }
                } else {
                    proof {
                        assert(contrast_row(img, x as int, y as int) =~= contrast_row(img, x + 16, y as int));
                    }
                }
                x = x + 16;
            }
            proof {
                assert(contrast_row(img, x as int, y as int) =~= Seq::<(u32, u32, u32, u32)>::empty());
                assert(analysis.high_contrast_areas@ + (contrast_row(img, x as int, y as int) + contrast_rows(img, y + 16))
                    =~= analysis.high_contrast_areas@ + contrast_rows(img, y + 16));
            }
            y = y + 16;
        }
        proof {
            assert(analysis.high_contrast_areas@ =~= start + high_contrast_areas(img));
        }
    }

    /// Records the runs of at least 30 strong horizontal luma edges on
    /// every eighth row, in scan order.
    pub fn find_likely_text_areas(&self, image: &RgbBuffer, analysis: &mut ColorAnalysis)
        requires
            image.spec_height() <= u32::MAX - 7,
        ensures
            final(analysis).likely_text_areas@ == old(analysis).likely_text_areas@ + likely_text_areas(*image),
            final(analysis).dominant_colors == old(analysis).dominant_colors,
            final(analysis).color_distributions == old(analysis).color_distributions,
            final(analysis).sampled_pixels == old(analysis).sampled_pixels,
            final(analysis).high_contrast_areas == old(analysis).high_contrast_areas,
            final(analysis).menu_indicators == old(analysis).menu_indicators,
    {
        let ghost img = *image;
        let ghost start = analysis.likely_text_areas@;
        let w = image.width() as u64;
        let h = image.height() as u64;
        let mut y: u64 = 0;
        while y < h
            invariant
                img == *image,
                w == img.spec_width(),
                h == img.spec_height(),
                h <= u32::MAX - 7,
                w <= u32::MAX,
                y <= h + 8,
                y >= h ==> text_rows(img, y as int) =~= Seq::<(u32, u32, u32, u32)>::empty(),
                start + likely_text_areas(img) == analysis.likely_text_areas@ + text_rows(img, y as int),
                analysis.dominant_colors == old(analysis).dominant_colors,
                analysis.color_distributions == old(analysis).color_distributions,
                analysis.sampled_pixels == old(analysis).sampled_pixels,
                analysis.high_contrast_areas == old(analysis).high_contrast_areas,
                analysis.menu_indicators == old(analysis).menu_indicators,
            decreases h + 8 - y,
        {
            let mut run_start: Option<u64> = None;
            let mut run_len: u64 = 0;
            let mut x: u64 = 1;
            while x < w
                invariant
                    img == *image,
                    w == img.spec_width(),
                    h == img.spec_height(),
                    h <= u32::MAX - 7,
                    w <= u32::MAX,
                    y < h,
                    1 <= x <= w || (x == 1 && w <= 1),
                    run_len < x,
                    run_start is None <==> run_len == 0,
                    run_start matches Some(s0) ==> s0 < x,
                    start + likely_text_areas(img) == analysis.likely_text_areas@
                        + (row_runs(img, y as int, x as int, match run_start { Some(s0) => s0 as int, None => 0 }, run_len as int)
                            + text_rows(img, y + 8)),
                    analysis.dominant_colors == old(analysis).dominant_colors,
                    analysis.color_distributions == old(analysis).color_distributions,
                    analysis.sampled_pixels == old(analysis).sampled_pixels,
                    analysis.high_contrast_areas == old(analysis).high_contrast_areas,
                    analysis.menu_indicators == old(analysis).menu_indicators,
                decreases w - x,
            {
                let ghost before = analysis.likely_text_areas@;
                let ghost st = match run_start { Some(s0) => s0 as int, None => 0 };
                let l1 = luma_at_exec(image, x, y) as i64;
                let l0 = luma_at_exec(image, x - 1, y) as i64;
                let d = l1 - l0;
                if d > 250_000 || -d > 250_000 {
                    if run_start.is_none() {
                        run_start = Some(x - 1);
                    }
                    run_len = run_len + 1;
                } else if run_len > 0 {
                    if run_len >= 30 {
                        let x0 = match run_start { Some(s0) => s0, None => 0 };
                        let y2 = if y + 8 < h { y + 8 } else { h };
                        analysis.likely_text_areas.push((x0 as u32, y as u32, x as u32, y2 as u32));
                        proof {
                            assert(analysis.likely_text_areas@ + (row_runs(img, y as int, x + 1, 0, 0) + text_rows(img, y + 8))
                                =~= before + (row_runs(img, y as int, x as int, st, run_len as int) + text_rows(img, y + 8)));
                        }
                    }
                    run_start = None;
                    run_len = 0;
                }
                x = x + 1;
            }
            proof {
                let st = match run_start { Some(s0) => s0 as int, None => 0 };
                assert(row_runs(img, y as int, x as int, st, run_len as int) =~= Seq::<(u32, u32, u32, u32)>::empty());
                assert(analysis.likely_text_areas@ + (row_runs(img, y as int, x as int, st, run_len as int) + text_rows(img, y + 8))
                    =~= analysis.likely_text_areas@ + text_rows(img, y + 8));
            }
            y = y + 8;
        }
        proof {
            assert(analysis.likely_text_areas@ =~= start + likely_text_areas(img));
        }
    }

    /// Records "cursor" for every cursor-like pixel on the grid of step 8,
    /// then "button" when at least two button-like squares show.
    pub fn detect_menu_indicators(&self, image: &RgbBuffer, analysis: &mut ColorAnalysis)
        requires
            image.spec_height() > 0 ==> image.spec_width() <= u32::MAX - 15,
            image.spec_width() > 0 ==> image.spec_height() <= u32::MAX - 15,
        ensures
            final(analysis).menu_indicators@.len() == old(analysis).menu_indicators@.len() + cursor_count(*image)
                + (if button_count(*image) >= 2 { 1int } else { 0int }),
            forall|i: int| 0 <= i < old(analysis).menu_indicators@.len()
                ==> #[trigger] final(analysis).menu_indicators@[i] == old(analysis).menu_indicators@[i],
            forall|i: int| old(analysis).menu_indicators@.len() <= i < old(analysis).menu_indicators@.len() + cursor_count(*image)
                ==> #[trigger] final(analysis).menu_indicators@[i]@ == "cursor"@,
            button_count(*image) >= 2 ==> final(analysis).menu_indicators@.last()@ == "button"@,
            final(analysis).dominant_colors == old(analysis).dominant_colors,
            final(analysis).color_distributions == old(analysis).color_distributions,
            final(analysis).sampled_pixels == old(analysis).sampled_pixels,
            final(analysis).high_contrast_areas == old(analysis).high_contrast_areas,
            final(analysis).likely_text_areas == old(analysis).likely_text_areas,
    {
        proof { crate::raster::lemma_dims_bounded(*image); }
        let f = |x: u64, y: u64| -> (b: bool)
            requires (x as int) < image.spec_width(), (y as int) < image.spec_height(),
            ensures b == cursor_pattern_at(*image, x as int, y as int),
        {
            self.is_cursor_pattern(image, x as u32, y as u32)
        };
        let w = image.width() as u64;
        let h = image.height() as u64;
        let n = count_grid(0, h, 8, 0, w, 8, &f, Ghost(cursor_pred(*image)));
        let ghost base = analysis.menu_indicators@;
        let mut i: u64 = 0;
        while i < n
            invariant
                i <= n,
                n == cursor_count(*image),
                analysis.menu_indicators@.len() == base.len() + i,
                forall|j: int| 0 <= j < base.len() ==> #[trigger] analysis.menu_indicators@[j] == base[j],
                forall|j: int| base.len() <= j < base.len() + i ==> #[trigger] analysis.menu_indicators@[j]@ == "cursor"@,
                analysis.dominant_colors == old(analysis).dominant_colors,
                analysis.color_distributions == old(analysis).color_distributions,
                analysis.sampled_pixels == old(analysis).sampled_pixels,
                analysis.high_contrast_areas == old(analysis).high_contrast_areas,
                analysis.likely_text_areas == old(analysis).likely_text_areas,
            decreases n - i,
        {
            analysis.menu_indicators.push("cursor".to_owned());
            i = i + 1;
        }
        if self.has_button_patterns(image) {
            analysis.menu_indicators.push("button".to_owned());
        }
    }

    /// The colour statistics of a frame.
    pub fn analyze_colors(&self, image: &RgbBuffer) -> (r: ColorAnalysis)
        requires
            image.spec_width() <= u32::MAX - 15,
            image.spec_height() <= u32::MAX - 15,
        ensures
            exists|s: Seq<((u8, u8, u8), u64)>| {
                &&& is_color_ranking(*image, s)
                &&& r.dominant_colors@ == first_n(s, 5).map_values(|e: ((u8, u8, u8), u64)| e.0)
                &&& r.color_distributions@ == first_n(s, 32)
            },
            r.sampled_pixels == sample_total(*image),
            r.high_contrast_areas@ == high_contrast_areas(*image),
            r.likely_text_areas@ == likely_text_areas(*image),
            r.menu_indicators@.len() == cursor_count(*image) + (if button_count(*image) >= 2 { 1int } else { 0int }),
            forall|i: int| 0 <= i < cursor_count(*image) ==> #[trigger] r.menu_indicators@[i]@ == "cursor"@,
            button_count(*image) >= 2 ==> r.menu_indicators@.last()@ == "button"@,
    {
        let mut analysis = ColorAnalysis::new();
        self.find_dominant_colors(image, &mut analysis);
        self.find_high_contrast_areas(image, &mut analysis);
        self.find_likely_text_areas(image, &mut analysis);
        self.detect_menu_indicators(image, &mut analysis);
        proof {
            assert(analysis.high_contrast_areas@ =~= high_contrast_areas(*image));
            assert(analysis.likely_text_areas@ =~= likely_text_areas(*image));
        }
        analysis
    }

    /// Whether at least two button-like squares sit on the grid of step 16.
    pub fn has_button_patterns(&self, image: &RgbBuffer) -> (r: bool)
        requires
            image.spec_height() > 0 ==> image.spec_width() <= u32::MAX - 15,
            image.spec_width() > 0 ==> image.spec_height() <= u32::MAX - 15,
        ensures r == (button_count(*image) >= 2),
    {
        proof { crate::raster::lemma_dims_bounded(*image); }
        let f = |x: u64, y: u64| -> (b: bool)
            requires x + 16 <= u32::MAX, y + 16 <= u32::MAX,
            ensures b == button_pattern_at(*image, x as int, y as int),
        {
            self.is_button_pattern(image, x as u32, y as u32)
        };
        let w = image.width() as u64;
        let h = image.height() as u64;
        let n = count_grid(0, h, 16, 0, w, 16, &f, Ghost(button_pred(*image)));
        n >= 2
    }
}

} // verus!
