//! Detectors for the menu cursor, the bag menu, the flash of a wild
//! encounter and the sparkles of a shiny Pokémon, on dual-screen captures.
//! Ratios and confidences are in thousandths.

use vstd::prelude::*;
use crate::raster::{RgbBuffer, px, pixel_at, brightness};
use crate::region::ImageRegion;
use crate::sampling::{tally, tally2, row_of, count_grid, sum_over};
use crate::analyzers::ratio_pm;
use crate::color_analysis::{luma_at, luma_e4};
use crate::text::{decimal, with_count, fixed2_text, fixed2_string};
use vstd::string::StringExecFns;
use crate::detection::{DetectionContext, DetectionResult, DetectionSignal, DetectionSignalType, DetectionMetadata,
    plain_signal, has_signal_type, instant_now};

verus! {

/// `num / den` exceeds `threshold_pm` thousandths; a positive numerator
/// over an empty denominator exceeds every threshold.
pub open spec fn exceeds_pm(num: int, den: int, threshold_pm: int) -> bool {
    if den == 0 { num > 0 } else { 1000 * num > threshold_pm * den }
}

fn exceeds_pm_exec(num: u64, den: u64, threshold_pm: u64) -> (r: bool)
    ensures r == exceeds_pm(num as int, den as int, threshold_pm as int),
{
    proof {
        assert((threshold_pm as int) * (den as int) <= 0xffff_ffff_ffff_ffff * 0xffff_ffff_ffff_ffff) by (nonlinear_arith)
            requires threshold_pm <= 0xffff_ffff_ffff_ffff, den <= 0xffff_ffff_ffff_ffff;
    }
    if den == 0 { num > 0 } else { (num as u128) * 1000 > (threshold_pm as u128) * (den as u128) }
}

/// The upper of the two stacked screens.
pub open spec fn top_screen_of(img: RgbBuffer) -> ImageRegion {
    ImageRegion { x: 0, y: 0, width: img.spec_width() as u32, height: (img.spec_height() / 2) as u32 }
}

// ---------------------------------------------------------------- menu cursor

/// Looks for the dark pixels of the menu cursor on the lower screen.
#[derive(Clone, Copy, Debug, PartialEq, Eq, Structural)]
pub struct MenuCursorDetector {
    /// Brightness below which a pixel may belong to the cursor.
    pub cursor_color_threshold: u8,
    /// Cursor pixels needed, exclusive.
    pub min_pixel_count: u32,
}

pub open spec fn dark_at(img: RgbBuffer, t: u8, x: int, y: int) -> bool {
    match px(img, x, y) {
        Some(p) => brightness(p) < t,
        None => false,
    }
}

pub open spec fn dark_pred(img: RgbBuffer, t: u8) -> spec_fn(int, int) -> bool {
    |x: int, y: int| dark_at(img, t, x, y)
}

pub open spec fn screen_mid(img: RgbBuffer) -> int {
    img.spec_height() as int / 2
}

pub open spec fn screen_end(img: RgbBuffer) -> int {
    img.spec_height() as int / 2 + img.spec_height() as int / 2
}

/// Cursor-dark pixels of the lower screen.
pub open spec fn dark_count(img: RgbBuffer, t: u8) -> nat {
    tally2(screen_mid(img), screen_end(img), 1, 0, img.spec_width() as int, 1, dark_pred(img, t))
}

pub open spec fn dark_x_row(img: RgbBuffer, t: u8, y: int) -> spec_fn(int) -> int {
    |x: int| if dark_at(img, t, x, y) { x } else { 0 }
}

pub open spec fn dark_y_row(img: RgbBuffer, t: u8, y: int) -> spec_fn(int) -> int {
    |x: int| if dark_at(img, t, x, y) { y } else { 0 }
}

/// Sum of the columns of the cursor-dark pixels of the lower screen.
pub open spec fn dark_sum_x(img: RgbBuffer, t: u8) -> int {
    sum_over(screen_mid(img), screen_end(img), 1, |y: int| sum_over(0, img.spec_width() as int, 1, dark_x_row(img, t, y)))
}

/// Sum of the rows of the cursor-dark pixels of the lower screen.
pub open spec fn dark_sum_y(img: RgbBuffer, t: u8) -> int {
    sum_over(screen_mid(img), screen_end(img), 1, |y: int| sum_over(0, img.spec_width() as int, 1, dark_y_row(img, t, y)))
}

/// A cursor signal at the mean position of the dark pixels when there are
/// more than the minimum.
pub open spec fn cursor_signals(d: MenuCursorDetector, img: RgbBuffer) -> Seq<DetectionSignal> {
    let n = dark_count(img, d.cursor_color_threshold);
    if n > d.min_pixel_count {
        let cx = (dark_sum_x(img, d.cursor_color_threshold) / n as int) as u32;
        let cy = (dark_sum_y(img, d.cursor_color_threshold) / n as int) as u32;
        seq![DetectionSignal {
            signal_type: DetectionSignalType::MenuCursor,
            confidence: 900,
            location: Some(ImageRegion { x: cx, y: cy, width: 1, height: 1 }),
            metadata: DetectionMetadata::Position(cx, cy),
        }]
    } else {
        Seq::empty()
    }
}

pub open spec fn cursor_confidence(d: MenuCursorDetector, img: RgbBuffer) -> u64 {
    if cursor_signals(d, img).len() > 0 { 900 } else { 0 }
}

impl MenuCursorDetector {
    /// Pixels darker than 50, more than 10 of them.
    pub fn new() -> (r: MenuCursorDetector)
        ensures r == (MenuCursorDetector { cursor_color_threshold: 50, min_pixel_count: 10 }),
    {
        MenuCursorDetector { cursor_color_threshold: 50, min_pixel_count: 10 }
    }

    /// Whether a pixel is dark enough to belong to the cursor.
    pub fn is_cursor_pixel(&self, r: u8, g: u8, b: u8) -> (res: bool)
        ensures res == (brightness((r, g, b)) < self.cursor_color_threshold),
    {
        let v: u16 = (r as u16 + g as u16 + b as u16) / 3;
        v < self.cursor_color_threshold as u16
    }

    /// Count and coordinate sums of the cursor-dark pixels of the lower
    /// screen.
    fn dark_pixels(&self, img: &RgbBuffer) -> (r: (u64, u128, u128))
        ensures
            r.0 == dark_count(*img, self.cursor_color_threshold),
            r.1 == dark_sum_x(*img, self.cursor_color_threshold),
            r.2 == dark_sum_y(*img, self.cursor_color_threshold),
    {
        let ghost im = *img;
        let ghost t = self.cursor_color_threshold;
        proof { crate::raster::lemma_dims_bounded(im); }
        let w = img.width() as u64;
        let h = img.height() as u64;
        let y0 = h / 2;
        let y1 = h / 2 + h / 2;
        let ghost p = dark_pred(im, t);
        let ghost fx = |y: int| sum_over(0, w as int, 1, dark_x_row(im, t, y));
        let ghost fy = |y: int| sum_over(0, w as int, 1, dark_y_row(im, t, y));
        let mut n: u64 = 0;
        let mut sx: u128 = 0;
        let mut sy: u128 = 0;
        let mut y: u64 = y0;
        proof {
            crate::sampling::lemma_tally2_bound(y0 as int, y1 as int, 1, 0, w as int, 1, p);
            assert((y1 - y0) * w <= 0xffff_ffff * 0xffff_ffff) by (nonlinear_arith) requires y1 - y0 <= 0xffff_ffff, w <= 0xffff_ffff;
        }
        while y < y1
            invariant
                im == *img,
                t == self.cursor_color_threshold,
                w == im.spec_width(),
                h == im.spec_height(),
                w <= u32::MAX,
                h <= u32::MAX,
                y0 == screen_mid(im),
                y1 == screen_end(im),
                y0 <= y <= y1,
                p == dark_pred(im, t),
                fx == (|y: int| sum_over(0, w as int, 1, dark_x_row(im, t, y))),
                fy == (|y: int| sum_over(0, w as int, 1, dark_y_row(im, t, y))),
                n + tally2(y as int, y1 as int, 1, 0, w as int, 1, p) == dark_count(im, t),
                dark_count(im, t) <= 0xffff_fffe_0000_0001,
                sx + sum_over(y as int, y1 as int, 1, fx) == dark_sum_x(im, t),
                sy + sum_over(y as int, y1 as int, 1, fy) == dark_sum_y(im, t),
                sx <= n * 0xffff_ffff,
                sy <= n * 0xffff_ffff,
            decreases y1 - y,
        {
            let mut x: u64 = 0;
            while x < w
                invariant
                    im == *img,
                    t == self.cursor_color_threshold,
                    w == im.spec_width(),
                    h == im.spec_height(),
                    w <= u32::MAX,
                    h <= u32::MAX,
                    y1 == screen_end(im),
                    y0 <= y < y1,
                    x <= w,
                    p == dark_pred(im, t),
                    fx == (|y: int| sum_over(0, w as int, 1, dark_x_row(im, t, y))),
                    fy == (|y: int| sum_over(0, w as int, 1, dark_y_row(im, t, y))),
                    n + tally(x as int, w as int, 1, row_of(p, y as int)) + tally2(y + 1, y1 as int, 1, 0, w as int, 1, p)
                        == dark_count(im, t),
                    dark_count(im, t) <= 0xffff_fffe_0000_0001,
                    sx + sum_over(x as int, w as int, 1, dark_x_row(im, t, y as int)) + sum_over(y + 1, y1 as int, 1, fx) == dark_sum_x(im, t),
                    sy + sum_over(x as int, w as int, 1, dark_y_row(im, t, y as int)) + sum_over(y + 1, y1 as int, 1, fy) == dark_sum_y(im, t),
                    sx <= n * 0xffff_ffff,
                    sy <= n * 0xffff_ffff,
                decreases w - x,
            {
                let hit = match pixel_at(img, x, y) {
                    Some(c) => self.is_cursor_pixel(c.0, c.1, c.2),
                    None => false,
                };
                proof {
                    assert(hit == dark_at(im, t, x as int, y as int));
                    assert(row_of(p, y as int)(x as int) == hit);
                    assert(dark_x_row(im, t, y as int)(x as int) == (if hit { x as int } else { 0 }));
                    assert(dark_y_row(im, t, y as int)(x as int) == (if hit { y as int } else { 0 }));
                    crate::sampling::lemma_tally_bound(x + 1, w as int, 1, row_of(p, y as int));
                }
                if hit {
                    n = n + 1;
                    sx = sx + x as u128;
                    sy = sy + y as u128;
                }
                x = x + 1;
            }
            proof {
                assert(tally(x as int, w as int, 1, row_of(p, y as int)) == 0);
                assert(sum_over(x as int, w as int, 1, dark_x_row(im, t, y as int)) == 0);
                assert(sum_over(x as int, w as int, 1, dark_y_row(im, t, y as int)) == 0);
                assert(fx(y as int) == sum_over(0, w as int, 1, dark_x_row(im, t, y as int)));
                assert(fy(y as int) == sum_over(0, w as int, 1, dark_y_row(im, t, y as int)));
            }
            y = y + 1;
        }
        proof {
            assert(tally2(y as int, y1 as int, 1, 0, w as int, 1, p) == 0);
        }
        (n, sx, sy)
    }

    /// A cursor signal at the mean position of the dark pixels of the lower
    /// screen, when there are more than the minimum.
    pub fn detect(&self, context: &DetectionContext) -> (r: DetectionResult<Vec<DetectionSignal>>)
        ensures
            r.result@ == cursor_signals(*self, *context.rgb),
            r.confidence == cursor_confidence(*self, *context.rgb),
            r.reasoning@ == "Menu cursor detection found "@ + decimal(dark_count(*context.rgb, self.cursor_color_threshold)) + " pixels."@,
    {
        let start_time = instant_now();
        let (n, sx, sy) = self.dark_pixels(context.rgb);
        let mut signals: Vec<DetectionSignal> = Vec::new();
        if n > self.min_pixel_count as u64 {
            let cx = (sx / n as u128) as u32;
            let cy = (sy / n as u128) as u32;
            signals.push(DetectionSignal {
                signal_type: DetectionSignalType::MenuCursor,
                confidence: 900,
                location: Some(ImageRegion::new(cx, cy, 1, 1)),
                metadata: DetectionMetadata::Position(cx, cy),
            });
        }
        proof { assert(signals@ =~= cursor_signals(*self, *context.rgb)); }
        let confidence: u64 = if signals.len() == 0 { 0 } else { 900 };
        let reasoning = with_count("Menu cursor detection found ", n, " pixels.");
        DetectionResult::new(signals, confidence, reasoning).with_timing(&start_time)
    }

    pub fn priority(&self) -> (r: u8)
        ensures r == 90,
    {
        90
    }

    pub fn name(&self) -> (r: &'static str)
        ensures r@ == "MenuCursorDetector"@,
    {
        proof { reveal_strlit("MenuCursorDetector"); }
        "MenuCursorDetector"
    }

    /// Runs only once a battle menu or the main menu has been seen.
    pub fn can_process(&self, context: &DetectionContext) -> (r: bool)
        ensures r == (has_signal_type(context.previous_signals@, DetectionSignalType::BattleMenu)
            || has_signal_type(context.previous_signals@, DetectionSignalType::MainMenu)),
    {
        context.has_signal(DetectionSignalType::BattleMenu) || context.has_signal(DetectionSignalType::MainMenu)
    }
}

impl Default for MenuCursorDetector {
    fn default() -> (r: Self)
        ensures r == (MenuCursorDetector { cursor_color_threshold: 50, min_pixel_count: 10 }),
    {
        Self::new()
    }
}

// ---------------------------------------------------------------- bag menu

/// Looks for the brown and orange of the bag menu on the upper screen.
#[derive(Clone, Copy, Debug, PartialEq, Eq, Structural)]
pub struct BagMenuDetector {
    /// How much red must exceed green.
    pub color_threshold: u8,
    /// Share of the upper screen's samples that must have the bag colour,
    /// in thousandths, exclusive.
    pub area_threshold_pm: u64,
}

/// Brownish (red above 150, green between 80 and 150, blue below 100), red
/// above green by more than `t` and green above blue by more than 20.
pub open spec fn bag_color(t: u8, p: (u8, u8, u8)) -> bool {
    &&& p.0 > 150 && p.1 > 80 && p.1 < 150 && p.2 < 100
    &&& (if p.0 > p.1 { p.0 - p.1 } else { 0 }) > t
    &&& (if p.1 > p.2 { p.1 - p.2 } else { 0 }) > 20
}

pub open spec fn bag_pred(img: RgbBuffer, t: u8) -> spec_fn(int, int) -> bool {
    |x: int, y: int| match px(img, x, y) {
        Some(p) => bag_color(t, p),
        None => false,
    }
}

/// Bag-coloured samples of the upper screen, grid of step 4.
pub open spec fn bag_count(img: RgbBuffer, t: u8) -> nat {
    tally2(0, img.spec_height() as int / 2, 4, 0, img.spec_width() as int, 4, bag_pred(img, t))
}

/// Sixteenth of the upper screen's area: the expected number of samples.
pub open spec fn top_samples(img: RgbBuffer) -> int {
    (img.spec_width() as int * (img.spec_height() as int / 2)) / 16
}

pub open spec fn bag_ratio(d: BagMenuDetector, img: RgbBuffer) -> u64 {
    ratio_pm(bag_count(img, d.color_threshold) as int, top_samples(img))
}

/// A bag menu signal over the upper screen, its confidence the share of
/// bag colour capped at 1, when that share exceeds the threshold.
pub open spec fn bag_signals(d: BagMenuDetector, img: RgbBuffer) -> Seq<DetectionSignal> {
    if exceeds_pm(bag_count(img, d.color_threshold) as int, top_samples(img), d.area_threshold_pm as int) {
        let r = bag_ratio(d, img);
        seq![plain_signal(DetectionSignalType::BagMenu, if r > 1000 { 1000 } else { r }, Some(top_screen_of(img)))]
    } else {
        Seq::empty()
    }
}

pub open spec fn bag_confidence(d: BagMenuDetector, img: RgbBuffer) -> u64 {
    if bag_signals(d, img).len() > 0 { bag_ratio(d, img) } else { 0 }
}

fn sixteenth_of_area(w: u64, h: u64) -> (r: u64)
    requires w <= u32::MAX, h <= u32::MAX,
    ensures r == (w * h) / 16,
{
    proof {
        assert(w * h <= 0xffff_fffe_0000_0001) by (nonlinear_arith) requires w <= 0xffff_ffff, h <= 0xffff_ffff;
    }
    (w * h) / 16
}

impl BagMenuDetector {
    /// Red above green by more than 40; half of the upper screen.
    pub fn new() -> (r: BagMenuDetector)
        ensures r == (BagMenuDetector { color_threshold: 40, area_threshold_pm: 500 }),
    {
        BagMenuDetector { color_threshold: 40, area_threshold_pm: 500 }
    }

    /// Whether a pixel has the bag's colour.
    pub fn is_bag_color(&self, r: u8, g: u8, b: u8) -> (res: bool)
        ensures res == bag_color(self.color_threshold, (r, g, b)),
    {
        let is_brownish = r > 150 && g > 80 && g < 150 && b < 100;
        let r_g_diff = r.saturating_sub(g);
        let g_b_diff = g.saturating_sub(b);
        is_brownish && r_g_diff > self.color_threshold && g_b_diff > 20
    }

    /// A bag menu signal when enough of the upper screen has the bag's
    /// colour; the confidence is that share either way it signals.
    pub fn detect(&self, context: &DetectionContext) -> (r: DetectionResult<Vec<DetectionSignal>>)
        ensures
            r.result@ == bag_signals(*self, *context.rgb),
            r.confidence == bag_confidence(*self, *context.rgb),
            r.reasoning@ == "Bag Menu detection with "@
                + fixed2_text(100 * bag_count(*context.rgb, self.color_threshold), top_samples(*context.rgb) as nat) + "% area coverage"@,
    {
        let start_time = instant_now();
        let img = context.rgb;
        proof { crate::raster::lemma_dims_bounded(*img); }
        let w = img.width() as u64;
        let h = img.height() as u64;
        let f = |x: u64, y: u64| -> (b: bool)
            ensures b == bag_pred(*img, self.color_threshold)(x as int, y as int),
        {
            match pixel_at(img, x, y) {
                Some(c) => self.is_bag_color(c.0, c.1, c.2),
                None => false,
            }
        };
        let n = count_grid(0, h / 2, 4, 0, w, 4, &f, Ghost(bag_pred(*img, self.color_threshold)));
        let den = sixteenth_of_area(w, h / 2);
        let ratio = crate::analyzers::permille(n, den);
        let mut signals: Vec<DetectionSignal> = Vec::new();
        if exceeds_pm_exec(n, den, self.area_threshold_pm) {
            let region = ImageRegion::top_screen(img.width(), img.height());
            signals.push(DetectionSignal {
                signal_type: DetectionSignalType::BagMenu,
                confidence: if ratio > 1000 { 1000 } else { ratio },
                location: Some(region),
                metadata: DetectionMetadata::Empty,
            });
        }
        proof { assert(signals@ =~= bag_signals(*self, *context.rgb)); }
        let confidence: u64 = if signals.len() == 0 { 0 } else { ratio };
        let mut reasoning = "Bag Menu detection with ".to_owned();
        reasoning.append(fixed2_string(n, 100, den).as_str());
        reasoning.append("% area coverage");
        DetectionResult::new(signals, confidence, reasoning).with_timing(&start_time)
    }

    pub fn priority(&self) -> (r: u8)
        ensures r == 85,
    {
        85
    }

    pub fn name(&self) -> (r: &'static str)
        ensures r@ == "BagMenuDetector"@,
    {
        proof { reveal_strlit("BagMenuDetector"); }
        "BagMenuDetector"
    }

    /// Does not run during a battle.
    pub fn can_process(&self, context: &DetectionContext) -> (r: bool)
        ensures r == !has_signal_type(context.previous_signals@, DetectionSignalType::HPBar),
    {
        !context.has_signal(DetectionSignalType::HPBar)
    }
}

impl Default for BagMenuDetector {
    fn default() -> (r: Self)
        ensures r == (BagMenuDetector { color_threshold: 40, area_threshold_pm: 500 }),
    {
        Self::new()
    }
}

// ---------------------------------------------------------------- encounter flash

/// Looks for the near-white or near-black flash of a wild encounter.
#[derive(Clone, Copy, Debug, PartialEq, Eq, Structural)]
pub struct PokemonDetector {
    /// Share of flashing samples needed, in thousandths, exclusive.
    pub screen_change_threshold_pm: u64,
}

/// Brightness above 230 or below 25.
pub open spec fn flash_pred(img: RgbBuffer) -> spec_fn(int, int) -> bool {
    |x: int, y: int| match px(img, x, y) {
        Some(p) => brightness(p) > 230 || brightness(p) < 25,
        None => false,
    }
}

/// Flashing samples of the frame, grid of step 4.
pub open spec fn flash_count(img: RgbBuffer) -> nat {
    tally2(0, img.spec_height() as int, 4, 0, img.spec_width() as int, 4, flash_pred(img))
}

pub open spec fn frame_samples(img: RgbBuffer) -> int {
    (img.spec_width() as int * img.spec_height() as int) / 16
}

/// Whether the frame flashes, and the share of flashing samples.
pub open spec fn encounter_flash(d: PokemonDetector, img: RgbBuffer) -> (bool, u64) {
    (
        exceeds_pm(flash_count(img) as int, frame_samples(img), d.screen_change_threshold_pm as int),
        ratio_pm(flash_count(img) as int, frame_samples(img)),
    )
}

pub open spec fn encounter_signals(d: PokemonDetector, img: RgbBuffer) -> Seq<DetectionSignal> {
    let f = encounter_flash(d, img);
    if f.0 { seq![plain_signal(DetectionSignalType::WildPokemonEncounter, f.1, None)] } else { Seq::empty() }
}

pub open spec fn encounter_confidence(d: PokemonDetector, img: RgbBuffer) -> u64 {
    if encounter_flash(d, img).0 { encounter_flash(d, img).1 } else { 0 }
}

impl PokemonDetector {
    /// Three quarters of the samples must flash.
    pub fn new() -> (r: PokemonDetector)
        ensures r == (PokemonDetector { screen_change_threshold_pm: 750 }),
    {
        PokemonDetector { screen_change_threshold_pm: 750 }
    }

    /// Flashing samples of the frame and a sixteenth of its area.
    fn flash_counts(&self, rgb: &RgbBuffer) -> (r: (u64, u64))
        ensures
            r.0 == flash_count(*rgb),
            r.1 == frame_samples(*rgb),
    {
        proof { crate::raster::lemma_dims_bounded(*rgb); }
        let w = rgb.width() as u64;
        let h = rgb.height() as u64;
        let f = |x: u64, y: u64| -> (b: bool)
            ensures b == flash_pred(*rgb)(x as int, y as int),
        {
            match pixel_at(rgb, x, y) {
                Some(c) => {
                    let v: u16 = (c.0 as u16 + c.1 as u16 + c.2 as u16) / 3;
                    v > 230 || v < 25
                },
                None => false,
            }
        };
        let n = count_grid(0, h, 4, 0, w, 4, &f, Ghost(flash_pred(*rgb)));
        (n, sixteenth_of_area(w, h))
    }

    /// Whether the frame shows an encounter flash, and the share of
    /// flashing samples.
    pub fn detect_encounter_flash(&self, rgb: &RgbBuffer) -> (r: (bool, u64))
        ensures r == encounter_flash(*self, *rgb),
    {
        let (n, den) = self.flash_counts(rgb);
        (exceeds_pm_exec(n, den, self.screen_change_threshold_pm), crate::analyzers::permille(n, den))
    }

    /// An encounter signal, with the flashing share as confidence, when the
    /// frame flashes.
    pub fn detect(&self, context: &DetectionContext) -> (r: DetectionResult<Vec<DetectionSignal>>)
        ensures
            r.result@ == encounter_signals(*self, *context.rgb),
            r.confidence == encounter_confidence(*self, *context.rgb),
            r.reasoning@ == "Pokemon encounter detection. Flash confidence: "@
                + fixed2_text(flash_count(*context.rgb), frame_samples(*context.rgb) as nat),
    {
        let start_time = instant_now();
        let (n, den) = self.flash_counts(context.rgb);
        let is_flash = exceeds_pm_exec(n, den, self.screen_change_threshold_pm);
        let confidence = crate::analyzers::permille(n, den);
        let mut signals: Vec<DetectionSignal> = Vec::new();
        if is_flash {
            signals.push(DetectionSignal {
                signal_type: DetectionSignalType::WildPokemonEncounter,
                confidence,
                location: None,
                metadata: DetectionMetadata::Empty,
            });
        }
        proof { assert(signals@ =~= encounter_signals(*self, *context.rgb)); }
        let result_confidence: u64 = if is_flash { confidence } else { 0 };
        let mut reasoning = "Pokemon encounter detection. Flash confidence: ".to_owned();
        reasoning.append(fixed2_string(n, 1, den).as_str());
        DetectionResult::new(signals, result_confidence, reasoning).with_timing(&start_time)
    }

    pub fn priority(&self) -> (r: u8)
        ensures r == 95,
    {
        95
    }

    pub fn name(&self) -> (r: &'static str)
        ensures r@ == "PokemonDetector"@,
    {
        proof { reveal_strlit("PokemonDetector"); }
        "PokemonDetector"
    }

    /// Does not run once a battle menu or an HP bar has been seen.
    pub fn can_process(&self, context: &DetectionContext) -> (r: bool)
        ensures r == (!has_signal_type(context.previous_signals@, DetectionSignalType::BattleMenu)
            && !has_signal_type(context.previous_signals@, DetectionSignalType::HPBar)),
    {
        !context.has_signal(DetectionSignalType::BattleMenu) && !context.has_signal(DetectionSignalType::HPBar)
    }
}

impl Default for PokemonDetector {
    fn default() -> (r: Self)
        ensures r == (PokemonDetector { screen_change_threshold_pm: 750 }),
    {
        Self::new()
    }
}

// ---------------------------------------------------------------- shiny sparkles

/// Looks for sparkles around the opponent on the upper screen.
#[derive(Clone, Copy, Debug, PartialEq, Eq, Structural)]
pub struct ShinyDetector {
    /// How many times brighter than its neighbours a sparkle is, in
    /// thousandths, exclusive.
    pub sparkle_threshold_pm: u64,
    /// Sparkles needed, inclusive.
    pub min_sparkle_count: u32,
}

/// Luma of a neighbour and whether it lies inside the frame.
pub open spec fn nb(img: RgbBuffer, x: int, y: int) -> (int, int) {
    match px(img, x, y) {
        Some(p) => (luma_e4(p), 1),
        None => (0, 0),
    }
}

/// Luma sum and number of the in-frame neighbours of (x, y).
pub open spec fn neighbourhood(img: RgbBuffer, x: int, y: int) -> (int, int) {
    let a = nb(img, x - 1, y - 1);
    let b = nb(img, x, y - 1);
    let c = nb(img, x + 1, y - 1);
    let d = nb(img, x - 1, y);
    let e = nb(img, x + 1, y);
    let f = nb(img, x - 1, y + 1);
    let g = nb(img, x, y + 1);
    let h = nb(img, x + 1, y + 1);
    (a.0 + b.0 + c.0 + d.0 + e.0 + f.0 + g.0 + h.0, a.1 + b.1 + c.1 + d.1 + e.1 + f.1 + g.1 + h.1)
}

/// (x, y) is a pixel with luma of at least 30 that is more than the
/// threshold times as bright as the mean of its in-frame neighbours, whose
/// mean is positive.
pub open spec fn sparkle_at(img: RgbBuffer, threshold_pm: u64, x: int, y: int) -> bool {
    let n = neighbourhood(img, x, y);
    &&& img.in_bounds(x, y)
    &&& luma_at(img, x, y) >= 300_000
    &&& n.1 > 0
    &&& n.0 > 0
    &&& 1000 * luma_at(img, x, y) * n.1 > threshold_pm * n.0
}

pub open spec fn sparkle_pred(img: RgbBuffer, threshold_pm: u64) -> spec_fn(int, int) -> bool {
    |x: int, y: int| sparkle_at(img, threshold_pm, x, y)
}

/// Sparkles of the upper screen, grid of step 2.
pub open spec fn sparkle_count(img: RgbBuffer, threshold_pm: u64) -> nat {
    tally2(0, img.spec_height() as int / 2, 2, 0, img.spec_width() as int, 2, sparkle_pred(img, threshold_pm))
}

pub open spec fn shiny_signals(d: ShinyDetector, img: RgbBuffer) -> Seq<DetectionSignal> {
    let n = sparkle_count(img, d.sparkle_threshold_pm);
    if n >= d.min_sparkle_count {
        seq![DetectionSignal {
            signal_type: DetectionSignalType::ShinyEffect,
            confidence: 950,
            location: Some(top_screen_of(img)),
            metadata: DetectionMetadata::Count(n as usize),
        }]
    } else {
        Seq::empty()
    }
}

pub open spec fn shiny_confidence(d: ShinyDetector, img: RgbBuffer) -> u64 {
    if sparkle_count(img, d.sparkle_threshold_pm) >= d.min_sparkle_count { 950 } else { 50 }
}

fn neighbour(img: &RgbBuffer, x: i64, y: i64) -> (r: (u64, u64))
    ensures
        r.0 == nb(*img, x as int, y as int).0,
        r.1 == nb(*img, x as int, y as int).1,
        r.0 <= 2_550_000,
        r.1 <= 1,
{
    if x < 0 || y < 0 {
        return (0, 0);
    }
    match pixel_at(img, x as u64, y as u64) {
        Some(p) => (crate::color_analysis::pixel_luma_e4(p) as u64, 1),
        None => (0, 0),
    }
}

impl ShinyDetector {
    /// Two and a half times brighter than the neighbours, ten sparkles.
    pub fn new() -> (r: ShinyDetector)
        ensures r == (ShinyDetector { sparkle_threshold_pm: 2500, min_sparkle_count: 10 }),
    {
        ShinyDetector { sparkle_threshold_pm: 2500, min_sparkle_count: 10 }
    }

    /// Whether (x, y) is a sparkle.
    pub fn is_sparkle(&self, rgb: &RgbBuffer, x: u32, y: u32) -> (r: bool)
        ensures r == sparkle_at(*rgb, self.sparkle_threshold_pm, x as int, y as int),
    {
        let l = match rgb.pixel_checked(x, y) {
            Some(p) => crate::color_analysis::pixel_luma_e4(p) as u64,
            None => { return false; },
        };
        if l < 300_000 {
            return false;
        }
        let x = x as i64;
        let y = y as i64;
        let a = neighbour(rgb, x - 1, y - 1);
        let b = neighbour(rgb, x, y - 1);
        let c = neighbour(rgb, x + 1, y - 1);
        let d = neighbour(rgb, x - 1, y);
        let e = neighbour(rgb, x + 1, y);
        let f = neighbour(rgb, x - 1, y + 1);
        let g = neighbour(rgb, x, y + 1);
        let h = neighbour(rgb, x + 1, y + 1);
        let sum: u64 = a.0 + b.0 + c.0 + d.0 + e.0 + f.0 + g.0 + h.0;
        let count: u64 = a.1 + b.1 + c.1 + d.1 + e.1 + f.1 + g.1 + h.1;
        if count == 0 || sum == 0 {
            return false;
        }
        proof {
            assert((l as int) * (count as int) <= 2_550_000 * 8) by (nonlinear_arith) requires l <= 2_550_000, count <= 8;
            assert((self.sparkle_threshold_pm as int) * (sum as int) <= 0xffff_ffff_ffff_ffff * 20_400_000) by (nonlinear_arith)
                requires self.sparkle_threshold_pm <= 0xffff_ffff_ffff_ffff, sum <= 20_400_000;
            assert(1000 * (l as int) * (count as int) == 1000 * ((l as int) * (count as int))) by (nonlinear_arith);
        }
        1000 * ((l as u128) * (count as u128)) > (self.sparkle_threshold_pm as u128) * (sum as u128)
    }

    /// A shiny signal over the upper screen when enough sparkles show.
    pub fn detect(&self, context: &DetectionContext) -> (r: DetectionResult<Vec<DetectionSignal>>)
        ensures
            r.result@ == shiny_signals(*self, *context.rgb),
            r.confidence == shiny_confidence(*self, *context.rgb),
            r.reasoning@ == "Shiny detection found "@ + decimal(sparkle_count(*context.rgb, self.sparkle_threshold_pm)) + " sparkles"@,
    {
        let start_time = instant_now();
        let img = context.rgb;
        proof { crate::raster::lemma_dims_bounded(*img); }
        let w = img.width() as u64;
        let h = img.height() as u64;
        let f = |x: u64, y: u64| -> (b: bool)
            requires x <= u32::MAX, y <= u32::MAX,
            ensures b == sparkle_pred(*img, self.sparkle_threshold_pm)(x as int, y as int),
        {
            self.is_sparkle(img, x as u32, y as u32)
        };
        let n = count_grid(0, h / 2, 2, 0, w, 2, &f, Ghost(sparkle_pred(*img, self.sparkle_threshold_pm)));
        let mut signals: Vec<DetectionSignal> = Vec::new();
        if n >= self.min_sparkle_count as u64 {
            signals.push(DetectionSignal {
                signal_type: DetectionSignalType::ShinyEffect,
                confidence: 950,
                location: Some(ImageRegion::top_screen(img.width(), img.height())),
                metadata: DetectionMetadata::Count(n as usize),
            });
        }
        proof { assert(signals@ =~= shiny_signals(*self, *context.rgb)); }
        let confidence: u64 = if signals.len() > 0 { 950 } else { 50 };
        let reasoning = with_count("Shiny detection found ", n, " sparkles");
        DetectionResult::new(signals, confidence, reasoning).with_timing(&start_time)
    }

    pub fn priority(&self) -> (r: u8)
        ensures r == 100,
    {
        100
    }

    pub fn name(&self) -> (r: &'static str)
        ensures r@ == "ShinyDetector"@,
    {
        proof { reveal_strlit("ShinyDetector"); }
        "ShinyDetector"
    }

    /// Runs only once an HP bar has been seen.
    pub fn can_process(&self, context: &DetectionContext) -> (r: bool)
        ensures r == has_signal_type(context.previous_signals@, DetectionSignalType::HPBar),
    {
        context.has_signal(DetectionSignalType::HPBar)
    }
}

impl Default for ShinyDetector {
    fn default() -> (r: Self)
        ensures r == (ShinyDetector { sparkle_threshold_pm: 2500, min_sparkle_count: 10 }),
    {
        Self::new()
    }
}

} // verus!
