//! Micro-detectors for single visual elements: HP bars, text, menus,
//! locations and the environment. Scores and confidences are in thousandths,
//! each ratio rounded down; a ratio over an empty denominator counts as
//! unbounded when its numerator is positive and as zero otherwise.

use vstd::prelude::*;
use crate::raster::{RgbBuffer, px, pixel_at, brightness};
use crate::region::ImageRegion;
use crate::sampling::{tally, tally2, row_of, count_grid};
use crate::text::{decimal, region_text, with_count, with_region};
use crate::detection::{DetectionContext, DetectionResult, DetectionSignal, DetectionSignalType, DetectionMetadata,
    plain_signal, has_signal_type, max_confidence, overall_confidence, instant_now};

verus! {

/// `num / den` in thousandths, rounded down and held below `u64::MAX`.
pub open spec fn ratio_pm(num: int, den: int) -> u64 {
    if den == 0 {
        if num > 0 { u64::MAX } else { 0 }
    } else if 1000 * num / den > u64::MAX {
        u64::MAX
    } else {
        (1000 * num / den) as u64
    }
}

pub fn permille(num: u64, den: u64) -> (r: u64)
    ensures r == ratio_pm(num as int, den as int),
{
    if den == 0 {
        if num > 0 { u64::MAX } else { 0 }
    } else {
        let q: u128 = (num as u128) * 1000 / (den as u128);
        if q > u64::MAX as u128 { u64::MAX } else { q as u64 }
    }
}

/// Mean of the channels of an optional pixel.
pub open spec fn bright(p: (u8, u8, u8)) -> int {
    brightness(p)
}

fn bright_exec(p: (u8, u8, u8)) -> (r: u16)
    ensures r == bright(p), r <= 255,
{
    (p.0 as u16 + p.1 as u16 + p.2 as u16) / 3
}

/// Width times height of a raster.
pub open spec fn pixel_total(img: RgbBuffer) -> int {
    img.spec_width() as int * img.spec_height() as int
}

fn dims(img: &RgbBuffer) -> (r: (u64, u64, u64))
    ensures
        r.0 == img.spec_width(),
        r.1 == img.spec_height(),
        r.2 == pixel_total(*img),
        r.0 <= u32::MAX,
        r.1 <= u32::MAX,
{
    let w = img.width() as u64;
    let h = img.height() as u64;
    proof {
        assert(w * h <= 0xffff_fffe_0000_0001) by (nonlinear_arith)
            requires w <= 0xffff_ffff, h <= 0xffff_ffff;
    }
    (w, h, w * h)
}

// ------------------------------------------------------------ environment

/// A grass-green pixel.
pub open spec fn grass_pixel(threshold: u8, p: Option<(u8, u8, u8)>) -> bool {
    match p {
        Some(c) => c.1 > threshold && c.1 > c.0 + 20 && c.1 > c.2 + 20,
        None => false,
    }
}

/// A water-blue pixel.
pub open spec fn water_pixel(threshold: u8, p: Option<(u8, u8, u8)>) -> bool {
    match p {
        Some(c) => c.2 > threshold && c.2 > c.0 + 30 && c.2 > c.1 + 15,
        None => false,
    }
}

/// Tall grass: more grass-green samples (every third pixel of the lower
/// half) than one per 2000 pixels of the frame.
pub open spec fn has_tall_grass(img: RgbBuffer, threshold: u8) -> bool {
    let w = img.spec_width() as int;
    let h = img.spec_height() as int;
    tally2(h / 2, h, 3, 0, w, 3, |x: int, y: int| grass_pixel(threshold, px(img, x, y))) > pixel_total(img) / 2000
}

/// Water: more water-blue samples (every third pixel) than one per 1500
/// pixels of the frame.
pub open spec fn has_water(img: RgbBuffer, threshold: u8) -> bool {
    let w = img.spec_width() as int;
    let h = img.spec_height() as int;
    tally2(0, h, 3, 0, w, 3, |x: int, y: int| water_pixel(threshold, px(img, x, y))) > pixel_total(img) / 1500
}

/// Detects tall grass and water.
#[derive(Clone, Copy, Debug, PartialEq, Eq, Structural)]
pub struct EnvironmentDetector {
    pub grass_threshold: u8,
    pub water_threshold: u8,
}

/// The signals of the environment detector: tall grass (700), then water
/// (800).
pub open spec fn environment_signals(d: EnvironmentDetector, img: RgbBuffer) -> Seq<DetectionSignal> {
    let g = if has_tall_grass(img, d.grass_threshold) { seq![plain_signal(DetectionSignalType::TallGrass, 700, None)] } else { Seq::empty() };
    let w = if has_water(img, d.water_threshold) { seq![plain_signal(DetectionSignalType::Water, 800, None)] } else { Seq::empty() };
    g + w
}

impl EnvironmentDetector {
    /// Grass above 100 green, water above 120 blue.
    pub fn new() -> (r: EnvironmentDetector)
        ensures r == (EnvironmentDetector { grass_threshold: 100, water_threshold: 120 }),
    {
        EnvironmentDetector { grass_threshold: 100, water_threshold: 120 }
    }

    pub fn detect_tall_grass(&self, rgb: &RgbBuffer) -> (r: bool)
        ensures r == has_tall_grass(*rgb, self.grass_threshold),
    {
        let (w, h, total) = dims(rgb);
        let t = self.grass_threshold;
        let f = |x: u64, y: u64| -> (b: bool)
            ensures b == grass_pixel(t, px(*rgb, x as int, y as int)),
        {
            match pixel_at(rgb, x, y) {
                Some(c) => c.1 > t && c.1 as u16 > c.0 as u16 + 20 && c.1 as u16 > c.2 as u16 + 20,
                None => false,
            }
        };
        let n = count_grid(h / 2, h, 3, 0, w, 3, &f, Ghost(|x: int, y: int| grass_pixel(t, px(*rgb, x, y))));
        n > total / 2000
    }

    pub fn detect_water(&self, rgb: &RgbBuffer) -> (r: bool)
        ensures r == has_water(*rgb, self.water_threshold),
    {
        let (w, h, total) = dims(rgb);
        let t = self.water_threshold;
        let f = |x: u64, y: u64| -> (b: bool)
            ensures b == water_pixel(t, px(*rgb, x as int, y as int)),
        {
            match pixel_at(rgb, x, y) {
                Some(c) => c.2 > t && c.2 as u16 > c.0 as u16 + 30 && c.2 as u16 > c.1 as u16 + 15,
                None => false,
            }
        };
        let n = count_grid(0, h, 3, 0, w, 3, &f, Ghost(|x: int, y: int| water_pixel(t, px(*rgb, x, y))));
        n > total / 1500
    }

    /// Tall grass and water signals, with the larger confidence.
    pub fn detect(&self, context: &DetectionContext) -> (r: DetectionResult<Vec<DetectionSignal>>)
        ensures
            r.result@ == environment_signals(*self, *context.rgb),
            r.confidence == max_confidence(r.result@),
            r.reasoning@ == "Environment detection found "@ + decimal(r.result@.len()) + " signals"@,
    {
        let start_time = instant_now();
        let mut signals: Vec<DetectionSignal> = Vec::new();
        if self.detect_tall_grass(context.rgb) {
            signals.push(DetectionSignal { signal_type: DetectionSignalType::TallGrass, confidence: 700, location: None, metadata: DetectionMetadata::Empty });
        }
        if self.detect_water(context.rgb) {
            signals.push(DetectionSignal { signal_type: DetectionSignalType::Water, confidence: 800, location: None, metadata: DetectionMetadata::Empty });
        }
        proof { assert(signals@ =~= environment_signals(*self, *context.rgb)); }
        let confidence = overall_confidence(&signals);
        let reasoning = with_count("Environment detection found ", signals.len() as u64, " signals");
        DetectionResult::new(signals, confidence, reasoning).with_timing(&start_time)
    }

    pub fn priority(&self) -> (r: u8)
        ensures r == 40,
    {
        40
    }

    pub fn name(&self) -> (r: &'static str)
        ensures r@ == "EnvironmentDetector"@,
    {
        proof { reveal_strlit("EnvironmentDetector"); }
        "EnvironmentDetector"
    }

    pub fn can_process(&self, _context: &DetectionContext) -> (r: bool)
        ensures r,
    {
        true
    }
}

/// The detectors as `new` makes them.
pub open spec fn default_hp_bar() -> HPBarDetector {
    HPBarDetector { green_threshold: 150, red_threshold: 150, min_bar_length: 16 }
}

pub open spec fn default_menu() -> MenuDetector {
    MenuDetector { min_menu_boxes: 2, box_size_threshold: 16 }
}

pub open spec fn default_text() -> TextDetector {
    TextDetector { contrast_threshold: 100, min_text_density: 150 }
}

pub open spec fn default_environment() -> EnvironmentDetector {
    EnvironmentDetector { grass_threshold: 100, water_threshold: 120 }
}

// ---------------------------------------------------------------- location

/// A pink pixel of a healing machine.
pub open spec fn center_pixel(p: Option<(u8, u8, u8)>) -> bool {
    match p {
        Some(c) => c.0 > 180 && c.1 < 150 && c.2 > 100 && c.0 > c.2,
        None => false,
    }
}

/// A dark pixel of a cave.
pub open spec fn cave_pixel(p: Option<(u8, u8, u8)>) -> bool {
    match p {
        Some(c) => bright(c) < 80,
        None => false,
    }
}

/// A very dark or very light pixel: an edge or a border.
pub open spec fn edge_pixel(p: Option<(u8, u8, u8)>) -> bool {
    match p {
        Some(c) => bright(c) < 50 || bright(c) > 200,
        None => false,
    }
}

/// A Pokémon Center: more pink samples (every fourth pixel) than one per
/// 2000 pixels.
pub open spec fn has_pokemon_center(img: RgbBuffer) -> bool {
    tally2(0, img.spec_height() as int, 4, 0, img.spec_width() as int, 4, |x: int, y: int| center_pixel(px(img, x, y)))
        > pixel_total(img) / 2000
}

/// A cave: more dark samples (every fourth pixel) than one per 1000 pixels.
pub open spec fn has_cave(img: RgbBuffer) -> bool {
    tally2(0, img.spec_height() as int, 4, 0, img.spec_width() as int, 4, |x: int, y: int| cave_pixel(px(img, x, y)))
        > pixel_total(img) / 1000
}

/// Geometric patterns: more than five edge samples on an 8-pixel grid.
pub open spec fn has_geometric_patterns(img: RgbBuffer) -> bool {
    tally2(0, img.spec_height() as int, 8, 0, img.spec_width() as int, 8, |x: int, y: int| edge_pixel(px(img, x, y))) > 5
}

/// Sum of `f` over the rectangle [x0, x1) x [y0, y1).
pub open spec fn rect_sum(x0: int, x1: int, y0: int, y1: int, f: spec_fn(int, int) -> int) -> int {
    crate::sampling::sum_over(y0, y1, 1, |y: int| crate::sampling::sum_over(x0, x1, 1, |x: int| f(x, y)))
}

/// The channel sum of an in-bounds pixel.
pub open spec fn csum_at(img: RgbBuffer, x: int, y: int) -> int {
    let c = img.spec_pixel(x, y);
    c.0 + c.1 + c.2
}

/// The block of up to 16 x 16 pixels at (x, y), cut at the frame's edge,
/// is evenly lit: the mean of the squared distances of its channel sums
/// from their (rounded-down) mean is below 2000.
pub open spec fn uniform_block(img: RgbBuffer, x: int, y: int) -> bool {
    let ex = if x + 16 < img.spec_width() { x + 16 } else { img.spec_width() as int };
    let ey = if y + 16 < img.spec_height() { y + 16 } else { img.spec_height() as int };
    let count = if x < ex && y < ey { (ex - x) * (ey - y) } else { 0 };
    if count > 0 {
        let avg = rect_sum(x, ex, y, ey, |a: int, b: int| csum_at(img, a, b)) / count;
        let var_sum = rect_sum(x, ex, y, ey, |a: int, b: int| (csum_at(img, a, b) - avg) * (csum_at(img, a, b) - avg));
        var_sum / count < 2000
    } else {
        false
    }
}

/// Indoor lighting: more evenly lit 16-pixel blocks than one per 4000
/// pixels.
pub open spec fn has_indoor_lighting(img: RgbBuffer) -> bool {
    tally2(0, img.spec_height() as int, 16, 0, img.spec_width() as int, 16, |x: int, y: int| uniform_block(img, x, y))
        > pixel_total(img) / 4000
}

/// A gym: geometric patterns under indoor lighting.
pub open spec fn has_gym(img: RgbBuffer) -> bool {
    has_geometric_patterns(img) && has_indoor_lighting(img)
}

/// The signals of the location detector: Pokémon Center (800), gym (700),
/// cave (750), in that order.
pub open spec fn location_signals(img: RgbBuffer) -> Seq<DetectionSignal> {
    let c = if has_pokemon_center(img) { seq![plain_signal(DetectionSignalType::PokemonCenter, 800, None)] } else { Seq::empty() };
    let g = if has_gym(img) { seq![plain_signal(DetectionSignalType::Gym, 700, None)] } else { Seq::empty() };
    let v = if has_cave(img) { seq![plain_signal(DetectionSignalType::Cave, 750, None)] } else { Seq::empty() };
    c + g + v
}

/// Sum of the channel sums over a rectangle inside the raster.
fn block_sum(img: &RgbBuffer, x0: u64, x1: u64, y0: u64, y1: u64) -> (r: u64)
    requires
        x0 <= x1 <= img.spec_width(),
        y0 <= y1 <= img.spec_height(),
        x1 - x0 <= 16,
        y1 - y0 <= 16,
    ensures
        r == rect_sum(x0 as int, x1 as int, y0 as int, y1 as int, |a: int, b: int| csum_at(*img, a, b)),
        r <= 765 * (x1 - x0) * (y1 - y0),
{
    let ghost f = |a: int, b: int| csum_at(*img, a, b);
    proof { crate::raster::lemma_dims_bounded(*img); }
    let mut total: u64 = 0;
    let mut y: u64 = y1;
    while y > y0
        invariant
            y0 <= y <= y1 <= img.spec_height(),
            x0 <= x1 <= img.spec_width(),
            img.spec_width() <= u32::MAX,
            img.spec_height() <= u32::MAX,
            f == (|a: int, b: int| csum_at(*img, a, b)),
            x1 - x0 <= 16,
            y1 - y0 <= 16,
            total == crate::sampling::sum_over(y as int, y1 as int, 1, |yy: int| crate::sampling::sum_over(x0 as int, x1 as int, 1, |xx: int| f(xx, yy))),
            total <= 765 * (x1 - x0) * (y1 - y),
        decreases y - y0,
    {
        y = y - 1;
        let mut row: u64 = 0;
        let mut x: u64 = x1;
        while x > x0
            invariant
                y0 <= y < y1 <= img.spec_height(),
                x0 <= x <= x1 <= img.spec_width(),
                img.spec_width() <= u32::MAX,
                img.spec_height() <= u32::MAX,
                f == (|a: int, b: int| csum_at(*img, a, b)),
            f == (|a: int, b: int| csum_at(*img, a, b)),
                x1 - x0 <= 16,
                row == crate::sampling::sum_over(x as int, x1 as int, 1, |xx: int| f(xx, y as int)),
                row <= 765 * (x1 - x),
            decreases x - x0,
        {
            x = x - 1;
            let c = img.pixel(x as u32, y as u32);
            row = row + c.0 as u64 + c.1 as u64 + c.2 as u64;
            proof {
                assert(c == img.spec_pixel(x as int, y as int));
                assert(f(x as int, y as int) == c.0 + c.1 + c.2);
                assert(crate::sampling::sum_over(x as int, x1 as int, 1, |xx: int| f(xx, y as int))
                    == f(x as int, y as int) + crate::sampling::sum_over(x + 1, x1 as int, 1, |xx: int| f(xx, y as int)));
            }
        }
        proof {
            let g = |yy: int| crate::sampling::sum_over(x0 as int, x1 as int, 1, |xx: int| f(xx, yy));
            assert(crate::sampling::sum_over(y as int, y1 as int, 1, g) == g(y as int) + crate::sampling::sum_over(y + 1, y1 as int, 1, g));
            assert(g(y as int) == row);
        }
        proof {
            assert(x == x0);
            assert(765 * (x1 - x0) * (y1 - (y + 1)) + 765 * (x1 - x0) == 765 * (x1 - x0) * (y1 - y)) by (nonlinear_arith);
            assert(765 * (x1 - x0) * (y1 - y) <= 765 * 16 * 16) by (nonlinear_arith)
                requires x1 - x0 <= 16, y1 - y <= 16, x0 <= x1, y < y1;
        }
        total = total + row;
    }
    total
}

/// Sum of the squared distances of the channel sums from `avg` over a
/// rectangle inside the raster.
fn block_var_sum(img: &RgbBuffer, x0: u64, x1: u64, y0: u64, y1: u64, avg: u64) -> (r: u64)
    requires
        x0 <= x1 <= img.spec_width(),
        y0 <= y1 <= img.spec_height(),
        x1 - x0 <= 16,
        y1 - y0 <= 16,
        avg <= 765,
    ensures
        r == rect_sum(x0 as int, x1 as int, y0 as int, y1 as int,
            |a: int, b: int| (csum_at(*img, a, b) - avg) * (csum_at(*img, a, b) - avg)),
{
    let ghost f = |a: int, b: int| (csum_at(*img, a, b) - avg) * (csum_at(*img, a, b) - avg);
    proof { crate::raster::lemma_dims_bounded(*img); }
    let mut total: u64 = 0;
    let mut y: u64 = y1;
    while y > y0
        invariant
            y0 <= y <= y1 <= img.spec_height(),
            x0 <= x1 <= img.spec_width(),
            img.spec_width() <= u32::MAX,
            img.spec_height() <= u32::MAX,
            f == (|a: int, b: int| (csum_at(*img, a, b) - avg) * (csum_at(*img, a, b) - avg)),
            x1 - x0 <= 16,
            y1 - y0 <= 16,
            avg <= 765,
            total == crate::sampling::sum_over(y as int, y1 as int, 1, |yy: int| crate::sampling::sum_over(x0 as int, x1 as int, 1, |xx: int| f(xx, yy))),
            total <= 585225 * (x1 - x0) * (y1 - y),
        decreases y - y0,
    {
        y = y - 1;
        let mut row: u64 = 0;
        let mut x: u64 = x1;
        while x > x0
            invariant
                y0 <= y < y1 <= img.spec_height(),
                x0 <= x <= x1 <= img.spec_width(),
                img.spec_width() <= u32::MAX,
                img.spec_height() <= u32::MAX,
                f == (|a: int, b: int| (csum_at(*img, a, b) - avg) * (csum_at(*img, a, b) - avg)),
            f == (|a: int, b: int| (csum_at(*img, a, b) - avg) * (csum_at(*img, a, b) - avg)),
                x1 - x0 <= 16,
                avg <= 765,
                row == crate::sampling::sum_over(x as int, x1 as int, 1, |xx: int| f(xx, y as int)),
                row <= 585225 * (x1 - x),
            decreases x - x0,
        {
            x = x - 1;
            let c = img.pixel(x as u32, y as u32);
            let s: u64 = c.0 as u64 + c.1 as u64 + c.2 as u64;
            let d: u64 = if s >= avg { s - avg } else { avg - s };
            proof {
                assert(d * d <= 585225) by (nonlinear_arith) requires d <= 765;
                assert(d * d == (s - avg) * (s - avg)) by (nonlinear_arith) requires d == s - avg || d == avg - s;
            }
            row = row + d * d;
            proof {
                assert(c == img.spec_pixel(x as int, y as int));
                assert(f(x as int, y as int) == d * d);
                assert(crate::sampling::sum_over(x as int, x1 as int, 1, |xx: int| f(xx, y as int))
                    == f(x as int, y as int) + crate::sampling::sum_over(x + 1, x1 as int, 1, |xx: int| f(xx, y as int)));
            }
        }
        proof {
            let g = |yy: int| crate::sampling::sum_over(x0 as int, x1 as int, 1, |xx: int| f(xx, yy));
            assert(crate::sampling::sum_over(y as int, y1 as int, 1, g) == g(y as int) + crate::sampling::sum_over(y + 1, y1 as int, 1, g));
            assert(g(y as int) == row);
        }
        proof {
            assert(x == x0);
            assert(585225 * (x1 - x0) * (y1 - (y + 1)) + 585225 * (x1 - x0) == 585225 * (x1 - x0) * (y1 - y)) by (nonlinear_arith);
            assert(585225 * (x1 - x0) * (y1 - y) <= 585225 * 16 * 16) by (nonlinear_arith)
                requires x1 - x0 <= 16, y1 - y <= 16, x0 <= x1, y < y1;
        }
        total = total + row;
    }
    total
}

/// Whether the block of up to 16 x 16 pixels at (x, y) is evenly lit.
fn region_has_uniform_lighting(img: &RgbBuffer, x: u64, y: u64) -> (r: bool)
    ensures r == uniform_block(*img, x as int, y as int),
{
    let w = img.width() as u64;
    let h = img.height() as u64;
    if x >= w || y >= h {
        return false;
    }
    let ex = if x + 16 < w { x + 16 } else { w };
    let ey = if y + 16 < h { y + 16 } else { h };
    proof {
        assert(0 < (ex - x) * (ey - y) <= 256) by (nonlinear_arith)
            requires 0 < ex - x <= 16, 0 < ey - y <= 16;
    }
    let count = (ex - x) * (ey - y);
    let total = block_sum(img, x, ex, y, ey);
    proof {
        assert(765 * (ex - x) * (ey - y) == 765 * count) by (nonlinear_arith) requires count == (ex - x) * (ey - y);
    }
    let avg = total / count;
    proof {
        assert(avg <= 765) by (nonlinear_arith) requires total <= 765 * count, count > 0, avg == total / count;
    }
    let var_sum = block_var_sum(img, x, ex, y, ey, avg);
    var_sum / count < 2000
}

/// Detects Pokémon Centers, gyms and caves.
#[derive(Clone, Copy, Debug, PartialEq, Eq, Structural)]
pub struct LocationDetector {
    pub confidence_threshold: u64,
}

impl LocationDetector {
    /// Whether the pixel at (x, y) is dark (below 50) or bright (above 200),
    /// as the edges of buildings are.
    pub fn has_rectangular_pattern(&self, rgb: &RgbBuffer, x: u64, y: u64) -> (r: bool)
        ensures r == edge_pixel(px(*rgb, x as int, y as int)),
    {
        match pixel_at(rgb, x, y) {
            Some(c) => {
                let v = bright_exec(c);
                v < 50 || v > 200
            },
            None => false,
        }
    }

    /// Confidence threshold 600.
    pub fn new() -> (r: LocationDetector)
        ensures r.confidence_threshold == 600,
    {
        LocationDetector { confidence_threshold: 600 }
    }

    pub fn detect_pokemon_center(&self, rgb: &RgbBuffer) -> (r: bool)
        ensures r == has_pokemon_center(*rgb),
    {
        let (w, h, total) = dims(rgb);
        let f = |x: u64, y: u64| -> (b: bool)
            ensures b == center_pixel(px(*rgb, x as int, y as int)),
        {
            match pixel_at(rgb, x, y) {
                Some(c) => c.0 > 180 && c.1 < 150 && c.2 > 100 && c.0 > c.2,
                None => false,
            }
        };
        let n = count_grid(0, h, 4, 0, w, 4, &f, Ghost(|x: int, y: int| center_pixel(px(*rgb, x, y))));
        n > total / 2000
    }

    pub fn detect_cave(&self, rgb: &RgbBuffer) -> (r: bool)
        ensures r == has_cave(*rgb),
    {
        let (w, h, total) = dims(rgb);
        let f = |x: u64, y: u64| -> (b: bool)
            ensures b == cave_pixel(px(*rgb, x as int, y as int)),
        {
            match pixel_at(rgb, x, y) {
                Some(c) => bright_exec(c) < 80,
                None => false,
            }
        };
        let n = count_grid(0, h, 4, 0, w, 4, &f, Ghost(|x: int, y: int| cave_pixel(px(*rgb, x, y))));
        n > total / 1000
    }

    pub fn detect_geometric_patterns(&self, rgb: &RgbBuffer) -> (r: bool)
        ensures r == has_geometric_patterns(*rgb),
    {
        let (w, h, _total) = dims(rgb);
        let f = |x: u64, y: u64| -> (b: bool)
            ensures b == edge_pixel(px(*rgb, x as int, y as int)),
        {
            self.has_rectangular_pattern(rgb, x, y)
        };
        let n = count_grid(0, h, 8, 0, w, 8, &f, Ghost(|x: int, y: int| edge_pixel(px(*rgb, x, y))));
        n > 5
    }

    pub fn detect_indoor_lighting(&self, rgb: &RgbBuffer) -> (r: bool)
        ensures r == has_indoor_lighting(*rgb),
    {
        let (w, h, total) = dims(rgb);
        let f = |x: u64, y: u64| -> (b: bool)
            ensures b == uniform_block(*rgb, x as int, y as int),
        {
            region_has_uniform_lighting(rgb, x, y)
        };
        let n = count_grid(0, h, 16, 0, w, 16, &f, Ghost(|x: int, y: int| uniform_block(*rgb, x, y)));
        n > total / 4000
    }

    pub fn detect_gym(&self, rgb: &RgbBuffer) -> (r: bool)
        ensures r == has_gym(*rgb),
    {
        self.detect_geometric_patterns(rgb) && self.detect_indoor_lighting(rgb)
    }

    /// Location signals, with the largest confidence.
    pub fn detect(&self, context: &DetectionContext) -> (r: DetectionResult<Vec<DetectionSignal>>)
        ensures
            r.result@ == location_signals(*context.rgb),
            r.confidence == max_confidence(r.result@),
            r.reasoning@ == "Location detection found "@ + decimal(r.result@.len()) + " signals"@,
    {
        let start_time = instant_now();
        let mut signals: Vec<DetectionSignal> = Vec::new();
        if self.detect_pokemon_center(context.rgb) {
            signals.push(DetectionSignal { signal_type: DetectionSignalType::PokemonCenter, confidence: 800, location: None, metadata: DetectionMetadata::Empty });
        }
        if self.detect_gym(context.rgb) {
            signals.push(DetectionSignal { signal_type: DetectionSignalType::Gym, confidence: 700, location: None, metadata: DetectionMetadata::Empty });
        }
        if self.detect_cave(context.rgb) {
            signals.push(DetectionSignal { signal_type: DetectionSignalType::Cave, confidence: 750, location: None, metadata: DetectionMetadata::Empty });
        }
        proof { assert(signals@ =~= location_signals(*context.rgb)); }
        let confidence = overall_confidence(&signals);
        let reasoning = with_count("Location detection found ", signals.len() as u64, " signals");
        DetectionResult::new(signals, confidence, reasoning).with_timing(&start_time)
    }

    pub fn priority(&self) -> (r: u8)
        ensures r == 50,
    {
        50
    }

    pub fn name(&self) -> (r: &'static str)
        ensures r@ == "LocationDetector"@,
    {
        proof { reveal_strlit("LocationDetector"); }
        "LocationDetector"
    }

    /// Only without strong battle signals (HP bar, battle menu).
    pub fn can_process(&self, context: &DetectionContext) -> (r: bool)
        ensures
            r == (!has_signal_type(context.previous_signals@, DetectionSignalType::HPBar)
                && !has_signal_type(context.previous_signals@, DetectionSignalType::BattleMenu)),
    {
        !context.has_signal(DetectionSignalType::HPBar) && !context.has_signal(DetectionSignalType::BattleMenu)
    }
}

// ------------------------------------------------------------------ HP bar

pub open spec fn green_bar(t: u8, c: (u8, u8, u8)) -> bool {
    c.1 > t && c.1 > c.0 + 30 && c.1 > c.2 + 30
}

pub open spec fn red_bar(t: u8, c: (u8, u8, u8)) -> bool {
    c.0 > t && c.0 > c.1 + 30 && c.0 > c.2 + 30
}

pub open spec fn max3(a: nat, b: nat, c: nat) -> nat {
    let m = if a > b { a } else { b };
    if m > c { m } else { c }
}

/// One pixel of the bar scan. The state is the current green run, the
/// current red run, the longest run closed so far and the bar pixels seen;
/// a pixel outside the raster changes nothing.
pub open spec fn hp_step(gt: u8, rt: u8, s: (nat, nat, nat, nat), p: Option<(u8, u8, u8)>) -> (nat, nat, nat, nat) {
    match p {
        None => s,
        Some(c) => if green_bar(gt, c) {
            (s.0 + 1, 0, s.2, s.3 + 1)
        } else if red_bar(rt, c) {
            (0, s.1 + 1, s.2, s.3 + 1)
        } else {
            (0, 0, max3(s.2, s.0, s.1), s.3)
        },
    }
}

/// The scan state after the first `n` pixels of row `y` from column `x0`.
pub open spec fn hp_row(gt: u8, rt: u8, img: RgbBuffer, y: int, x0: int, n: nat, s: (nat, nat, nat, nat)) -> (nat, nat, nat, nat)
    decreases n,
{
    if n == 0 {
        s
    } else {
        hp_step(gt, rt, hp_row(gt, rt, img, y, x0, (n - 1) as nat, s), px(img, x0 + n - 1, y))
    }
}

/// Longest bar run and bar pixels over the first `k` rows of a region.
pub open spec fn hp_rows(gt: u8, rt: u8, img: RgbBuffer, r: ImageRegion, k: nat) -> (nat, nat)
    decreases k,
{
    if k == 0 {
        (0, 0)
    } else {
        let prev = hp_rows(gt, rt, img, r, (k - 1) as nat);
        let s = hp_row(gt, rt, img, r.y + k - 1, r.x as int, r.width as nat, (0, 0, prev.0, prev.1));
        (max3(s.2, s.0, s.1), s.3)
    }
}

/// `min(num / den, 1)` in thousandths; an empty denominator gives 1.
pub open spec fn capped_pm(num: int, den: int) -> u64 {
    if den == 0 { 1000 } else if ratio_pm(num, den) > 1000 { 1000 } else { ratio_pm(num, den) }
}

/// The HP bar score: the mean of the longest run relative to the width and
/// of the bar pixels relative to the area, each capped at 1.
pub open spec fn hp_score(d: HPBarDetector, img: RgbBuffer, r: ImageRegion) -> u64 {
    let m = hp_rows(d.green_threshold, d.red_threshold, img, r, r.height as nat);
    ((capped_pm(m.0 as int, r.width as int) + capped_pm(m.1 as int, r.width * r.height)) / 2) as u64
}

/// A detection from a score: positive above the threshold, with the score
/// as confidence, otherwise negative with 1 minus the score (not below 0).
pub open spec fn scored(score: u64, threshold: u64) -> (bool, u64) {
    if score > threshold { (true, score) } else if score > 1000 { (false, 0) } else { (false, (1000 - score) as u64) }
}

/// A detection from a score, as `scored` describes it.
pub fn score_detection(score: u64, threshold: u64) -> (r: (bool, u64))
    ensures r == scored(score, threshold),
{
    if score > threshold { (true, score) } else if score > 1000 { (false, 0) } else { (false, 1000 - score) }
}

/// Detects HP bars: long runs of bar green or bar red.
#[derive(Clone, Copy, Debug, PartialEq, Eq, Structural)]
pub struct HPBarDetector {
    pub green_threshold: u8,
    pub red_threshold: u8,
    pub min_bar_length: u32,
}

/// The signals of the HP bar detector: an HP bar over the top quarter when
/// its score there exceeds 300.
pub open spec fn hp_signals(d: HPBarDetector, img: RgbBuffer) -> Seq<DetectionSignal> {
    let region = ImageRegion { x: 0, y: 0, width: img.spec_width() as u32, height: (img.spec_height() / 4) as u32 };
    let det = scored(hp_score(d, img, region), 300);
    if det.0 { seq![plain_signal(DetectionSignalType::HPBar, det.1, Some(region))] } else { Seq::empty() }
}

impl HPBarDetector {
    /// The kind of signal this detector reports.
    pub fn get_signal_type(&self) -> (r: DetectionSignalType)
        ensures r == DetectionSignalType::HPBar,
    {
        DetectionSignalType::HPBar
    }

    /// Thresholds 150 / 150, bars of at least 16 pixels.
    pub fn new() -> (r: HPBarDetector)
        ensures r == (HPBarDetector { green_threshold: 150, red_threshold: 150, min_bar_length: 16 }),
    {
        HPBarDetector { green_threshold: 150, red_threshold: 150, min_bar_length: 16 }
    }

    /// The same detector with other colour thresholds.
    pub fn with_thresholds(self, green: u8, red: u8) -> (r: HPBarDetector)
        ensures r == (HPBarDetector { green_threshold: green, red_threshold: red, ..self }),
    {
        HPBarDetector { green_threshold: green, red_threshold: red, ..self }
    }

    /// The score of a region, in thousandths.
    pub fn analyze_region(&self, rgb: &RgbBuffer, region: ImageRegion) -> (r: u64)
        requires
            region.x + region.width <= u32::MAX,
            region.y + region.height <= u32::MAX,
        ensures r == hp_score(*self, *rgb, region),
    {
        let gt = self.green_threshold;
        let rt = self.red_threshold;
        let x0 = region.x as u64;
        let y0 = region.y as u64;
        let w = region.width as u64;
        let h = region.height as u64;
        let mut max_bar: u64 = 0;
        let mut total: u64 = 0;
        let mut k: u64 = 0;
        while k < h
            invariant
                x0 == region.x, y0 == region.y, w == region.width, h == region.height,
                x0 + w <= u32::MAX, y0 + h <= u32::MAX,
                gt == self.green_threshold, rt == self.red_threshold,
                k <= h,
                (max_bar as nat, total as nat) == hp_rows(gt, rt, *rgb, region, k as nat),
                max_bar <= w,
                total <= k * 0x1_0000_0000,
            decreases h - k,
        {
            let y = y0 + k;
            let mut cg: u64 = 0;
            let mut cr: u64 = 0;
            let mut m: u64 = max_bar;
            let mut t: u64 = total;
            let ghost start = (0nat, 0nat, max_bar as nat, total as nat);
            let mut n: u64 = 0;
            while n < w
                invariant
                    x0 == region.x, w == region.width, y == region.y + k,
                    x0 + w <= u32::MAX,
                    gt == self.green_threshold, rt == self.red_threshold,
                    n <= w,
                    (cg as nat, cr as nat, m as nat, t as nat) == hp_row(gt, rt, *rgb, y as int, x0 as int, n as nat, start),
                    cg <= n, cr <= n, m <= w,
                    t <= total + n,
                    total <= k * 0x1_0000_0000,
                    k < region.height,
                decreases w - n,
            {
                match pixel_at(rgb, x0 + n, y) {
                    Some(c) => {
                        if c.1 > gt && c.1 as u16 > c.0 as u16 + 30 && c.1 as u16 > c.2 as u16 + 30 {
                            cg = cg + 1;
                            cr = 0;
                            t = t + 1;
                        } else if c.0 > rt && c.0 as u16 > c.1 as u16 + 30 && c.0 as u16 > c.2 as u16 + 30 {
                            cr = cr + 1;
                            cg = 0;
                            t = t + 1;
                        } else {
                            if cg > m { m = cg; }
                            if cr > m { m = cr; }
                            cg = 0;
                            cr = 0;
                        }
                    },
                    None => {},
                }
                n = n + 1;
            }
            if cg > m { m = cg; }
            if cr > m { m = cr; }
            max_bar = m;
            total = t;
            k = k + 1;
        }
        let area = region.area();
        let lp: u64 = if w == 0 { 1000 } else { let q = permille(max_bar, w); if q > 1000 { 1000 } else { q } };
        let dp: u64 = if area == 0 { 1000 } else { let q = permille(total, area); if q > 1000 { 1000 } else { q } };
        (lp + dp) / 2
    }

    /// Whether a region holds an HP bar, with the confidence of the answer.
    pub fn detect_in_region(&self, rgb: &RgbBuffer, region: ImageRegion) -> (r: DetectionResult<bool>)
        requires
            region.x + region.width <= u32::MAX,
            region.y + region.height <= u32::MAX,
        ensures
            (r.result, r.confidence) == scored(hp_score(*self, *rgb, region), 300),
            r.reasoning@ == "HP Bar detection in region "@ + region_text(region),
    {
        let start_time = instant_now();
        let score = self.analyze_region(rgb, region);
        let (detected, confidence) = score_detection(score, 300);
        DetectionResult::new(detected, confidence, with_region("HP Bar detection in region ", region)).with_timing(&start_time)
    }

    /// An HP bar signal over the top quarter, when there is one; the
    /// confidence is that of the answer either way.
    pub fn detect(&self, context: &DetectionContext) -> (r: DetectionResult<Vec<DetectionSignal>>)
        ensures
            r.result@ == hp_signals(*self, *context.rgb),
            r.confidence == scored(hp_score(*self, *context.rgb, ImageRegion { x: 0, y: 0, width: context.rgb.spec_width() as u32, height: (context.rgb.spec_height() / 4) as u32 }), 300).1,
            r.reasoning@ == "HP Bar detection in region "@
                + region_text(ImageRegion { x: 0, y: 0, width: context.rgb.spec_width() as u32, height: (context.rgb.spec_height() / 4) as u32 }),
    {
        let start_time = instant_now();
        proof { crate::raster::lemma_dims_bounded(*context.rgb); }
        let region = ImageRegion::top_quarter(context.rgb.width(), context.rgb.height());
        let detection = self.detect_in_region(context.rgb, region);
        let mut signals: Vec<DetectionSignal> = Vec::new();
        if detection.result {
            signals.push(DetectionSignal { signal_type: DetectionSignalType::HPBar, confidence: detection.confidence, location: Some(region), metadata: DetectionMetadata::Empty });
        }
        proof { assert(signals@ =~= hp_signals(*self, *context.rgb)); }
        DetectionResult::new(signals, detection.confidence, detection.reasoning).with_timing(&start_time)
    }

    pub fn priority(&self) -> (r: u8)
        ensures r == 90,
    {
        90
    }

    pub fn name(&self) -> (r: &'static str)
        ensures r@ == "HPBarDetector"@,
    {
        proof { reveal_strlit("HPBarDetector"); }
        "HPBarDetector"
    }

    pub fn can_process(&self, _context: &DetectionContext) -> (r: bool)
        ensures r,
    {
        true
    }
}

// -------------------------------------------------------------------- text

/// Brightness contrast above `t` between two pixels.
pub open spec fn contrast_above(t: u64, c: (u8, u8, u8), n: Option<(u8, u8, u8)>) -> bool {
    match n {
        Some(d) => (if bright(c) >= bright(d) { bright(c) - bright(d) } else { bright(d) - bright(c) }) > t,
        None => false,
    }
}

/// A pixel that contrasts by more than `t` with itself, its right, lower
/// or lower-right neighbour.
pub open spec fn text_contrast_at(img: RgbBuffer, t: u64, x: int, y: int) -> bool {
    match px(img, x, y) {
        Some(c) => contrast_above(t, c, px(img, x, y))
            || contrast_above(t, c, px(img, x + 1, y))
            || contrast_above(t, c, px(img, x, y + 1))
            || contrast_above(t, c, px(img, x + 1, y + 1)),
        None => false,
    }
}

/// Whether the pixel at (x, y) contrasts by more than `t` with a pixel of
/// its 2 x 2 block.
pub fn has_contrast(img: &RgbBuffer, t: u64, x: u64, y: u64) -> (r: bool)
    ensures r == text_contrast_at(*img, t, x as int, y as int),
{
    proof { crate::raster::lemma_dims_bounded(*img); }
    if x == u64::MAX || y == u64::MAX {
        return false;
    }
    match pixel_at(img, x, y) {
        Some(c) => {
            let b = bright_exec(c) as u64;
            let n1 = pixel_at(img, x, y);
            let n2 = pixel_at(img, x + 1, y);
            let n3 = pixel_at(img, x, y + 1);
            let n4 = pixel_at(img, x + 1, y + 1);
            contrast_exec(t, b, n1) || contrast_exec(t, b, n2) || contrast_exec(t, b, n3) || contrast_exec(t, b, n4)
        },
        None => false,
    }
}

fn contrast_exec(t: u64, b: u64, n: Option<(u8, u8, u8)>) -> (r: bool)
    requires b <= 255,
    ensures forall|c: (u8, u8, u8)| bright(c) == b ==> r == contrast_above(t, c, n),
{
    match n {
        Some(d) => {
            let nb = bright_exec(d) as u64;
            let diff = if b >= nb { b - nb } else { nb - b };
            diff > t
        },
        None => false,
    }
}

/// The text score of a region: samples every second pixel with text
/// contrast, relative to a quarter of the area.
pub open spec fn text_score(d: TextDetector, img: RgbBuffer, r: ImageRegion) -> u64 {
    ratio_pm(
        tally2(r.y as int, r.y + r.height, 2, r.x as int, r.x + r.width, 2,
            |x: int, y: int| text_contrast_at(img, d.contrast_threshold as u64, x, y)) as int,
        (r.width * r.height) / 4,
    )
}

/// The regions searched for text: the whole frame, its bottom quarter and
/// its centre half.
pub open spec fn text_regions(img: RgbBuffer) -> Seq<ImageRegion> {
    let w = img.spec_width() as u32;
    let h = img.spec_height() as u32;
    seq![
        ImageRegion { x: 0, y: 0, width: w, height: h },
        ImageRegion { x: 0, y: (h * 3 / 4) as u32, width: w, height: h / 4 },
        ImageRegion { x: w / 4, y: h / 4, width: w / 2, height: h / 2 },
    ]
}

/// A text signal for each searched region whose text score exceeds the
/// detector's minimum density.
pub open spec fn text_signals_from(d: TextDetector, img: RgbBuffer, rs: Seq<ImageRegion>) -> Seq<DetectionSignal>
    decreases rs.len(),
{
    if rs.len() == 0 {
        Seq::empty()
    } else {
        let rest = text_signals_from(d, img, rs.drop_last());
        let det = scored(text_score(d, img, rs.last()), d.min_text_density);
        if det.0 { rest.push(plain_signal(DetectionSignalType::TextBlock, det.1, Some(rs.last()))) } else { rest }
    }
}

pub open spec fn text_signals(d: TextDetector, img: RgbBuffer) -> Seq<DetectionSignal> {
    text_signals_from(d, img, text_regions(img))
}

/// Detects text by local contrast.
#[derive(Clone, Copy, Debug, PartialEq, Eq, Structural)]
pub struct TextDetector {
    pub contrast_threshold: u8,
    /// Minimum text density, in thousandths.
    pub min_text_density: u64,
}

impl TextDetector {
    /// The kind of signal this detector reports.
    pub fn get_signal_type(&self) -> (r: DetectionSignalType)
        ensures r == DetectionSignalType::TextBlock,
    {
        DetectionSignalType::TextBlock
    }

    /// Contrast above 100, density above 150.
    pub fn new() -> (r: TextDetector)
        ensures r == (TextDetector { contrast_threshold: 100, min_text_density: 150 }),
    {
        TextDetector { contrast_threshold: 100, min_text_density: 150 }
    }

    /// The same detector with another contrast threshold.
    pub fn with_threshold(self, threshold: u8) -> (r: TextDetector)
        ensures r == (TextDetector { contrast_threshold: threshold, ..self }),
    {
        TextDetector { contrast_threshold: threshold, ..self }
    }

    pub fn pixel_has_text_contrast(&self, rgb: &RgbBuffer, x: u64, y: u64) -> (r: bool)
        ensures r == text_contrast_at(*rgb, self.contrast_threshold as u64, x as int, y as int),
    {
        has_contrast(rgb, self.contrast_threshold as u64, x, y)
    }

    /// The text score of a region, in thousandths.
    pub fn analyze_region(&self, rgb: &RgbBuffer, region: ImageRegion) -> (r: u64)
        requires
            region.x + region.width <= u32::MAX,
            region.y + region.height <= u32::MAX,
        ensures r == text_score(*self, *rgb, region),
    {
        let t = self.contrast_threshold as u64;
        let f = |x: u64, y: u64| -> (b: bool)
            ensures b == text_contrast_at(*rgb, t, x as int, y as int),
        {
            has_contrast(rgb, t, x, y)
        };
        let x0 = region.x as u64;
        let y0 = region.y as u64;
        let n = count_grid(y0, y0 + region.height as u64, 2, x0, x0 + region.width as u64, 2, &f,
            Ghost(|x: int, y: int| text_contrast_at(*rgb, t, x, y)));
        permille(n, region.area() / 4)
    }

    /// Whether a region holds text, with the confidence of the answer.
    pub fn detect_in_region(&self, rgb: &RgbBuffer, region: ImageRegion) -> (r: DetectionResult<bool>)
        requires
            region.x + region.width <= u32::MAX,
            region.y + region.height <= u32::MAX,
        ensures
            (r.result, r.confidence) == scored(text_score(*self, *rgb, region), self.min_text_density),
            r.reasoning@ == "Text Block detection in region "@ + region_text(region),
    {
        let start_time = instant_now();
        let score = self.analyze_region(rgb, region);
        let (detected, confidence) = score_detection(score, self.min_text_density);
        DetectionResult::new(detected, confidence, with_region("Text Block detection in region ", region)).with_timing(&start_time)
    }

    /// A text signal for each of the whole frame, its bottom quarter and
    /// its centre half that holds text, with the largest confidence.
    pub fn detect(&self, context: &DetectionContext) -> (r: DetectionResult<Vec<DetectionSignal>>)
        ensures
            r.result@ == text_signals(*self, *context.rgb),
            r.confidence == max_confidence(r.result@),
            r.reasoning@ == "Text detection found "@ + decimal(r.result@.len()) + " regions"@,
    {
        let start_time = instant_now();
        proof { crate::raster::lemma_dims_bounded(*context.rgb); }
        let w = context.rgb.width();
        let h = context.rgb.height();
        let mut regions: Vec<ImageRegion> = Vec::new();
        regions.push(ImageRegion::full_image(w, h));
        regions.push(ImageRegion::bottom_quarter(w, h));
        regions.push(ImageRegion::center_half(w, h));
        proof { assert(regions@ =~= text_regions(*context.rgb)); }
        let mut signals: Vec<DetectionSignal> = Vec::new();
        let mut i: usize = 0;
        while i < regions.len()
            invariant
                regions@ == text_regions(*context.rgb),
                i <= regions@.len(),
                signals@ == text_signals_from(*self, *context.rgb, regions@.take(i as int)),
                w == context.rgb.spec_width(),
                h == context.rgb.spec_height(),
            decreases regions@.len() - i,
        {
            let region = regions[i];
            proof {
                assert(regions@.take(i + 1).drop_last() =~= regions@.take(i as int));
                assert(region.x + region.width <= u32::MAX);
                assert(region.y + region.height <= u32::MAX);
            }
            let detection = self.detect_in_region(context.rgb, region);
            if detection.result {
                signals.push(DetectionSignal { signal_type: DetectionSignalType::TextBlock, confidence: detection.confidence, location: Some(region), metadata: DetectionMetadata::Empty });
            }
            i = i + 1;
        }
        proof { assert(regions@.take(3) =~= regions@); }
        let confidence = overall_confidence(&signals);
        let reasoning = with_count("Text detection found ", signals.len() as u64, " regions");
        DetectionResult::new(signals, confidence, reasoning).with_timing(&start_time)
    }

    pub fn priority(&self) -> (r: u8)
        ensures r == 70,
    {
        70
    }

    pub fn name(&self) -> (r: &'static str)
        ensures r@ == "TextDetector"@,
    {
        proof { reveal_strlit("TextDetector"); }
        "TextDetector"
    }

    pub fn can_process(&self, _context: &DetectionContext) -> (r: bool)
        ensures r,
    {
        true
    }
}

// -------------------------------------------------------------------- menu

pub open spec fn edge_at(img: RgbBuffer, x: int, y: int) -> bool {
    edge_pixel(px(img, x, y))
}

pub open spec fn inside_at(img: RgbBuffer, x: int, y: int) -> bool {
    px(img, x, y) is Some
}

/// Samples of `p` on the outline of the box [x, ex) x [y, ey): its top
/// row, its bottom row (row `ey - 1`, or 0), its left column and its right
/// column (column `ex - 1`, or 0).
pub open spec fn outline_count(x: int, y: int, ex: int, ey: int, p: spec_fn(int, int) -> bool) -> nat {
    let bx = if ex > 0 { ex - 1 } else { 0 };
    let by = if ey > 0 { ey - 1 } else { 0 };
    tally2(y, y + 1, 1, x, ex, 1, p) + tally2(by, by + 1, 1, x, ex, 1, p)
        + tally2(y, ey, 1, x, x + 1, 1, p) + tally2(y, ey, 1, bx, bx + 1, 1, p)
}

/// A menu box with its corner at (x, y): of the pixels on the outline of
/// the 32 x 16 box (cut at the frame's edge), more than 30% look like a
/// border.
pub open spec fn menu_box_at(img: RgbBuffer, x: int, y: int) -> bool {
    let ex = if x + 32 < img.spec_width() { x + 32 } else { img.spec_width() as int };
    let ey = if y + 16 < img.spec_height() { y + 16 } else { img.spec_height() as int };
    let border = outline_count(x, y, ex, ey, |a: int, b: int| edge_at(img, a, b));
    let total = outline_count(x, y, ex, ey, |a: int, b: int| inside_at(img, a, b));
    total > 0 && 10 * border > 3 * total
}

/// The menu score of a region: menu boxes found on an 8-row by 16-column
/// grid, relative to the two boxes a menu needs.
pub open spec fn menu_score(d: MenuDetector, img: RgbBuffer, r: ImageRegion) -> u64 {
    ratio_pm(
        tally2(r.y as int, r.y + r.height, 8, r.x as int, r.x + r.width, 16, |x: int, y: int| menu_box_at(img, x, y)) as int,
        d.min_menu_boxes as int,
    )
}

/// The bottom quarter of a raster.
pub open spec fn bottom_quarter_of(img: RgbBuffer) -> ImageRegion {
    let h = img.spec_height() as u32;
    ImageRegion { x: 0, y: (h * 3 / 4) as u32, width: img.spec_width() as u32, height: h / 4 }
}

/// The signals of the menu detector: a battle menu over the bottom quarter
/// when its menu score there exceeds 1.
pub open spec fn menu_signals(d: MenuDetector, img: RgbBuffer) -> Seq<DetectionSignal> {
    let det = scored(menu_score(d, img, bottom_quarter_of(img)), 1000);
    if det.0 { seq![plain_signal(DetectionSignalType::BattleMenu, det.1, Some(bottom_quarter_of(img)))] } else { Seq::empty() }
}

proof fn lemma_outline_bounds(x: int, y: int, ex: int, ey: int, bx: int, by: int, p: spec_fn(int, int) -> bool)
    requires
        0 <= x, 0 <= y, 0 <= ex <= u32::MAX, 0 <= ey <= u32::MAX, 0 <= bx, 0 <= by,
    ensures
        tally2(y, y + 1, 1, x, ex, 1, p) <= 0x1_0000_0000,
        tally2(by, by + 1, 1, x, ex, 1, p) <= 0x1_0000_0000,
        tally2(y, ey, 1, x, x + 1, 1, p) <= 0x1_0000_0000,
        tally2(y, ey, 1, bx, bx + 1, 1, p) <= 0x1_0000_0000,
{
    crate::sampling::lemma_tally2_bound(y, y + 1, 1, x, ex, 1, p);
    crate::sampling::lemma_tally2_bound(by, by + 1, 1, x, ex, 1, p);
    crate::sampling::lemma_tally2_bound(y, ey, 1, x, x + 1, 1, p);
    crate::sampling::lemma_tally2_bound(y, ey, 1, bx, bx + 1, 1, p);
    let a = if ex > x { ex - x } else { 0 };
    let c = if ey > y { ey - y } else { 0 };
    let one = if y + 1 > y { y + 1 - y } else { 0 };
    assert(one == 1);
    assert(one * a <= 0x1_0000_0000) by (nonlinear_arith)
        requires one == 1, a <= 0xffff_ffff;
    assert(c * one <= 0x1_0000_0000) by (nonlinear_arith)
        requires one == 1, c <= 0xffff_ffff;
}

/// Outline samples of `e` (border) and `i` (inside) for one box.
fn outline_counts(img: &RgbBuffer, x: u64, y: u64, ex: u64, ey: u64) -> (r: (u64, u64))
    requires
        x < u32::MAX,
        y < u32::MAX,
        ex <= img.spec_width(),
        ey <= img.spec_height(),
    ensures
        r.0 == outline_count(x as int, y as int, ex as int, ey as int, |a: int, b: int| edge_at(*img, a, b)),
        r.1 == outline_count(x as int, y as int, ex as int, ey as int, |a: int, b: int| inside_at(*img, a, b)),
{
    proof { crate::raster::lemma_dims_bounded(*img); }
    let bx: u64 = if ex > 0 { ex - 1 } else { 0 };
    let by: u64 = if ey > 0 { ey - 1 } else { 0 };
    let e = |a: u64, b: u64| -> (z: bool)
        ensures z == edge_at(*img, a as int, b as int),
    {
        match pixel_at(img, a, b) {
            Some(c) => {
                let v = bright_exec(c);
                v < 50 || v > 200
            },
            None => false,
        }
    };
    let i = |a: u64, b: u64| -> (z: bool)
        ensures z == inside_at(*img, a as int, b as int),
    {
        pixel_at(img, a, b).is_some()
    };
    let ge = Ghost(|a: int, b: int| edge_at(*img, a, b));
    let gi = Ghost(|a: int, b: int| inside_at(*img, a, b));
    let b1 = count_grid(y, y + 1, 1, x, ex, 1, &e, ge);
    let b2 = count_grid(by, by + 1, 1, x, ex, 1, &e, ge);
    let b3 = count_grid(y, ey, 1, x, x + 1, 1, &e, ge);
    let b4 = count_grid(y, ey, 1, bx, bx + 1, 1, &e, ge);
    let t1 = count_grid(y, y + 1, 1, x, ex, 1, &i, gi);
    let t2 = count_grid(by, by + 1, 1, x, ex, 1, &i, gi);
    let t3 = count_grid(y, ey, 1, x, x + 1, 1, &i, gi);
    let t4 = count_grid(y, ey, 1, bx, bx + 1, 1, &i, gi);
    proof {
        lemma_outline_bounds(x as int, y as int, ex as int, ey as int, bx as int, by as int, ge@);
        lemma_outline_bounds(x as int, y as int, ex as int, ey as int, bx as int, by as int, gi@);
    }
    (b1 + b2 + b3 + b4, t1 + t2 + t3 + t4)
}

/// Detects menus by the outlines of their boxes.
#[derive(Clone, Copy, Debug, PartialEq, Eq, Structural)]
pub struct MenuDetector {
    pub min_menu_boxes: u64,
    pub box_size_threshold: u32,
}

impl MenuDetector {
    /// The kind of signal this detector reports.
    pub fn get_signal_type(&self) -> (r: DetectionSignalType)
        ensures r == DetectionSignalType::BattleMenu,
    {
        DetectionSignalType::BattleMenu
    }

    /// Two boxes of at least 16 pixels.
    pub fn new() -> (r: MenuDetector)
        ensures r == (MenuDetector { min_menu_boxes: 2, box_size_threshold: 16 }),
    {
        MenuDetector { min_menu_boxes: 2, box_size_threshold: 16 }
    }

    /// Whether the pixel at (x, y) looks like part of a border.
    pub fn pixel_looks_like_border(&self, rgb: &RgbBuffer, x: u64, y: u64) -> (r: bool)
        ensures r == edge_at(*rgb, x as int, y as int),
    {
        match pixel_at(rgb, x, y) {
            Some(c) => {
                let v = bright_exec(c);
                v < 50 || v > 200
            },
            None => false,
        }
    }

    /// Whether a 32 x 16 menu box has its corner at (x, y).
    pub fn detect_menu_box(&self, rgb: &RgbBuffer, x: u64, y: u64) -> (r: bool)
        requires
            x < u32::MAX,
            y < u32::MAX,
        ensures r == menu_box_at(*rgb, x as int, y as int),
    {
        let w = rgb.width() as u64;
        let h = rgb.height() as u64;
        let ex = if x + 32 < w { x + 32 } else { w };
        let ey = if y + 16 < h { y + 16 } else { h };
        let (border, total) = outline_counts(rgb, x, y, ex, ey);
        proof {
            crate::sampling::lemma_tally2_bound(0, 0, 1, 0, 0, 1, |a: int, b: int| false);
        }
        total > 0 && (border as u128) * 10 > (total as u128) * 3
    }

    /// The menu score of a region, in thousandths.
    pub fn analyze_region(&self, rgb: &RgbBuffer, region: ImageRegion) -> (r: u64)
        requires
            region.x + region.width <= u32::MAX,
            region.y + region.height <= u32::MAX,
        ensures r == menu_score(*self, *rgb, region),
    {
        let f = |x: u64, y: u64| -> (b: bool)
            requires x < u32::MAX, y < u32::MAX,
            ensures b == menu_box_at(*rgb, x as int, y as int),
        {
            self.detect_menu_box(rgb, x, y)
        };
        let x0 = region.x as u64;
        let y0 = region.y as u64;
        let n = count_grid(y0, y0 + region.height as u64, 8, x0, x0 + region.width as u64, 16, &f,
            Ghost(|x: int, y: int| menu_box_at(*rgb, x, y)));
        permille(n, self.min_menu_boxes)
    }

    /// Whether a region holds a menu, with the confidence of the answer.
    pub fn detect_in_region(&self, rgb: &RgbBuffer, region: ImageRegion) -> (r: DetectionResult<bool>)
        requires
            region.x + region.width <= u32::MAX,
            region.y + region.height <= u32::MAX,
        ensures
            (r.result, r.confidence) == scored(menu_score(*self, *rgb, region), 1000),
            r.reasoning@ == "Battle Menu detection in region "@ + region_text(region),
    {
        let start_time = instant_now();
        let score = self.analyze_region(rgb, region);
        let (detected, confidence) = score_detection(score, 1000);
        DetectionResult::new(detected, confidence, with_region("Battle Menu detection in region ", region)).with_timing(&start_time)
    }

    /// A battle menu signal over the bottom quarter, when there is one; the
    /// confidence is that of the answer either way.
    pub fn detect(&self, context: &DetectionContext) -> (r: DetectionResult<Vec<DetectionSignal>>)
        ensures
            r.result@ == menu_signals(*self, *context.rgb),
            r.confidence == scored(menu_score(*self, *context.rgb, bottom_quarter_of(*context.rgb)), 1000).1,
            r.reasoning@ == "Battle Menu detection in region "@ + region_text(bottom_quarter_of(*context.rgb)),
    {
        let start_time = instant_now();
        proof { crate::raster::lemma_dims_bounded(*context.rgb); }
        let region = ImageRegion::bottom_quarter(context.rgb.width(), context.rgb.height());
        let detection = self.detect_in_region(context.rgb, region);
        let mut signals: Vec<DetectionSignal> = Vec::new();
        if detection.result {
            signals.push(DetectionSignal { signal_type: DetectionSignalType::BattleMenu, confidence: detection.confidence, location: Some(region), metadata: DetectionMetadata::Empty });
        }
        proof { assert(signals@ =~= menu_signals(*self, *context.rgb)); }
        DetectionResult::new(signals, detection.confidence, detection.reasoning).with_timing(&start_time)
    }

    pub fn priority(&self) -> (r: u8)
        ensures r == 80,
    {
        80
    }

    pub fn name(&self) -> (r: &'static str)
        ensures r@ == "MenuDetector"@,
    {
        proof { reveal_strlit("MenuDetector"); }
        "MenuDetector"
    }

    pub fn can_process(&self, _context: &DetectionContext) -> (r: bool)
        ensures r,
    {
        true
    }
}

} // verus!
