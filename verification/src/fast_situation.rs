//! A cheaper situation analyser: trusts a known scene, reuses the last
//! result for the same image, and otherwise samples only every eighth pixel
//! in each direction.

use vstd::prelude::*;
use crate::types::{Scene, EnrichedFrame};
use crate::raster::{RgbBuffer, brightness, pixel_brightness, image_key, images_equal};
use crate::sampling::{tally, tally2, row_of};
use crate::heuristics::ColorName;
use crate::smart_action::{GameSituation, UrgencyLevel, ColorRanking};

verus! {

/// What the analyser's caches hold.
#[derive(Clone, Copy, Debug, PartialEq, Eq, Structural)]
pub struct CacheStats {
    pub has_rgb_cache: bool,
    pub has_analysis_cache: bool,
    pub skip_expensive_analysis: bool,
}

/// Situation analysis with caching and sparse sampling. Images are told
/// apart by what they hold: dimensions and bytes.
pub struct FastSituationAnalyzer {
    /// The image last prepared for scanning.
    rgb_cache: Option<RgbBuffer>,
    /// The image last analysed from its pixels, with the result.
    analysis_cache: Option<(RgbBuffer, GameSituation)>,
    /// Skip pixel scans and rely on frame metadata alone.
    skip_expensive_analysis: bool,
}

pub open spec fn ranking(a: Option<ColorName>, b: Option<ColorName>, c: Option<ColorName>) -> ColorRanking {
    ColorRanking { first: a, second: b, third: c }
}

/// The colours assumed for each scene without looking at the image.
pub open spec fn scene_colors(scene: Scene) -> ColorRanking {
    match scene {
        Scene::Battle => ranking(Some(ColorName::Red), Some(ColorName::Green), Some(ColorName::Blue)),
        Scene::MainMenu => ranking(Some(ColorName::Blue), Some(ColorName::White), None),
        Scene::Intro => ranking(Some(ColorName::Black), Some(ColorName::White), None),
        Scene::Overworld => ranking(Some(ColorName::Green), Some(ColorName::Brown), None),
        Scene::NameCreation => ranking(Some(ColorName::Blue), Some(ColorName::White), Some(ColorName::Black)),
        Scene::Unknown => ranking(Some(ColorName::Gray), None, None),
    }
}

/// Urgency by scene alone.
pub open spec fn scene_urgency(scene: Scene) -> UrgencyLevel {
    match scene {
        Scene::Battle => UrgencyLevel::High,
        Scene::MainMenu => UrgencyLevel::Medium,
        Scene::Intro => UrgencyLevel::Low,
        Scene::Overworld => UrgencyLevel::Low,
        Scene::NameCreation => UrgencyLevel::Medium,
        Scene::Unknown => UrgencyLevel::Low,
    }
}

/// The situation assumed for a scene that is already known.
pub open spec fn known_scene_situation(scene: Scene) -> GameSituation {
    let (has_text, has_menu, in_dialog) = match scene {
        Scene::Battle => (true, true, false),
        Scene::MainMenu => (false, true, false),
        Scene::Intro => (true, false, true),
        Scene::Overworld => (false, false, false),
        Scene::NameCreation => (true, true, false),
        Scene::Unknown => (false, false, false),
    };
    GameSituation {
        scene,
        has_text,
        has_menu,
        has_buttons: has_menu,
        in_dialog,
        cursor_row: None,
        dominant_colors: scene_colors(scene),
        urgency_level: scene_urgency(scene),
    }
}

/// The situation from metadata alone: the recorded scene (overworld when
/// none is recorded) with nothing visible.
pub open spec fn metadata_situation(frame_state_scene: Option<Scene>) -> GameSituation {
    let scene = match frame_state_scene { Some(s) => s, None => Scene::Overworld };
    GameSituation {
        scene,
        has_text: false,
        has_menu: false,
        has_buttons: false,
        in_dialog: false,
        cursor_row: None,
        dominant_colors: scene_colors(scene),
        urgency_level: scene_urgency(scene),
    }
}

/// Very dark or very bright: likely text.
pub open spec fn text_like(p: (u8, u8, u8)) -> bool {
    brightness(p) < 50 || brightness(p) > 200
}

/// Bright and light in every channel: likely a menu.
pub open spec fn menu_like(p: (u8, u8, u8)) -> bool {
    brightness(p) > 150 && p.0 > 100 && p.1 > 100 && p.2 > 100
}

pub open spec fn text_like_pred(img: RgbBuffer) -> spec_fn(int, int) -> bool {
    |x: int, y: int| text_like(img.spec_pixel(x, y))
}

pub open spec fn menu_like_pred(img: RgbBuffer) -> spec_fn(int, int) -> bool {
    |x: int, y: int| menu_like(img.spec_pixel(x, y))
}

pub open spec fn every_point() -> spec_fn(int, int) -> bool {
    |x: int, y: int| true
}

pub open spec fn grid8(img: RgbBuffer, p: spec_fn(int, int) -> bool) -> nat {
    tally2(0, img.spec_height() as int, 8, 0, img.spec_width() as int, 8, p)
}

/// Scene from the shares of text-like (`t`) and menu-like (`m`) samples
/// among `n`: battle above 30% text and 10% menu, main menu above 20% menu,
/// name entry above 25% text and 5% menu, intro above 20% text, otherwise
/// overworld.
pub open spec fn scene_from_shares(t: int, m: int, n: int) -> Scene {
    if 10 * t > 3 * n && 10 * m > n {
        Scene::Battle
    } else if 5 * m > n {
        Scene::MainMenu
    } else if 4 * t > n && 20 * m > n {
        Scene::NameCreation
    } else if 5 * t > n {
        Scene::Intro
    } else {
        Scene::Overworld
    }
}

/// The situation read off sample counts.
pub open spec fn sampled_situation(t: int, m: int, n: int) -> GameSituation {
    let scene = scene_from_shares(t, m, n);
    GameSituation {
        scene,
        has_text: 20 * t > 3 * n,
        has_menu: 10 * m > n,
        has_buttons: 10 * m > n,
        in_dialog: 4 * t > n,
        cursor_row: None,
        dominant_colors: scene_colors(scene),
        urgency_level: scene_urgency(scene),
    }
}

/// The situation read off an image's 8-pixel grid samples.
pub open spec fn image_situation(img: RgbBuffer) -> GameSituation {
    sampled_situation(grid8(img, text_like_pred(img)) as int, grid8(img, menu_like_pred(img)) as int, grid8(img, every_point()) as int)
}

pub open spec fn state_scene(frame: EnrichedFrame) -> Option<Scene> {
    match frame.state { Some(s) => Some(s.scene), None => None }
}

fn get_cached_colors(scene: Scene) -> (r: ColorRanking)
    ensures r == scene_colors(scene),
{
    match scene {
        Scene::Battle => ColorRanking { first: Some(ColorName::Red), second: Some(ColorName::Green), third: Some(ColorName::Blue) },
        Scene::MainMenu => ColorRanking { first: Some(ColorName::Blue), second: Some(ColorName::White), third: None },
        Scene::Intro => ColorRanking { first: Some(ColorName::Black), second: Some(ColorName::White), third: None },
        Scene::Overworld => ColorRanking { first: Some(ColorName::Green), second: Some(ColorName::Brown), third: None },
        Scene::NameCreation => ColorRanking { first: Some(ColorName::Blue), second: Some(ColorName::White), third: Some(ColorName::Black) },
        Scene::Unknown => ColorRanking { first: Some(ColorName::Gray), second: None, third: None },
    }
}

fn determine_urgency(scene: Scene) -> (r: UrgencyLevel)
    ensures r == scene_urgency(scene),
{
    match scene {
        Scene::Battle => UrgencyLevel::High,
        Scene::MainMenu => UrgencyLevel::Medium,
        Scene::Intro => UrgencyLevel::Low,
        Scene::Overworld => UrgencyLevel::Low,
        Scene::NameCreation => UrgencyLevel::Medium,
        Scene::Unknown => UrgencyLevel::Low,
    }
}

fn analyze_from_known_scene(scene: Scene) -> (r: GameSituation)
    ensures r == known_scene_situation(scene),
{
    let (has_text, has_menu, in_dialog, urgency) = match scene {
        Scene::Battle => (true, true, false, UrgencyLevel::High),
        Scene::MainMenu => (false, true, false, UrgencyLevel::Medium),
        Scene::Intro => (true, false, true, UrgencyLevel::Low),
        Scene::Overworld => (false, false, false, UrgencyLevel::Low),
        Scene::NameCreation => (true, true, false, UrgencyLevel::Medium),
        Scene::Unknown => (false, false, false, UrgencyLevel::Low),
    };
    GameSituation {
        scene,
        has_text,
        has_menu,
        has_buttons: has_menu,
        in_dialog,
        cursor_row: None,
        dominant_colors: get_cached_colors(scene),
        urgency_level: urgency,
    }
}

fn heuristic_analysis(frame: &EnrichedFrame) -> (r: GameSituation)
    ensures r == metadata_situation(state_scene(*frame)),
{
    let scene = match &frame.state {
        Some(s) => s.scene,
        None => Scene::Overworld,
    };
    GameSituation {
        scene,
        has_text: false,
        has_menu: false,
        has_buttons: false,
        in_dialog: false,
        cursor_row: None,
        dominant_colors: get_cached_colors(scene),
        urgency_level: determine_urgency(scene),
    }
}

/// Counts of text-like, menu-like and all samples on the 8-pixel grid.
fn sample_grid(img: &RgbBuffer) -> (r: (u128, u128, u128))
    ensures
        r.0 == grid8(*img, text_like_pred(*img)),
        r.1 == grid8(*img, menu_like_pred(*img)),
        r.2 == grid8(*img, every_point()),
        r.0 < 0x4_0000_0000_0000_0000,
        r.1 < 0x4_0000_0000_0000_0000,
        r.2 < 0x4_0000_0000_0000_0000,
{
    let w: u64 = img.width() as u64;
    let h: u64 = img.height() as u64;
    let ghost tp = text_like_pred(*img);
    let ghost mp = menu_like_pred(*img);
    let ghost ap = every_point();
    let mut t: u128 = 0;
    let mut m: u128 = 0;
    let mut n: u128 = 0;
    let mut y: u64 = 0;
    while y < h
        invariant
            w == img.spec_width(),
            h == img.spec_height(),
            w <= u32::MAX,
            h <= u32::MAX,
            tp == text_like_pred(*img),
            mp == menu_like_pred(*img),
            ap == every_point(),
            y <= h + 8,
            t <= y * 0x1_0000_0000,
            m <= y * 0x1_0000_0000,
            n <= y * 0x1_0000_0000,
            t + tally2(y as int, h as int, 8, 0, w as int, 8, tp) == tally2(0, h as int, 8, 0, w as int, 8, tp),
            m + tally2(y as int, h as int, 8, 0, w as int, 8, mp) == tally2(0, h as int, 8, 0, w as int, 8, mp),
            n + tally2(y as int, h as int, 8, 0, w as int, 8, ap) == tally2(0, h as int, 8, 0, w as int, 8, ap),
        decreases h + 8 - y,
    {
        let mut rt: u64 = 0;
        let mut rm: u64 = 0;
        let mut rn: u64 = 0;
        let mut x: u64 = 0;
        while x < w
            invariant
                w == img.spec_width(),
                h == img.spec_height(),
                w <= u32::MAX,
                h <= u32::MAX,
                y < h,
                tp == text_like_pred(*img),
                mp == menu_like_pred(*img),
                ap == every_point(),
                x <= w + 8,
                rt <= x,
                rm <= x,
                rn <= x,
                rt + tally(x as int, w as int, 8, row_of(tp, y as int)) == tally(0, w as int, 8, row_of(tp, y as int)),
                rm + tally(x as int, w as int, 8, row_of(mp, y as int)) == tally(0, w as int, 8, row_of(mp, y as int)),
                rn + tally(x as int, w as int, 8, row_of(ap, y as int)) == tally(0, w as int, 8, row_of(ap, y as int)),
            decreases w + 8 - x,
        {
            let p = img.pixel(x as u32, y as u32);
            let b = pixel_brightness(p);
            if b < 50 || b > 200 {
                rt = rt + 1;
            }
            if b > 150 && p.0 > 100 && p.1 > 100 && p.2 > 100 {
                rm = rm + 1;
            }
            rn = rn + 1;
            x = x + 8;
        }
        t = t + rt as u128;
        m = m + rm as u128;
        n = n + rn as u128;
        y = y + 8;
    }
    (t, m, n)
}

/// `new` and `r` are what the fast analyser `old` becomes and answers for
/// `frame`: the assumed situation for a recorded scene other than
/// `Unknown`; else the cached result when the same image was analysed
/// last; else a fresh analysis (metadata only, or the 8-pixel grid scan
/// when enabled), which is then cached.
pub open spec fn fast_analysis(old: FastSituationAnalyzer, frame: EnrichedFrame, new: FastSituationAnalyzer, r: GameSituation) -> bool {
    &&& new.spec_skip_expensive() == old.spec_skip_expensive()
    &&& match frame.state {
        Some(s) if s.scene != Scene::Unknown => {
            &&& r == known_scene_situation(s.scene)
            &&& new.spec_rgb_cache() == old.spec_rgb_cache()
            &&& new.spec_analysis_cache() == old.spec_analysis_cache()
        },
        _ => {
            &&& new.spec_rgb_cache() == Some(image_key(frame.image))
            &&& new.spec_analysis_cache() == Some((image_key(frame.image), r))
            &&& r == (match old.spec_analysis_cache() {
                    Some((k, cached)) if k == image_key(frame.image) => cached,
                    _ => if old.spec_skip_expensive() {
                        metadata_situation(state_scene(frame))
                    } else {
                        image_situation(frame.image)
                    },
                })
        },
    }
}

impl FastSituationAnalyzer {
    /// Empty caches; pixel scans skipped.
    pub fn new() -> (r: FastSituationAnalyzer)
        ensures
            r.spec_rgb_cache() is None,
            r.spec_analysis_cache() is None,
            r.spec_skip_expensive(),
    {
        FastSituationAnalyzer { rgb_cache: None, analysis_cache: None, skip_expensive_analysis: true }
    }

    /// The image last prepared for scanning.
    pub closed spec fn spec_rgb_cache(&self) -> Option<(nat, nat, Seq<u8>)> {
        match self.rgb_cache { Some(img) => Some(image_key(img)), None => None }
    }

    /// The image last analysed from its pixels, with the result.
    pub closed spec fn spec_analysis_cache(&self) -> Option<((nat, nat, Seq<u8>), GameSituation)> {
        match self.analysis_cache { Some((img, s)) => Some((image_key(img), s)), None => None }
    }

    pub closed spec fn spec_skip_expensive(&self) -> bool {
        self.skip_expensive_analysis
    }

    /// A result is only ever cached together with the image it was read
    /// from.
    #[verifier::type_invariant]
    closed spec fn caches_agree(self) -> bool {
        self.spec_analysis_cache() matches Some((k, _)) ==> self.spec_rgb_cache() == Some(k)
    }

    /// Enables or disables the pixel scans.
    pub fn with_expensive_analysis(self, enabled: bool) -> (r: FastSituationAnalyzer)
        ensures
            r.spec_skip_expensive() == !enabled,
            r.spec_rgb_cache() == self.spec_rgb_cache(),
            r.spec_analysis_cache() == self.spec_analysis_cache(),
    {
        proof { use_type_invariant(&self); }
        let mut s = self;
        s.skip_expensive_analysis = !enabled;
        s
    }

    /// Keeps a copy of the image prepared for scanning, unless the same
    /// image is already kept.
    fn get_or_create_rgb(&mut self, image: &RgbBuffer)
        requires
            old(self).spec_analysis_cache() matches Some((k, _)) ==> k == image_key(*image),
        ensures
            final(self).spec_rgb_cache() == Some(image_key(*image)),
            final(self).spec_analysis_cache() == old(self).spec_analysis_cache(),
            final(self).spec_skip_expensive() == old(self).spec_skip_expensive(),
    {
        match &self.rgb_cache {
            Some(cached) => {
                if images_equal(cached, image) {
                    return;
                }
            },
            None => {},
        }
        self.rgb_cache = Some(image.clone());
    }

    fn fast_analyze(&self, frame: &EnrichedFrame) -> (r: GameSituation)
        ensures
            r == (if self.spec_skip_expensive() {
                metadata_situation(state_scene(*frame))
            } else {
                image_situation(frame.image)
            }),
    {
        if self.skip_expensive_analysis {
            return heuristic_analysis(frame);
        }
        let (t, m, n) = sample_grid(&frame.image);
        let scene = if 10 * t > 3 * n && 10 * m > n {
            Scene::Battle
        } else if 5 * m > n {
            Scene::MainMenu
        } else if 4 * t > n && 20 * m > n {
            Scene::NameCreation
        } else if 5 * t > n {
            Scene::Intro
        } else {
            Scene::Overworld
        };
        GameSituation {
            scene,
            has_text: 20 * t > 3 * n,
            has_menu: 10 * m > n,
            has_buttons: 10 * m > n,
            in_dialog: 4 * t > n,
            cursor_row: None,
            dominant_colors: get_cached_colors(scene),
            urgency_level: determine_urgency(scene),
        }
    }

    /// The situation of a frame: the assumed one for a recorded scene other
    /// than `Unknown`; else the cached result when the same image was
    /// analysed last; else a fresh analysis (metadata only, or the 8-pixel
    /// grid scan when enabled), which is then cached.
    pub fn analyze_situation_fast(&mut self, frame: &EnrichedFrame) -> (r: GameSituation)
        ensures
            fast_analysis(*old(self), *frame, *final(self), r),
    {
        if let Some(state) = &frame.state {
            if state.scene != Scene::Unknown {
                return analyze_from_known_scene(state.scene);
            }
        }
        proof { use_type_invariant(&*self); }
        let hit = match &self.analysis_cache {
            Some((key, cached)) => if images_equal(key, &frame.image) { Some(*cached) } else { None },
            None => None,
        };
        match hit {
            Some(cached) => {
                self.get_or_create_rgb(&frame.image);
                return cached;
            },
            None => {},
        }
        self.analysis_cache = None;
        self.get_or_create_rgb(&frame.image);
        let situation = self.fast_analyze(frame);
        self.analysis_cache = Some((frame.image.clone(), situation));
        situation
    }

    /// Drops both caches.
    pub fn clear_cache(&mut self)
        ensures
            final(self).spec_rgb_cache() is None,
            final(self).spec_analysis_cache() is None,
            final(self).spec_skip_expensive() == old(self).spec_skip_expensive(),
    {
        self.analysis_cache = None;
        self.rgb_cache = None;
    }

    /// Which caches are filled: never the analysis cache without the image
    /// cache, which then holds the same image.
    pub fn get_cache_stats(&self) -> (r: CacheStats)
        ensures
            self.spec_analysis_cache() matches Some((k, _)) ==> self.spec_rgb_cache() == Some(k),
            r.has_analysis_cache ==> r.has_rgb_cache,
            r.has_rgb_cache == self.spec_rgb_cache() is Some,
            r.has_analysis_cache == self.spec_analysis_cache() is Some,
            r.skip_expensive_analysis == self.spec_skip_expensive(),
    {
        proof { use_type_invariant(self); }
        CacheStats {
            has_rgb_cache: self.rgb_cache.is_some(),
            has_analysis_cache: self.analysis_cache.is_some(),
            skip_expensive_analysis: self.skip_expensive_analysis,
        }
    }
}

/// The analysis cache is only ever filled together with the image cache,
/// and for the same image: an analyser where that holds keeps it through
/// any analysis.
pub proof fn lemma_analysis_cached_with_image(old: FastSituationAnalyzer, frame: EnrichedFrame, new: FastSituationAnalyzer, r: GameSituation)
    requires
        fast_analysis(old, frame, new, r),
        old.spec_analysis_cache() matches Some((k, _)) ==> old.spec_rgb_cache() == Some(k),
    ensures
        new.spec_analysis_cache() matches Some((k, _)) ==> new.spec_rgb_cache() == Some(k),
{
}

} // verus!
