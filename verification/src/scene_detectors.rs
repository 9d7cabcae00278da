//! Scene detectors: each weighs the evidence for one scene and answers
//! with a confidence in thousandths; and the analyzer that turns a scene
//! and the signals of a frame into a game state.

use vstd::prelude::*;
use crate::analyzers::{default_hp_bar, default_menu, default_text, default_environment, HPBarDetector, MenuDetector, TextDetector, LocationDetector, EnvironmentDetector,
    hp_signals, menu_signals, text_signals, location_signals, environment_signals, text_contrast_at, has_contrast,
    bright, inside_at};
use crate::detection::{DetectionContext, DetectionResult, DetectionSignalType, has_signal_type, instant_now};
use crate::raster::{RgbBuffer, px, pixel_at};
use crate::sampling::{tally, tally2, count_grid, count_1d};
use vstd::string::StringExecFns;
use crate::text::{bool_text, bool_str, scene_text, scene_str};
use crate::types::{Scene, State, LocationType, spec_default_state};

verus! {

// ------------------------------------------------------------------ battle

/// Battle: both HP bars and a battle menu 950, HP bars alone 850, a menu
/// alone 600, neither 100.
pub open spec fn battle_confidence(hp: bool, menu: bool) -> u64 {
    if hp && menu { 950 } else if hp { 850 } else if menu { 600 } else { 100 }
}

/// A scene with its confidence: the scene when the confidence is above
/// the bar, else `Unknown`.
pub open spec fn verdict(scene: Scene, confidence: u64, bar: u64) -> (Scene, u64) {
    (if confidence > bar { scene } else { Scene::Unknown }, confidence)
}

/// Detects battles by HP bars and the battle menu.
#[derive(Clone, Copy, Debug, PartialEq, Eq, Structural)]
pub struct BattleSceneDetector {
    pub hp_bar_detector: HPBarDetector,
    pub menu_detector: MenuDetector,
}

pub open spec fn battle_verdict(d: BattleSceneDetector, img: RgbBuffer) -> (Scene, u64) {
    verdict(Scene::Battle, battle_confidence(hp_signals(d.hp_bar_detector, img).len() > 0, menu_signals(d.menu_detector, img).len() > 0), 500)
}

impl BattleSceneDetector {
    pub fn new() -> (r: BattleSceneDetector)
        ensures r == (BattleSceneDetector { hp_bar_detector: default_hp_bar(), menu_detector: default_menu() }),
    {
        BattleSceneDetector { hp_bar_detector: HPBarDetector::new(), menu_detector: MenuDetector::new() }
    }

    pub fn detect_scene(&self, context: &DetectionContext) -> (r: DetectionResult<Scene>)
        ensures
            (r.result, r.confidence) == battle_verdict(*self, *context.rgb),
            r.reasoning@ == "Battle detection: HP bars="@ + bool_text(hp_signals(self.hp_bar_detector, *context.rgb).len() > 0)
                + ", menu="@ + bool_text(menu_signals(self.menu_detector, *context.rgb).len() > 0),
    {
        let start_time = instant_now();
        let hp = self.hp_bar_detector.detect(context);
        let has_hp_bars = hp.result.len() > 0;
        let menu = self.menu_detector.detect(context);
        let has_battle_menu = menu.result.len() > 0;
        let confidence: u64 = if has_hp_bars && has_battle_menu { 950 } else if has_hp_bars { 850 } else if has_battle_menu { 600 } else { 100 };
        let scene = if confidence > 500 { Scene::Battle } else { Scene::Unknown };
        let mut reasoning = "Battle detection: HP bars=".to_owned();
        reasoning.append(bool_str(has_hp_bars));
        reasoning.append(", menu=");
        reasoning.append(bool_str(has_battle_menu));
        DetectionResult::new(scene, confidence, reasoning).with_timing(&start_time)
    }

    pub fn name(&self) -> (r: &'static str)
        ensures r@ == "BattleSceneDetector"@,
    {
        proof { reveal_strlit("BattleSceneDetector"); }
        "BattleSceneDetector"
    }

    pub fn supported_scenes(&self) -> (r: Vec<Scene>)
        ensures r@ == seq![Scene::Battle],
    {
        let v = vec![Scene::Battle];
        v
    }
}

// -------------------------------------------------------------------- menu

/// A menu line: more samples (every eighth pixel) with contrast above 80
/// than one per 32 pixels of width.
pub open spec fn menu_line(img: RgbBuffer, y: int) -> bool {
    tally(0, img.spec_width() as int, 8, |x: int| text_contrast_at(img, 80, x, y)) > img.spec_width() / 32
}

/// A menu layout: at least three menu lines among the rows sampled every
/// eight pixels across the middle third.
pub open spec fn has_menu_layout(img: RgbBuffer) -> bool {
    let h = img.spec_height() as int;
    tally(h / 3, h * 2 / 3, 8, |y: int| menu_line(img, y)) >= 3
}

fn is_menu_line(img: &RgbBuffer, y: u64) -> (r: bool)
    ensures r == menu_line(*img, y as int),
{
    proof { crate::raster::lemma_dims_bounded(*img); }
    let w = img.width() as u64;
    let f = |x: u64| -> (b: bool)
        ensures b == text_contrast_at(*img, 80, x as int, y as int),
    {
        has_contrast(img, 80, x, y)
    };
    let n = count_1d(0, w, 8, &f, Ghost(|x: int| text_contrast_at(*img, 80, x, y as int)));
    n > w / 32
}

/// Menu: text and a menu layout 800, the layout alone 600, else 200.
pub open spec fn menu_confidence(text: bool, layout: bool) -> u64 {
    if text && layout { 800 } else if layout { 600 } else { 200 }
}

/// Detects menus by text arranged in lines.
#[derive(Clone, Copy, Debug, PartialEq, Eq, Structural)]
pub struct MenuSceneDetector {
    pub text_detector: TextDetector,
}

pub open spec fn menu_verdict(d: MenuSceneDetector, img: RgbBuffer) -> (Scene, u64) {
    verdict(Scene::MainMenu, menu_confidence(text_signals(d.text_detector, img).len() > 0, has_menu_layout(img)), 500)
}

impl MenuSceneDetector {
    /// Whether the pixel at (x, y) differs in brightness by more than 80
    /// from itself or a neighbour to the right or below.
    pub fn pixel_has_menu_contrast(&self, rgb: &RgbBuffer, x: u64, y: u64) -> (r: bool)
        ensures r == text_contrast_at(*rgb, 80, x as int, y as int),
    {
        has_contrast(rgb, 80, x, y)
    }

    /// Text at a contrast above 90.
    pub fn new() -> (r: MenuSceneDetector)
        ensures r == (MenuSceneDetector { text_detector: TextDetector { contrast_threshold: 90, ..default_text() } }),
    {
        MenuSceneDetector { text_detector: TextDetector::new().with_threshold(90) }
    }

    pub fn detect_menu_layout(&self, context: &DetectionContext) -> (r: bool)
        ensures r == has_menu_layout(*context.rgb),
    {
        proof { crate::raster::lemma_dims_bounded(*context.rgb); }
        let h = context.rgb.height() as u64;
        let img = context.rgb;
        let f = |y: u64| -> (b: bool)
            ensures b == menu_line(*img, y as int),
        {
            is_menu_line(img, y)
        };
        let n = count_1d(h / 3, h * 2 / 3, 8, &f, Ghost(|y: int| menu_line(*img, y)));
        n >= 3
    }

    pub fn detect_scene(&self, context: &DetectionContext) -> (r: DetectionResult<Scene>)
        ensures
            (r.result, r.confidence) == menu_verdict(*self, *context.rgb),
            r.reasoning@ == "Menu detection: text="@ + bool_text(text_signals(self.text_detector, *context.rgb).len() > 0)
                + ", layout="@ + bool_text(has_menu_layout(*context.rgb)),
    {
        let start_time = instant_now();
        let text = self.text_detector.detect(context);
        let has_text = text.result.len() > 0;
        let has_menu_layout = self.detect_menu_layout(context);
        let confidence: u64 = if has_text && has_menu_layout { 800 } else if has_menu_layout { 600 } else { 200 };
        let scene = if confidence > 500 { Scene::MainMenu } else { Scene::Unknown };
        let mut reasoning = "Menu detection: text=".to_owned();
        reasoning.append(bool_str(has_text));
        reasoning.append(", layout=");
        reasoning.append(bool_str(has_menu_layout));
        DetectionResult::new(scene, confidence, reasoning).with_timing(&start_time)
    }

    pub fn name(&self) -> (r: &'static str)
        ensures r@ == "MenuSceneDetector"@,
    {
        proof { reveal_strlit("MenuSceneDetector"); }
        "MenuSceneDetector"
    }

    pub fn supported_scenes(&self) -> (r: Vec<Scene>)
        ensures r@ == seq![Scene::MainMenu],
    {
        let v = vec![Scene::MainMenu];
        v
    }
}

// --------------------------------------------------------------- overworld

/// Overworld: no battle or menu signal so far and some location or
/// environment found 700, no such signal 500, else 100.
pub open spec fn overworld_confidence(ui: bool, location: bool, environment: bool) -> u64 {
    if !ui && (location || environment) { 700 } else if !ui { 500 } else { 100 }
}

/// Whether the signals so far show an HP bar, a battle menu or a main menu.
pub open spec fn has_ui(found: Seq<crate::detection::DetectionSignal>) -> bool {
    has_signal_type(found, DetectionSignalType::HPBar)
        || has_signal_type(found, DetectionSignalType::BattleMenu)
        || has_signal_type(found, DetectionSignalType::MainMenu)
}

/// Detects the overworld by places and surroundings without UI.
#[derive(Clone, Copy, Debug, PartialEq, Eq, Structural)]
pub struct OverworldSceneDetector {
    pub location_detector: LocationDetector,
    pub environment_detector: EnvironmentDetector,
}

pub open spec fn overworld_verdict(d: OverworldSceneDetector, img: RgbBuffer, found: Seq<crate::detection::DetectionSignal>) -> (Scene, u64) {
    verdict(
        Scene::Overworld,
        overworld_confidence(has_ui(found), location_signals(img).len() > 0, environment_signals(d.environment_detector, img).len() > 0),
        400,
    )
}

impl OverworldSceneDetector {
    pub fn new() -> (r: OverworldSceneDetector)
        ensures r == (OverworldSceneDetector { location_detector: LocationDetector { confidence_threshold: 600 }, environment_detector: default_environment() }),
    {
        OverworldSceneDetector { location_detector: LocationDetector::new(), environment_detector: EnvironmentDetector::new() }
    }

    pub fn detect_scene(&self, context: &DetectionContext) -> (r: DetectionResult<Scene>)
        ensures
            (r.result, r.confidence) == overworld_verdict(*self, *context.rgb, context.previous_signals@),
            r.reasoning@ == "Overworld detection: location="@ + bool_text(location_signals(*context.rgb).len() > 0)
                + ", env="@ + bool_text(environment_signals(self.environment_detector, *context.rgb).len() > 0)
                + ", no_ui="@ + bool_text(!has_ui(context.previous_signals@)),
    {
        let start_time = instant_now();
        let location = self.location_detector.detect(context);
        let has_location = location.result.len() > 0;
        let env = self.environment_detector.detect(context);
        let has_environment = env.result.len() > 0;
        let has_ui_elements = context.has_signal(DetectionSignalType::HPBar)
            || context.has_signal(DetectionSignalType::BattleMenu)
            || context.has_signal(DetectionSignalType::MainMenu);
        let confidence: u64 = if !has_ui_elements && (has_location || has_environment) { 700 } else if !has_ui_elements { 500 } else { 100 };
        let scene = if confidence > 400 { Scene::Overworld } else { Scene::Unknown };
        let mut reasoning = "Overworld detection: location=".to_owned();
        reasoning.append(bool_str(has_location));
        reasoning.append(", env=");
        reasoning.append(bool_str(has_environment));
        reasoning.append(", no_ui=");
        reasoning.append(bool_str(!has_ui_elements));
        DetectionResult::new(scene, confidence, reasoning).with_timing(&start_time)
    }

    pub fn name(&self) -> (r: &'static str)
        ensures r@ == "OverworldSceneDetector"@,
    {
        proof { reveal_strlit("OverworldSceneDetector"); }
        "OverworldSceneDetector"
    }

    pub fn supported_scenes(&self) -> (r: Vec<Scene>)
        ensures r@ == seq![Scene::Overworld],
    {
        let v = vec![Scene::Overworld];
        v
    }
}

// ------------------------------------------------------------------- intro

/// A pixel darker than 50.
pub open spec fn dark50_at(img: RgbBuffer, x: int, y: int) -> bool {
    match px(img, x, y) {
        Some(c) => bright(c) < 50,
        None => false,
    }
}

/// A dialog box: over the bottom quarter, more than a tenth of the pixels
/// are dark.
pub open spec fn has_dialog_box(img: RgbBuffer) -> bool {
    let w = img.spec_width() as int;
    let h = img.spec_height() as int;
    let border = tally2(h * 3 / 4, h, 1, 0, w, 1, |x: int, y: int| dark50_at(img, x, y));
    let total = tally2(h * 3 / 4, h, 1, 0, w, 1, |x: int, y: int| inside_at(img, x, y));
    total > 0 && 10 * border > total
}

/// Intro: text and a dialog box 900, either 600, neither 100.
pub open spec fn intro_confidence(text: bool, dialog: bool) -> u64 {
    if text && dialog { 900 } else if text || dialog { 600 } else { 100 }
}

/// Detects the intro by text and the dialog box.
#[derive(Clone, Copy, Debug, PartialEq, Eq, Structural)]
pub struct IntroSceneDetector {
    pub text_detector: TextDetector,
}

pub open spec fn intro_verdict(d: IntroSceneDetector, img: RgbBuffer) -> (Scene, u64) {
    verdict(Scene::Intro, intro_confidence(text_signals(d.text_detector, img).len() > 0, has_dialog_box(img)), 500)
}

impl IntroSceneDetector {
    /// Text at a contrast above 80.
    pub fn new() -> (r: IntroSceneDetector)
        ensures r == (IntroSceneDetector { text_detector: TextDetector { contrast_threshold: 80, ..default_text() } }),
    {
        IntroSceneDetector { text_detector: TextDetector::new().with_threshold(80) }
    }

    pub fn detect_dialog_box(&self, context: &DetectionContext) -> (r: bool)
        ensures r == has_dialog_box(*context.rgb),
    {
        proof { crate::raster::lemma_dims_bounded(*context.rgb); }
        let img = context.rgb;
        let w = img.width() as u64;
        let h = img.height() as u64;
        let f = |x: u64, y: u64| -> (b: bool)
            ensures b == dark50_at(*img, x as int, y as int),
        {
            match pixel_at(img, x, y) {
                Some(c) => (c.0 as u16 + c.1 as u16 + c.2 as u16) / 3 < 50,
                None => false,
            }
        };
        let g = |x: u64, y: u64| -> (b: bool)
            ensures b == inside_at(*img, x as int, y as int),
        {
            pixel_at(img, x, y).is_some()
        };
        let border = count_grid(h * 3 / 4, h, 1, 0, w, 1, &f, Ghost(|x: int, y: int| dark50_at(*img, x, y)));
        let total = count_grid(h * 3 / 4, h, 1, 0, w, 1, &g, Ghost(|x: int, y: int| inside_at(*img, x, y)));
        total > 0 && (border as u128) * 10 > total as u128
    }

    pub fn detect_scene(&self, context: &DetectionContext) -> (r: DetectionResult<Scene>)
        ensures
            (r.result, r.confidence) == intro_verdict(*self, *context.rgb),
            r.reasoning@ == "Intro detection: text="@ + bool_text(text_signals(self.text_detector, *context.rgb).len() > 0)
                + ", dialog="@ + bool_text(has_dialog_box(*context.rgb)),
    {
        let start_time = instant_now();
        let text = self.text_detector.detect(context);
        let has_text = text.result.len() > 0;
        let has_dialog = self.detect_dialog_box(context);
        let confidence: u64 = if has_text && has_dialog { 900 } else if has_text || has_dialog { 600 } else { 100 };
        let scene = if confidence > 500 { Scene::Intro } else { Scene::Unknown };
        let mut reasoning = "Intro detection: text=".to_owned();
        reasoning.append(bool_str(has_text));
        reasoning.append(", dialog=");
        reasoning.append(bool_str(has_dialog));
        DetectionResult::new(scene, confidence, reasoning).with_timing(&start_time)
    }

    pub fn name(&self) -> (r: &'static str)
        ensures r@ == "IntroSceneDetector"@,
    {
        proof { reveal_strlit("IntroSceneDetector"); }
        "IntroSceneDetector"
    }

    pub fn supported_scenes(&self) -> (r: Vec<Scene>)
        ensures r@ == seq![Scene::Intro],
    {
        let v = vec![Scene::Intro];
        v
    }
}

// ----------------------------------------------------------- name creation

/// A jump of more than 40 in brightness from the sample 12 pixels to the
/// left.
pub open spec fn grid_jump(img: RgbBuffer, x: int, y: int) -> bool {
    match (px(img, x, y), px(img, x - 12, y)) {
        (Some(c), Some(d)) => (if bright(c) >= bright(d) { bright(c) - bright(d) } else { bright(d) - bright(c) }) > 40,
        _ => false,
    }
}

/// A character grid: over the centre half, sampled every 16 rows and 12
/// columns, more than 30% of the samples jump in brightness from the one
/// before them in their row.
pub open spec fn has_character_grid(img: RgbBuffer) -> bool {
    let w = img.spec_width() as int;
    let h = img.spec_height() as int;
    let jumps = tally2(h / 4, h * 3 / 4, 16, w / 4 + 12, w * 3 / 4, 12, |x: int, y: int| grid_jump(img, x, y));
    let total = tally2(h / 4, h * 3 / 4, 16, w / 4, w * 3 / 4, 12, |x: int, y: int| inside_at(img, x, y));
    total > 0 && 10 * jumps > 3 * total
}

/// A text-like sample: darker than 60 or lighter than 220.
pub open spec fn prompt_pixel(img: RgbBuffer, x: int, y: int) -> bool {
    match px(img, x, y) {
        Some(c) => bright(c) < 60 || bright(c) > 220,
        None => false,
    }
}

/// A name prompt: over the top third, sampled every fourth pixel, more
/// than 20% of the samples look like text.
pub open spec fn has_name_prompt(img: RgbBuffer) -> bool {
    let w = img.spec_width() as int;
    let h = img.spec_height() as int;
    let dense = tally2(0, h / 3, 4, 0, w, 4, |x: int, y: int| prompt_pixel(img, x, y));
    let total = tally2(0, h / 3, 4, 0, w, 4, |x: int, y: int| inside_at(img, x, y));
    total > 0 && 10 * dense > 2 * total
}

/// The dark-run scan of row `y` after its first `n` samples (every second
/// pixel): the length of the current run of samples darker than 80 and the
/// runs longer than 8 closed so far.
pub open spec fn slot_scan(img: RgbBuffer, y: int, n: nat) -> (nat, nat)
    decreases n,
{
    if n == 0 {
        (0, 0)
    } else {
        let s = slot_scan(img, y, (n - 1) as nat);
        match px(img, 2 * (n - 1), y) {
            Some(c) => if bright(c) < 80 { (s.0 + 1, s.1) } else { (0, s.1 + if s.0 > 8 { 1nat } else { 0nat }) },
            None => s,
        }
    }
}

/// A row with at least three dark runs longer than 8 samples.
pub open spec fn slot_row(img: RgbBuffer, y: int) -> bool {
    let s = slot_scan(img, y, ((img.spec_width() + 1) / 2) as nat);
    s.1 + (if s.0 > 8 { 1nat } else { 0nat }) >= 3
}

/// Character slots: some row, sampled every eight pixels across the middle
/// third, has at least three long dark runs.
pub open spec fn has_character_slots(img: RgbBuffer) -> bool {
    let h = img.spec_height() as int;
    tally(h / 3, h * 2 / 3, 8, |y: int| slot_row(img, y)) > 0
}

fn is_slot_row(img: &RgbBuffer, y: u64) -> (r: bool)
    ensures r == slot_row(*img, y as int),
{
    proof { crate::raster::lemma_dims_bounded(*img); }
    let w = img.width() as u64;
    let n_samples = (w + 1) / 2;
    let mut run: u64 = 0;
    let mut segs: u64 = 0;
    let mut n: u64 = 0;
    while n < n_samples
        invariant
            n <= n_samples,
            n_samples == (img.spec_width() + 1) / 2,
            w == img.spec_width(),
            w <= u32::MAX,
            (run as nat, segs as nat) == slot_scan(*img, y as int, n as nat),
            run <= n,
            segs <= n,
        decreases n_samples - n,
    {
        match pixel_at(img, 2 * n, y) {
            Some(c) => {
                if (c.0 as u16 + c.1 as u16 + c.2 as u16) / 3 < 80 {
                    run = run + 1;
                } else {
                    if run > 8 {
                        segs = segs + 1;
                    }
                    run = 0;
                }
            },
            None => {},
        }
        n = n + 1;
    }
    let total = segs + if run > 8 { 1 } else { 0 };
    total >= 3
}

/// Name creation: a grid and a prompt 950, a grid with text or a menu 850,
/// a prompt with a menu 750, slots with text 650, text with a menu 400,
/// else 100.
pub open spec fn name_confidence(grid: bool, prompt: bool, slots: bool, text: bool, menu: bool) -> u64 {
    if grid && prompt {
        950
    } else if grid && (text || menu) {
        850
    } else if prompt && menu {
        750
    } else if slots && text {
        650
    } else if text && menu {
        400
    } else {
        100
    }
}

/// Detects the name entry screen by its character grid, prompt and slots.
#[derive(Clone, Copy, Debug, PartialEq, Eq, Structural)]
pub struct NameCreationSceneDetector {
    pub text_detector: TextDetector,
    pub menu_detector: MenuDetector,
}

pub open spec fn name_verdict(d: NameCreationSceneDetector, img: RgbBuffer) -> (Scene, u64) {
    verdict(
        Scene::NameCreation,
        name_confidence(
            has_character_grid(img),
            has_name_prompt(img),
            has_character_slots(img),
            text_signals(d.text_detector, img).len() > 0,
            menu_signals(d.menu_detector, img).len() > 0,
        ),
        600,
    )
}

impl NameCreationSceneDetector {
    /// Text at a contrast above 70.
    pub fn new() -> (r: NameCreationSceneDetector)
        ensures r == (NameCreationSceneDetector { text_detector: TextDetector { contrast_threshold: 70, ..default_text() }, menu_detector: default_menu() }),
    {
        NameCreationSceneDetector { text_detector: TextDetector::new().with_threshold(70), menu_detector: MenuDetector::new() }
    }

    pub fn detect_character_grid(&self, context: &DetectionContext) -> (r: bool)
        ensures r == has_character_grid(*context.rgb),
    {
        proof { crate::raster::lemma_dims_bounded(*context.rgb); }
        let img = context.rgb;
        let w = img.width() as u64;
        let h = img.height() as u64;
        let f = |x: u64, y: u64| -> (b: bool)
            ensures b == grid_jump(*img, x as int, y as int),
        {
            if x < 12 {
                return false;
            }
            match (pixel_at(img, x, y), pixel_at(img, x - 12, y)) {
                (Some(c), Some(d)) => {
                    let bc = (c.0 as u16 + c.1 as u16 + c.2 as u16) / 3;
                    let bd = (d.0 as u16 + d.1 as u16 + d.2 as u16) / 3;
                    let diff = if bc >= bd { bc - bd } else { bd - bc };
                    diff > 40
                },
                _ => false,
            }
        };
        let g = |x: u64, y: u64| -> (b: bool)
            ensures b == inside_at(*img, x as int, y as int),
        {
            pixel_at(img, x, y).is_some()
        };
        let jumps = count_grid(h / 4, h * 3 / 4, 16, w / 4 + 12, w * 3 / 4, 12, &f, Ghost(|x: int, y: int| grid_jump(*img, x, y)));
        let total = count_grid(h / 4, h * 3 / 4, 16, w / 4, w * 3 / 4, 12, &g, Ghost(|x: int, y: int| inside_at(*img, x, y)));
        total > 0 && (jumps as u128) * 10 > (total as u128) * 3
    }

    pub fn detect_name_prompt(&self, context: &DetectionContext) -> (r: bool)
        ensures r == has_name_prompt(*context.rgb),
    {
        proof { crate::raster::lemma_dims_bounded(*context.rgb); }
        let img = context.rgb;
        let w = img.width() as u64;
        let h = img.height() as u64;
        let f = |x: u64, y: u64| -> (b: bool)
            ensures b == prompt_pixel(*img, x as int, y as int),
        {
            match pixel_at(img, x, y) {
                Some(c) => {
                    let v = (c.0 as u16 + c.1 as u16 + c.2 as u16) / 3;
                    v < 60 || v > 220
                },
                None => false,
            }
        };
        let g = |x: u64, y: u64| -> (b: bool)
            ensures b == inside_at(*img, x as int, y as int),
        {
            pixel_at(img, x, y).is_some()
        };
        let dense = count_grid(0, h / 3, 4, 0, w, 4, &f, Ghost(|x: int, y: int| prompt_pixel(*img, x, y)));
        let total = count_grid(0, h / 3, 4, 0, w, 4, &g, Ghost(|x: int, y: int| inside_at(*img, x, y)));
        total > 0 && (dense as u128) * 10 > (total as u128) * 2
    }

    pub fn detect_character_slots(&self, context: &DetectionContext) -> (r: bool)
        ensures r == has_character_slots(*context.rgb),
    {
        proof { crate::raster::lemma_dims_bounded(*context.rgb); }
        let img = context.rgb;
        let h = img.height() as u64;
        let f = |y: u64| -> (b: bool)
            ensures b == slot_row(*img, y as int),
        {
            is_slot_row(img, y)
        };
        let n = count_1d(h / 3, h * 2 / 3, 8, &f, Ghost(|y: int| slot_row(*img, y)));
        n > 0
    }

    pub fn detect_scene(&self, context: &DetectionContext) -> (r: DetectionResult<Scene>)
        ensures
            (r.result, r.confidence) == name_verdict(*self, *context.rgb),
            r.reasoning@ == "Name creation detection: grid="@ + bool_text(has_character_grid(*context.rgb))
                + ", prompt="@ + bool_text(has_name_prompt(*context.rgb))
                + ", slots="@ + bool_text(has_character_slots(*context.rgb))
                + ", text="@ + bool_text(text_signals(self.text_detector, *context.rgb).len() > 0)
                + ", menu="@ + bool_text(menu_signals(self.menu_detector, *context.rgb).len() > 0),
    {
        let start_time = instant_now();
        let text = self.text_detector.detect(context);
        let has_text = text.result.len() > 0;
        let menu = self.menu_detector.detect(context);
        let has_menu = menu.result.len() > 0;
        let grid = self.detect_character_grid(context);
        let prompt = self.detect_name_prompt(context);
        let slots = self.detect_character_slots(context);
        let confidence: u64 = if grid && prompt {
            950
        } else if grid && (has_text || has_menu) {
            850
        } else if prompt && has_menu {
            750
        } else if slots && has_text {
            650
        } else if has_text && has_menu {
            400
        } else {
            100
        };
        let scene = if confidence > 600 { Scene::NameCreation } else { Scene::Unknown };
        let mut reasoning = "Name creation detection: grid=".to_owned();
        reasoning.append(bool_str(grid));
        reasoning.append(", prompt=");
        reasoning.append(bool_str(prompt));
        reasoning.append(", slots=");
        reasoning.append(bool_str(slots));
        reasoning.append(", text=");
        reasoning.append(bool_str(has_text));
        reasoning.append(", menu=");
        reasoning.append(bool_str(has_menu));
        DetectionResult::new(scene, confidence, reasoning).with_timing(&start_time)
    }

    pub fn name(&self) -> (r: &'static str)
        ensures r@ == "NameCreationSceneDetector"@,
    {
        proof { reveal_strlit("NameCreationSceneDetector"); }
        "NameCreationSceneDetector"
    }

    pub fn supported_scenes(&self) -> (r: Vec<Scene>)
        ensures r@ == seq![Scene::NameCreation],
    {
        let v = vec![Scene::NameCreation];
        v
    }
}

// ------------------------------------------------------------ state

/// The kind of place in a scene, from the signals found: only the
/// overworld has one, the first of Pokémon Center, gym, cave, city, town,
/// building and water that was signalled, else a route.
pub open spec fn location_of(scene: Scene, found: Seq<crate::detection::DetectionSignal>) -> LocationType {
    if scene != Scene::Overworld {
        LocationType::Unknown
    } else if has_signal_type(found, DetectionSignalType::PokemonCenter) {
        LocationType::PokemonCenter
    } else if has_signal_type(found, DetectionSignalType::Gym) {
        LocationType::Gym
    } else if has_signal_type(found, DetectionSignalType::Cave) {
        LocationType::Cave
    } else if has_signal_type(found, DetectionSignalType::City) {
        LocationType::City
    } else if has_signal_type(found, DetectionSignalType::Town) {
        LocationType::Town
    } else if has_signal_type(found, DetectionSignalType::Building) {
        LocationType::Building
    } else if has_signal_type(found, DetectionSignalType::Water) {
        LocationType::Water
    } else {
        LocationType::Route
    }
}

/// The state read off a frame in a scene: the place and whether the player
/// stands in tall grass; everything else as in a fresh state.
pub open spec fn analyzed_state(scene: Scene, found: Seq<crate::detection::DetectionSignal>) -> State {
    State {
        location_type: location_of(scene, found),
        in_tall_grass: has_signal_type(found, DetectionSignalType::TallGrass),
        ..spec_default_state(scene)
    }
}

/// Reads the game state off the signals of a frame.
#[derive(Clone, Copy, Debug, PartialEq, Eq, Structural)]
pub struct PokemonStateAnalyzer {
    pub location_detector: LocationDetector,
    pub environment_detector: EnvironmentDetector,
}

impl PokemonStateAnalyzer {
    pub fn new() -> (r: PokemonStateAnalyzer)
        ensures r == (PokemonStateAnalyzer { location_detector: LocationDetector { confidence_threshold: 600 }, environment_detector: default_environment() }),
    {
        PokemonStateAnalyzer { location_detector: LocationDetector::new(), environment_detector: EnvironmentDetector::new() }
    }

    pub fn detect_location_type(&self, context: &DetectionContext, scene: Scene) -> (r: LocationType)
        ensures r == location_of(scene, context.previous_signals@),
    {
        match scene {
            Scene::Overworld => {
                if context.has_signal(DetectionSignalType::PokemonCenter) {
                    LocationType::PokemonCenter
                } else if context.has_signal(DetectionSignalType::Gym) {
                    LocationType::Gym
                } else if context.has_signal(DetectionSignalType::Cave) {
                    LocationType::Cave
                } else if context.has_signal(DetectionSignalType::City) {
                    LocationType::City
                } else if context.has_signal(DetectionSignalType::Town) {
                    LocationType::Town
                } else if context.has_signal(DetectionSignalType::Building) {
                    LocationType::Building
                } else if context.has_signal(DetectionSignalType::Water) {
                    LocationType::Water
                } else {
                    LocationType::Route
                }
            },
            _ => LocationType::Unknown,
        }
    }

    /// The state for a scene, with confidence 800.
    pub fn analyze_state(&self, context: &DetectionContext, scene: Scene) -> (r: DetectionResult<State>)
        ensures
            r.result == analyzed_state(scene, context.previous_signals@),
            r.confidence == 800,
            r.reasoning@ == "State analysis for "@ + scene_text(scene) + " scene"@,
    {
        let start_time = instant_now();
        let location_type = self.detect_location_type(context, scene);
        let in_tall_grass = context.has_signal(DetectionSignalType::TallGrass);
        let state = State { location_type, in_tall_grass, ..State::new(scene) };
        let mut reasoning = "State analysis for ".to_owned();
        reasoning.append(scene_str(scene));
        reasoning.append(" scene");
        DetectionResult::new(state, 800, reasoning).with_timing(&start_time)
    }

    pub fn name(&self) -> (r: &'static str)
        ensures r@ == "PokemonStateAnalyzer"@,
    {
        proof { reveal_strlit("PokemonStateAnalyzer"); }
        "PokemonStateAnalyzer"
    }
}

/// One of the scene detectors.
#[derive(Clone, Copy, Debug, PartialEq, Eq, Structural)]
pub enum SceneDetector {
    Battle(BattleSceneDetector),
    Menu(MenuSceneDetector),
    Overworld(OverworldSceneDetector),
    Intro(IntroSceneDetector),
    NameCreation(NameCreationSceneDetector),
}

/// A scene detector's answer for a frame with the signals found so far.
pub open spec fn scene_verdict(d: SceneDetector, img: RgbBuffer, found: Seq<crate::detection::DetectionSignal>) -> (Scene, u64) {
    match d {
        SceneDetector::Battle(b) => battle_verdict(b, img),
        SceneDetector::Menu(m) => menu_verdict(m, img),
        SceneDetector::Overworld(o) => overworld_verdict(o, img, found),
        SceneDetector::Intro(i) => intro_verdict(i, img),
        SceneDetector::NameCreation(n) => name_verdict(n, img),
    }
}

/// How a scene detector explains its answer for a frame with the signals
/// found so far.
pub open spec fn scene_reasoning(d: SceneDetector, img: RgbBuffer, found: Seq<crate::detection::DetectionSignal>) -> Seq<char> {
    match d {
        SceneDetector::Battle(b) => "Battle detection: HP bars="@ + bool_text(hp_signals(b.hp_bar_detector, img).len() > 0)
            + ", menu="@ + bool_text(menu_signals(b.menu_detector, img).len() > 0),
        SceneDetector::Menu(m) => "Menu detection: text="@ + bool_text(text_signals(m.text_detector, img).len() > 0)
            + ", layout="@ + bool_text(has_menu_layout(img)),
        SceneDetector::Overworld(o) => "Overworld detection: location="@ + bool_text(location_signals(img).len() > 0)
            + ", env="@ + bool_text(environment_signals(o.environment_detector, img).len() > 0)
            + ", no_ui="@ + bool_text(!has_ui(found)),
        SceneDetector::Intro(i) => "Intro detection: text="@ + bool_text(text_signals(i.text_detector, img).len() > 0)
            + ", dialog="@ + bool_text(has_dialog_box(img)),
        SceneDetector::NameCreation(n) => "Name creation detection: grid="@ + bool_text(has_character_grid(img))
            + ", prompt="@ + bool_text(has_name_prompt(img))
            + ", slots="@ + bool_text(has_character_slots(img))
            + ", text="@ + bool_text(text_signals(n.text_detector, img).len() > 0)
            + ", menu="@ + bool_text(menu_signals(n.menu_detector, img).len() > 0),
    }
}

impl SceneDetector {
    pub fn detect_scene(&self, context: &DetectionContext) -> (r: DetectionResult<Scene>)
        ensures
            (r.result, r.confidence) == scene_verdict(*self, *context.rgb, context.previous_signals@),
            r.reasoning@ == scene_reasoning(*self, *context.rgb, context.previous_signals@),
    {
        match self {
            SceneDetector::Battle(d) => d.detect_scene(context),
            SceneDetector::Menu(d) => d.detect_scene(context),
            SceneDetector::Overworld(d) => d.detect_scene(context),
            SceneDetector::Intro(d) => d.detect_scene(context),
            SceneDetector::NameCreation(d) => d.detect_scene(context),
        }
    }

    pub fn name(&self) -> (r: &'static str)
        ensures
            r@ == (match *self {
                SceneDetector::Battle(_) => "BattleSceneDetector"@,
                SceneDetector::Menu(_) => "MenuSceneDetector"@,
                SceneDetector::Overworld(_) => "OverworldSceneDetector"@,
                SceneDetector::Intro(_) => "IntroSceneDetector"@,
                SceneDetector::NameCreation(_) => "NameCreationSceneDetector"@,
            }),
    {
        match self {
            SceneDetector::Battle(d) => d.name(),
            SceneDetector::Menu(d) => d.name(),
            SceneDetector::Overworld(d) => d.name(),
            SceneDetector::Intro(d) => d.name(),
            SceneDetector::NameCreation(d) => d.name(),
        }
    }
}

/// Battle confidence grows with the evidence: HP bars and a battle menu
/// together count for more than either alone, either alone for more than
/// none; any of it makes the verdict a battle, none leaves it unknown.
pub proof fn lemma_battle_evidence_monotone(hp: bool, menu: bool, hp2: bool, menu2: bool)
    ensures
        (hp ==> hp2) && (menu ==> menu2) ==> battle_confidence(hp, menu) <= battle_confidence(hp2, menu2),
        battle_confidence(true, true) > battle_confidence(true, false),
        battle_confidence(true, false) > battle_confidence(false, true),
        battle_confidence(false, true) > battle_confidence(false, false),
        verdict(Scene::Battle, battle_confidence(hp, menu), 500).0 == (if hp || menu { Scene::Battle } else { Scene::Unknown }),
{
}

/// A frame in which the battle detector's HP-bar detector finds a bar and
/// its menu detector a menu is judged a battle, with at least the
/// confidence that HP bars alone give.
pub proof fn lemma_battle_screen_is_battle(d: BattleSceneDetector, img: RgbBuffer)
    requires
        hp_signals(d.hp_bar_detector, img).len() > 0,
        menu_signals(d.menu_detector, img).len() > 0,
    ensures
        battle_verdict(d, img).0 == Scene::Battle,
        battle_verdict(d, img).1 >= battle_confidence(true, false),
        battle_verdict(d, img).1 > 900,
{
}

/// Menu confidence grows with the evidence; the verdict is the main menu
/// exactly when a menu layout shows.
pub proof fn lemma_menu_evidence_monotone(text: bool, layout: bool, text2: bool, layout2: bool)
    ensures
        (text ==> text2) && (layout ==> layout2) ==> menu_confidence(text, layout) <= menu_confidence(text2, layout2),
        menu_confidence(true, true) > menu_confidence(false, true),
        verdict(Scene::MainMenu, menu_confidence(text, layout), 500).0 == (if layout { Scene::MainMenu } else { Scene::Unknown }),
{
}

/// Overworld confidence falls with UI on screen and grows with places and
/// surroundings; the verdict is the overworld exactly when no UI shows.
pub proof fn lemma_overworld_evidence_monotone(ui: bool, loc: bool, env: bool, ui2: bool, loc2: bool, env2: bool)
    ensures
        (ui2 ==> ui) && (loc ==> loc2) && (env ==> env2) ==> overworld_confidence(ui, loc, env) <= overworld_confidence(ui2, loc2, env2),
        overworld_confidence(false, true, false) > overworld_confidence(false, false, false),
        overworld_confidence(false, false, false) > overworld_confidence(true, true, true),
        verdict(Scene::Overworld, overworld_confidence(ui, loc, env), 400).0 == (if !ui { Scene::Overworld } else { Scene::Unknown }),
{
}

/// Intro confidence grows with text and a dialog box; either makes the
/// verdict the intro, neither leaves it unknown.
pub proof fn lemma_intro_evidence_monotone(text: bool, dialog: bool, text2: bool, dialog2: bool)
    ensures
        (text ==> text2) && (dialog ==> dialog2) ==> intro_confidence(text, dialog) <= intro_confidence(text2, dialog2),
        intro_confidence(true, true) > intro_confidence(true, false),
        intro_confidence(true, false) == intro_confidence(false, true),
        intro_confidence(false, true) > intro_confidence(false, false),
        verdict(Scene::Intro, intro_confidence(text, dialog), 500).0 == (if text || dialog { Scene::Intro } else { Scene::Unknown }),
{
}

/// Name-entry confidence never falls when more evidence shows; the verdict
/// is name entry exactly when the character grid shows with the prompt,
/// text or a menu, the prompt with a menu, or the slots with text.
pub proof fn lemma_name_evidence_monotone(
    g: bool, p: bool, s: bool, t: bool, m: bool,
    g2: bool, p2: bool, s2: bool, t2: bool, m2: bool,
)
    ensures
        (g ==> g2) && (p ==> p2) && (s ==> s2) && (t ==> t2) && (m ==> m2)
            ==> name_confidence(g, p, s, t, m) <= name_confidence(g2, p2, s2, t2, m2),
        name_confidence(true, true, false, false, false) > name_confidence(true, false, false, true, true),
        verdict(Scene::NameCreation, name_confidence(g, p, s, t, m), 600).0 == (
            if (g && p) || (g && (t || m)) || (p && m) || (s && t) { Scene::NameCreation } else { Scene::Unknown }),
{
}

} // verus!
