//! Tunable parameters of scene analysis, with presets for speed, accuracy
//! and Pokémon games. Sensitivity and thresholds are in thousandths.

use vstd::prelude::*;

verus! {

/// The detectors that can be enabled.
#[derive(Clone, Copy, Debug, PartialEq, Eq, Structural)]
pub enum DetectorType {
    HPBar,
    BattleMenu,
    MainMenu,
    DialogBox,
    TextBlock,
    MenuCursor,
    TallGrass,
    Water,
    Indoor,
    PokemonCenter,
    Gym,
    Cave,
    City,
    Town,
    Route,
    Building,
    Shiny,
    Pokemon,
    BagMenu,
}

/// How frames are sampled.
#[derive(Clone, Copy, Debug, PartialEq, Eq, Structural)]
pub struct RegionSamplingConfig {
    pub sample_step: u32,
    pub min_region_size: u32,
    pub max_regions_per_frame: usize,
    pub enable_adaptive_sampling: bool,
}

/// Colour thresholds of the detectors.
#[derive(Clone, Copy, Debug, PartialEq, Eq, Structural)]
pub struct ColorThresholds {
    pub hp_bar_green_threshold: u8,
    pub hp_bar_red_threshold: u8,
    pub text_contrast_threshold: u8,
    pub menu_border_threshold: u8,
    pub grass_green_min: u8,
    pub water_blue_min: u8,
}

/// Speed against accuracy.
#[derive(Clone, Copy, Debug, PartialEq, Eq, Structural)]
pub enum PerformanceMode {
    Speed,
    Balanced,
    Accuracy,
}

/// Configuration of scene analysis.
#[derive(Debug)]
pub struct SceneAnalysisConfig {
    /// In thousandths.
    pub detection_sensitivity: u64,
    /// In thousandths.
    pub confidence_threshold: u64,
    pub enabled_detectors: Vec<DetectorType>,
    pub region_sampling: RegionSamplingConfig,
    pub color_thresholds: ColorThresholds,
    pub performance_mode: PerformanceMode,
}

/// Two configurations that agree field by field.
pub open spec fn same_config(a: SceneAnalysisConfig, b: SceneAnalysisConfig) -> bool {
    &&& a.detection_sensitivity == b.detection_sensitivity
    &&& a.confidence_threshold == b.confidence_threshold
    &&& a.enabled_detectors@ == b.enabled_detectors@
    &&& a.region_sampling == b.region_sampling
    &&& a.color_thresholds == b.color_thresholds
    &&& a.performance_mode == b.performance_mode
}

impl Clone for SceneAnalysisConfig {
    fn clone(&self) -> (r: Self)
        ensures same_config(r, *self),
    {
        let d = self.enabled_detectors.clone();
        proof { assert(d@ =~= self.enabled_detectors@); }
        SceneAnalysisConfig {
            detection_sensitivity: self.detection_sensitivity,
            confidence_threshold: self.confidence_threshold,
            enabled_detectors: d,
            region_sampling: self.region_sampling,
            color_thresholds: self.color_thresholds,
            performance_mode: self.performance_mode,
        }
    }
}

pub open spec fn default_sampling() -> RegionSamplingConfig {
    RegionSamplingConfig { sample_step: 4, min_region_size: 16, max_regions_per_frame: 50, enable_adaptive_sampling: true }
}

pub open spec fn default_thresholds() -> ColorThresholds {
    ColorThresholds {
        hp_bar_green_threshold: 120,
        hp_bar_red_threshold: 130,
        text_contrast_threshold: 70,
        menu_border_threshold: 60,
        grass_green_min: 60,
        water_blue_min: 80,
    }
}

impl Default for RegionSamplingConfig {
    /// Every fourth pixel, regions of at least 16, up to 50 per frame,
    /// adaptive.
    fn default() -> (r: Self)
        ensures r == default_sampling(),
    {
        RegionSamplingConfig { sample_step: 4, min_region_size: 16, max_regions_per_frame: 50, enable_adaptive_sampling: true }
    }
}

impl Default for ColorThresholds {
    /// Thresholds lowered for the dual-screen palette.
    fn default() -> (r: Self)
        ensures r == default_thresholds(),
    {
        ColorThresholds {
            hp_bar_green_threshold: 120,
            hp_bar_red_threshold: 130,
            text_contrast_threshold: 70,
            menu_border_threshold: 60,
            grass_green_min: 60,
            water_blue_min: 80,
        }
    }
}

impl Default for SceneAnalysisConfig {
    /// Sensitivity 700, threshold 600, the HP bar, battle menu, main menu,
    /// dialog box and text block detectors, balanced.
    fn default() -> (r: Self)
        ensures
            r.detection_sensitivity == 700,
            r.confidence_threshold == 600,
            r.enabled_detectors@ == seq![DetectorType::HPBar, DetectorType::BattleMenu, DetectorType::MainMenu, DetectorType::DialogBox, DetectorType::TextBlock],
            r.region_sampling == default_sampling(),
            r.color_thresholds == default_thresholds(),
            r.performance_mode == PerformanceMode::Balanced,
    {
        let v = vec![DetectorType::HPBar, DetectorType::BattleMenu, DetectorType::MainMenu, DetectorType::DialogBox, DetectorType::TextBlock];
        SceneAnalysisConfig {
            detection_sensitivity: 700,
            confidence_threshold: 600,
            enabled_detectors: v,
            region_sampling: RegionSamplingConfig::default(),
            color_thresholds: ColorThresholds::default(),
            performance_mode: PerformanceMode::Balanced,
        }
    }
}

/// What is wrong with a configuration, checked in this order.
pub open spec fn config_error(c: SceneAnalysisConfig) -> Option<Seq<char>> {
    if c.detection_sensitivity > 1000 {
        Some("Detection sensitivity must be between 0.0 and 1.0"@)
    } else if c.confidence_threshold > 1000 {
        Some("Confidence threshold must be between 0.0 and 1.0"@)
    } else if c.enabled_detectors@.len() == 0 {
        Some("At least one detector must be enabled"@)
    } else if c.region_sampling.sample_step == 0 {
        Some("Sample step must be greater than 0"@)
    } else {
        None
    }
}

/// `c` is the default preset: sensitivity 700, threshold 600, the HP bar,
/// battle menu, main menu, dialog box and text block detectors, default
/// sampling and thresholds, balanced.
pub open spec fn is_default_preset(c: SceneAnalysisConfig) -> bool {
    &&& c.detection_sensitivity == 700
    &&& c.confidence_threshold == 600
    &&& c.enabled_detectors@ == seq![DetectorType::HPBar, DetectorType::BattleMenu, DetectorType::MainMenu, DetectorType::DialogBox, DetectorType::TextBlock]
    &&& c.region_sampling == default_sampling()
    &&& c.color_thresholds == default_thresholds()
    &&& c.performance_mode == PerformanceMode::Balanced
}

/// `c` is the speed preset of `speed_optimized`.
pub open spec fn is_speed_preset(c: SceneAnalysisConfig) -> bool {
    &&& c.detection_sensitivity == 500
    &&& c.confidence_threshold == 500
    &&& c.enabled_detectors@ == seq![DetectorType::MainMenu, DetectorType::DialogBox, DetectorType::BattleMenu]
    &&& c.region_sampling == (RegionSamplingConfig { sample_step: 8, min_region_size: 32, max_regions_per_frame: 20, enable_adaptive_sampling: false })
    &&& c.color_thresholds == default_thresholds()
    &&& c.performance_mode == PerformanceMode::Speed
}

/// `c` is the accuracy preset of `accuracy_optimized`.
pub open spec fn is_accuracy_preset(c: SceneAnalysisConfig) -> bool {
    &&& c.detection_sensitivity == 900
    &&& c.confidence_threshold == 800
    &&& c.enabled_detectors@ == seq![
        DetectorType::HPBar, DetectorType::BattleMenu, DetectorType::MainMenu, DetectorType::DialogBox,
        DetectorType::TextBlock, DetectorType::MenuCursor, DetectorType::TallGrass, DetectorType::Water,
        DetectorType::Indoor, DetectorType::PokemonCenter, DetectorType::Gym, DetectorType::Cave,
        DetectorType::City, DetectorType::Town, DetectorType::Route, DetectorType::Building,
        DetectorType::Shiny, DetectorType::Pokemon, DetectorType::BagMenu,
    ]
    &&& c.region_sampling == (RegionSamplingConfig { sample_step: 2, min_region_size: 8, max_regions_per_frame: 100, enable_adaptive_sampling: true })
    &&& c.color_thresholds == default_thresholds()
    &&& c.performance_mode == PerformanceMode::Accuracy
}

/// `c` is the Pokémon preset of `pokemon_optimized`.
pub open spec fn is_pokemon_preset(c: SceneAnalysisConfig) -> bool {
    &&& c.detection_sensitivity == 800
    &&& c.confidence_threshold == 700
    &&& c.enabled_detectors@ == seq![
        DetectorType::HPBar, DetectorType::BattleMenu, DetectorType::MainMenu, DetectorType::DialogBox,
        DetectorType::TallGrass, DetectorType::PokemonCenter, DetectorType::Gym, DetectorType::Shiny,
        DetectorType::Pokemon, DetectorType::BagMenu, DetectorType::MenuCursor,
    ]
    &&& c.region_sampling == default_sampling()
    &&& c.color_thresholds == (ColorThresholds {
        hp_bar_green_threshold: 140,
        hp_bar_red_threshold: 140,
        text_contrast_threshold: 90,
        menu_border_threshold: 70,
        grass_green_min: 80,
        water_blue_min: 100,
    })
    &&& c.performance_mode == PerformanceMode::Balanced
}

/// The detector list after enabling `t`: appended unless already there.
pub open spec fn enabled_with(s: Seq<DetectorType>, t: DetectorType) -> Seq<DetectorType> {
    if s.contains(t) { s } else { s.push(t) }
}

/// The detector list after disabling `t`: every occurrence removed.
pub open spec fn enabled_without(s: Seq<DetectorType>, t: DetectorType) -> Seq<DetectorType> {
    s.filter(other_than(t))
}

/// Every detector type but `t`.
pub open spec fn other_than(t: DetectorType) -> spec_fn(DetectorType) -> bool {
    |d: DetectorType| d != t
}

impl SceneAnalysisConfig {
    /// Sensitivity and threshold 500; main menu, dialog box and battle menu
    /// detectors; coarse sampling; speed.
    pub fn speed_optimized() -> (r: SceneAnalysisConfig)
        ensures
            r.detection_sensitivity == 500,
            r.confidence_threshold == 500,
            r.enabled_detectors@ == seq![DetectorType::MainMenu, DetectorType::DialogBox, DetectorType::BattleMenu],
            r.region_sampling == (RegionSamplingConfig { sample_step: 8, min_region_size: 32, max_regions_per_frame: 20, enable_adaptive_sampling: false }),
            r.color_thresholds == default_thresholds(),
            r.performance_mode == PerformanceMode::Speed,
    {
        SceneAnalysisConfig {
            detection_sensitivity: 500,
            confidence_threshold: 500,
            enabled_detectors: vec![DetectorType::MainMenu, DetectorType::DialogBox, DetectorType::BattleMenu],
            region_sampling: RegionSamplingConfig { sample_step: 8, min_region_size: 32, max_regions_per_frame: 20, enable_adaptive_sampling: false },
            color_thresholds: ColorThresholds::default(),
            performance_mode: PerformanceMode::Speed,
        }
    }

    /// Sensitivity 900, threshold 800; every detector; fine sampling;
    /// accuracy.
    pub fn accuracy_optimized() -> (r: SceneAnalysisConfig)
        ensures
            r.detection_sensitivity == 900,
            r.confidence_threshold == 800,
            r.enabled_detectors@ == seq![
                DetectorType::HPBar, DetectorType::BattleMenu, DetectorType::MainMenu, DetectorType::DialogBox,
                DetectorType::TextBlock, DetectorType::MenuCursor, DetectorType::TallGrass, DetectorType::Water,
                DetectorType::Indoor, DetectorType::PokemonCenter, DetectorType::Gym, DetectorType::Cave,
                DetectorType::City, DetectorType::Town, DetectorType::Route, DetectorType::Building,
                DetectorType::Shiny, DetectorType::Pokemon, DetectorType::BagMenu,
            ],
            r.region_sampling == (RegionSamplingConfig { sample_step: 2, min_region_size: 8, max_regions_per_frame: 100, enable_adaptive_sampling: true }),
            r.color_thresholds == default_thresholds(),
            r.performance_mode == PerformanceMode::Accuracy,
    {
        SceneAnalysisConfig {
            detection_sensitivity: 900,
            confidence_threshold: 800,
            enabled_detectors: vec![
                DetectorType::HPBar, DetectorType::BattleMenu, DetectorType::MainMenu, DetectorType::DialogBox,
                DetectorType::TextBlock, DetectorType::MenuCursor, DetectorType::TallGrass, DetectorType::Water,
                DetectorType::Indoor, DetectorType::PokemonCenter, DetectorType::Gym, DetectorType::Cave,
                DetectorType::City, DetectorType::Town, DetectorType::Route, DetectorType::Building,
                DetectorType::Shiny, DetectorType::Pokemon, DetectorType::BagMenu,
            ],
            region_sampling: RegionSamplingConfig { sample_step: 2, min_region_size: 8, max_regions_per_frame: 100, enable_adaptive_sampling: true },
            color_thresholds: ColorThresholds::default(),
            performance_mode: PerformanceMode::Accuracy,
        }
    }

    /// Sensitivity 800, threshold 700; the detectors a Pokémon game needs;
    /// stricter colour thresholds; balanced.
    pub fn pokemon_optimized() -> (r: SceneAnalysisConfig)
        ensures
            r.detection_sensitivity == 800,
            r.confidence_threshold == 700,
            r.enabled_detectors@ == seq![
                DetectorType::HPBar, DetectorType::BattleMenu, DetectorType::MainMenu, DetectorType::DialogBox,
                DetectorType::TallGrass, DetectorType::PokemonCenter, DetectorType::Gym, DetectorType::Shiny,
                DetectorType::Pokemon, DetectorType::BagMenu, DetectorType::MenuCursor,
            ],
            r.region_sampling == default_sampling(),
            r.color_thresholds == (ColorThresholds {
                hp_bar_green_threshold: 140,
                hp_bar_red_threshold: 140,
                text_contrast_threshold: 90,
                menu_border_threshold: 70,
                grass_green_min: 80,
                water_blue_min: 100,
            }),
            r.performance_mode == PerformanceMode::Balanced,
    {
        SceneAnalysisConfig {
            detection_sensitivity: 800,
            confidence_threshold: 700,
            enabled_detectors: vec![
                DetectorType::HPBar, DetectorType::BattleMenu, DetectorType::MainMenu, DetectorType::DialogBox,
                DetectorType::TallGrass, DetectorType::PokemonCenter, DetectorType::Gym, DetectorType::Shiny,
                DetectorType::Pokemon, DetectorType::BagMenu, DetectorType::MenuCursor,
            ],
            region_sampling: RegionSamplingConfig::default(),
            color_thresholds: ColorThresholds {
                hp_bar_green_threshold: 140,
                hp_bar_red_threshold: 140,
                text_contrast_threshold: 90,
                menu_border_threshold: 70,
                grass_green_min: 80,
                water_blue_min: 100,
            },
            performance_mode: PerformanceMode::Balanced,
        }
    }

    /// `Ok` when the sensitivity and the threshold are at most 1000, some
    /// detector is enabled and the sample step is positive; otherwise the
    /// first of these that fails, as a message.
    pub fn validate(&self) -> (r: Result<(), String>)
        ensures
            match r {
                Ok(()) => config_error(*self) is None,
                Err(e) => config_error(*self) == Some(e@),
            },
    {
        proof {
            reveal_strlit("Detection sensitivity must be between 0.0 and 1.0");
            reveal_strlit("Confidence threshold must be between 0.0 and 1.0");
            reveal_strlit("At least one detector must be enabled");
            reveal_strlit("Sample step must be greater than 0");
        }
        if self.detection_sensitivity > 1000 {
            return Err("Detection sensitivity must be between 0.0 and 1.0".to_owned());
        }
        if self.confidence_threshold > 1000 {
            return Err("Confidence threshold must be between 0.0 and 1.0".to_owned());
        }
        if self.enabled_detectors.len() == 0 {
            return Err("At least one detector must be enabled".to_owned());
        }
        if self.region_sampling.sample_step == 0 {
            return Err("Sample step must be greater than 0".to_owned());
        }
        Ok(())
    }

    /// The same configuration with `t` enabled (appended if it was not).
    pub fn enable_detector(self, detector_type: DetectorType) -> (r: SceneAnalysisConfig)
        ensures
            r.enabled_detectors@ == enabled_with(self.enabled_detectors@, detector_type),
            r.detection_sensitivity == self.detection_sensitivity,
            r.confidence_threshold == self.confidence_threshold,
            r.region_sampling == self.region_sampling,
            r.color_thresholds == self.color_thresholds,
            r.performance_mode == self.performance_mode,
    {
        let mut c = self;
        let mut found = false;
        let mut i: usize = 0;
        while i < c.enabled_detectors.len()
            invariant
                i <= c.enabled_detectors@.len(),
                found == (exists|j: int| 0 <= j < i && c.enabled_detectors@[j] == detector_type),
            decreases c.enabled_detectors@.len() - i,
        {
            if c.enabled_detectors[i] == detector_type {
                found = true;
            }
            i = i + 1;
        }
        proof {
            if found {
                let j = choose|j: int| 0 <= j < i && c.enabled_detectors@[j] == detector_type;
                assert(c.enabled_detectors@.contains(detector_type));
            } else {
                assert(!c.enabled_detectors@.contains(detector_type));
            }
        }
        if !found {
            c.enabled_detectors.push(detector_type);
        }
        c
    }

    /// The same configuration with every occurrence of `t` removed.
    pub fn disable_detector(self, detector_type: DetectorType) -> (r: SceneAnalysisConfig)
        ensures
            r.enabled_detectors@ == enabled_without(self.enabled_detectors@, detector_type),
            r.detection_sensitivity == self.detection_sensitivity,
            r.confidence_threshold == self.confidence_threshold,
            r.region_sampling == self.region_sampling,
            r.color_thresholds == self.color_thresholds,
            r.performance_mode == self.performance_mode,
    {
        let ghost p = other_than(detector_type);
        let mut kept: Vec<DetectorType> = Vec::new();
        let mut i: usize = 0;
        while i < self.enabled_detectors.len()
            invariant
                i <= self.enabled_detectors@.len(),
                kept@ == self.enabled_detectors@.take(i as int).filter(p),
                p == other_than(detector_type),
            decreases self.enabled_detectors@.len() - i,
        {
            let d = self.enabled_detectors[i];
            proof {
                reveal(Seq::filter);
                assert(self.enabled_detectors@.take(i + 1).drop_last() =~= self.enabled_detectors@.take(i as int));
            }
            if d != detector_type {
                kept.push(d);
            }
            i = i + 1;
        }
        proof { assert(self.enabled_detectors@.take(i as int) =~= self.enabled_detectors@); }
        SceneAnalysisConfig { enabled_detectors: kept, ..self }
    }

    /// The same configuration in another performance mode.
    pub fn with_performance_mode(self, mode: PerformanceMode) -> (r: SceneAnalysisConfig)
        ensures r == (SceneAnalysisConfig { performance_mode: mode, ..self }),
    {
        SceneAnalysisConfig { performance_mode: mode, ..self }
    }

    /// The same configuration with the sensitivity set, held to at most
    /// 1000.
    pub fn with_sensitivity(self, sensitivity: u64) -> (r: SceneAnalysisConfig)
        ensures r == (SceneAnalysisConfig { detection_sensitivity: if sensitivity > 1000 { 1000 } else { sensitivity }, ..self }),
    {
        let s = if sensitivity > 1000 { 1000 } else { sensitivity };
        SceneAnalysisConfig { detection_sensitivity: s, ..self }
    }
}

/// Enabling a detector twice is enabling it once, and it is then enabled.
pub proof fn lemma_enable_idempotent(s: Seq<DetectorType>, t: DetectorType)
    ensures
        enabled_with(enabled_with(s, t), t) == enabled_with(s, t),
        enabled_with(s, t).contains(t),
{
    if !s.contains(t) {
        assert(s.push(t)[s.len() as int] == t);
    }
}

/// A disabled detector is gone, whatever was enabled before, and
/// disabling it after enabling it is the same as disabling it.
pub proof fn lemma_disable_removes(s: Seq<DetectorType>, t: DetectorType)
    ensures
        !enabled_without(s, t).contains(t),
        enabled_without(enabled_with(s, t), t) == enabled_without(s, t),
{
    let p = other_than(t);
    broadcast use vstd::seq_lib::group_filter_ensures;
    if enabled_without(s, t).contains(t) {
        let i = choose|i: int| 0 <= i < s.filter(p).len() && s.filter(p)[i] == t;
        assert(p(s.filter(p)[i]));
    }
    if !s.contains(t) {
        reveal(Seq::filter);
        assert(s.push(t).drop_last() =~= s);
        assert(s.push(t).filter(p) =~= s.filter(p));
    }
}

} // verus!
