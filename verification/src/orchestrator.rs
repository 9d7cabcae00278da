//! Scene analysis: a detection pipeline built from the configuration
//! gathers signals, scene detectors weigh them, and the best-supported
//! scene (when confident enough) and the game state read off the signals
//! are reported.

use vstd::prelude::*;
use crate::analysis_config::{SceneAnalysisConfig, DetectorType, PerformanceMode, config_error, same_config,
    is_default_preset, is_speed_preset, is_accuracy_preset, is_pokemon_preset};
use crate::analyzers::{HPBarDetector, MenuDetector, TextDetector, LocationDetector, EnvironmentDetector,
    default_hp_bar, default_menu, default_text, default_environment};
use crate::detection::{DetectionContext, DetectionSignal};
use crate::detection_pipeline::{DetectionPipeline, VisualDetector, PipelineStats, with_detector, run_detectors, detector_name, by_priority};
use crate::raster::RgbBuffer;
use crate::scene_detectors::{SceneDetector, BattleSceneDetector, MenuSceneDetector, OverworldSceneDetector, IntroSceneDetector,
    PokemonStateAnalyzer, scene_verdict, analyzed_state};
use crate::scene_annotation::annotated_state;
use crate::types::{EnrichedFrame, Scene, State};
use crate::error::{AppError, prefixed_message};

verus! {

/// The visual detector that serves a detector type, if any does.
pub open spec fn visual_for(t: DetectorType) -> Option<VisualDetector> {
    match t {
        DetectorType::HPBar => Some(VisualDetector::HPBar(default_hp_bar())),
        DetectorType::BattleMenu | DetectorType::MainMenu => Some(VisualDetector::Menu(default_menu())),
        DetectorType::TextBlock | DetectorType::DialogBox => Some(VisualDetector::Text(default_text())),
        DetectorType::PokemonCenter | DetectorType::Gym | DetectorType::Cave | DetectorType::City
        | DetectorType::Town | DetectorType::Route | DetectorType::Building =>
            Some(VisualDetector::Location(LocationDetector { confidence_threshold: 600 })),
        DetectorType::TallGrass | DetectorType::Water | DetectorType::Indoor =>
            Some(VisualDetector::Environment(default_environment())),
        _ => None,
    }
}

/// The pipeline's detectors for the enabled types: each type's detector
/// added in turn, in priority order.
pub open spec fn pipeline_detectors(types: Seq<DetectorType>) -> Seq<VisualDetector>
    decreases types.len(),
{
    if types.len() == 0 {
        Seq::empty()
    } else {
        let acc = pipeline_detectors(types.drop_last());
        match visual_for(types.last()) {
            Some(d) => with_detector(acc, d),
            None => acc,
        }
    }
}

/// Early termination and time budget for a performance mode.
pub open spec fn mode_settings(m: PerformanceMode) -> (bool, u64) {
    match m {
        PerformanceMode::Speed => (true, 5_000),
        PerformanceMode::Balanced => (true, 10_000),
        PerformanceMode::Accuracy => (false, 20_000),
    }
}

/// The scene detectors, in the order they are asked.
pub open spec fn standard_scene_detectors() -> Seq<SceneDetector> {
    seq![
        SceneDetector::Battle(BattleSceneDetector { hp_bar_detector: default_hp_bar(), menu_detector: default_menu() }),
        SceneDetector::Menu(MenuSceneDetector { text_detector: TextDetector { contrast_threshold: 90, ..default_text() } }),
        SceneDetector::Overworld(OverworldSceneDetector { location_detector: LocationDetector { confidence_threshold: 600 }, environment_detector: default_environment() }),
        SceneDetector::Intro(IntroSceneDetector { text_detector: TextDetector { contrast_threshold: 80, ..default_text() } }),
    ]
}

/// The first answer with the strictly highest confidence, starting from
/// `Unknown` at 0.
pub open spec fn best_answer(ds: Seq<SceneDetector>, img: RgbBuffer, found: Seq<DetectionSignal>) -> (Scene, u64)
    decreases ds.len(),
{
    if ds.len() == 0 {
        (Scene::Unknown, 0)
    } else {
        let prev = best_answer(ds.drop_last(), img, found);
        let v = scene_verdict(ds.last(), img, found);
        if v.1 > prev.1 { v } else { prev }
    }
}

/// The best answer's scene when its confidence reaches the threshold,
/// else `Unknown`.
pub open spec fn best_scene(ds: Seq<SceneDetector>, img: RgbBuffer, found: Seq<DetectionSignal>, threshold: u64) -> Scene {
    let b = best_answer(ds, img, found);
    if b.1 >= threshold { b.0 } else { Scene::Unknown }
}

/// Scene analysis as configured.
pub struct SceneAnalysisOrchestrator {
    scene_detectors: Vec<SceneDetector>,
    state_analyzer: PokemonStateAnalyzer,
    detection_pipeline: DetectionPipeline,
    config: SceneAnalysisConfig,
}

/// `r` is `frame` annotated by the orchestrator `o`: the signals of one run
/// of its pipeline (cut short where its time budget ran out) decide the
/// scene; an existing state takes the scene, the kind of place and the
/// tall-grass flag, a frame without a state gets the analysed state; the
/// rest of the frame is kept.
pub open spec fn annotated(o: SceneAnalysisOrchestrator, frame: EnrichedFrame, r: EnrichedFrame) -> bool {
    &&& exists|cut: int| {
        let found = #[trigger] run_detectors(o.pipeline().detectors(), frame.image, Seq::empty(), o.pipeline().early_termination(), cut);
        let scene = best_scene(o.detectors(), frame.image, found, o.configuration().confidence_threshold);
        let st = analyzed_state(scene, found);
        r.state == match frame.state {
            Some(s) => Some(State { scene, location_type: st.location_type, in_tall_grass: st.in_tall_grass, ..s }),
            None => Some(st),
        }
    }
    &&& r.client == frame.client
    &&& r.image == frame.image
    &&& r.timestamp == frame.timestamp
    &&& r.program == frame.program
    &&& r.id == frame.id
    &&& r.action == frame.action
}

impl SceneAnalysisOrchestrator {
    pub closed spec fn detectors(&self) -> Seq<SceneDetector> {
        self.scene_detectors@
    }

    pub closed spec fn pipeline(&self) -> DetectionPipeline {
        self.detection_pipeline
    }

    pub closed spec fn configuration(&self) -> SceneAnalysisConfig {
        self.config
    }

    /// An orchestrator for a valid configuration: the battle, menu,
    /// overworld and intro scene detectors, and a pipeline of the detectors
    /// serving the enabled types with the mode's early termination and
    /// budget. An invalid configuration is refused with the reason.
    pub fn new(config: SceneAnalysisConfig) -> (r: Result<SceneAnalysisOrchestrator, AppError>)
        ensures
            match r {
                Ok(o) => {
                    &&& config_error(config) is None
                    &&& o.detectors() == standard_scene_detectors()
                    &&& o.pipeline().detectors() == pipeline_detectors(config.enabled_detectors@)
                    &&& (o.pipeline().early_termination(), o.pipeline().time_budget()) == mode_settings(config.performance_mode)
                    &&& o.configuration() == config
                },
                Err(AppError::Client(e)) => config_error(config) matches Some(reason) && e@ == "Invalid config: "@ + reason,
            },
    {
        match config.validate() {
            Err(e) => return Err(AppError::Client(prefixed_message("Invalid config: ", e))),
            Ok(()) => {},
        }
        let mut scene_detectors: Vec<SceneDetector> = Vec::new();
        scene_detectors.push(SceneDetector::Battle(BattleSceneDetector::new()));
        scene_detectors.push(SceneDetector::Menu(MenuSceneDetector::new()));
        scene_detectors.push(SceneDetector::Overworld(OverworldSceneDetector::new()));
        scene_detectors.push(SceneDetector::Intro(IntroSceneDetector::new()));
        proof { assert(scene_detectors@ =~= standard_scene_detectors()); }
        let state_analyzer = PokemonStateAnalyzer::new();
        let mut detection_pipeline = DetectionPipeline::new();
        let mut i: usize = 0;
        while i < config.enabled_detectors.len()
            invariant
                i <= config.enabled_detectors@.len(),
                detection_pipeline.detectors() == pipeline_detectors(config.enabled_detectors@.take(i as int)),
                detection_pipeline.early_termination(),
                detection_pipeline.time_budget() == 10_000,
            decreases config.enabled_detectors@.len() - i,
        {
            proof { assert(config.enabled_detectors@.take(i + 1).drop_last() =~= config.enabled_detectors@.take(i as int)); }
            match config.enabled_detectors[i] {
                DetectorType::HPBar => {
                    detection_pipeline = detection_pipeline.add_detector(VisualDetector::HPBar(HPBarDetector::new()));
                },
                DetectorType::BattleMenu | DetectorType::MainMenu => {
                    detection_pipeline = detection_pipeline.add_detector(VisualDetector::Menu(MenuDetector::new()));
                },
                DetectorType::TextBlock | DetectorType::DialogBox => {
                    detection_pipeline = detection_pipeline.add_detector(VisualDetector::Text(TextDetector::new()));
                },
                DetectorType::PokemonCenter | DetectorType::Gym | DetectorType::Cave | DetectorType::City
                | DetectorType::Town | DetectorType::Route | DetectorType::Building => {
                    detection_pipeline = detection_pipeline.add_detector(VisualDetector::Location(LocationDetector::new()));
                },
                DetectorType::TallGrass | DetectorType::Water | DetectorType::Indoor => {
                    detection_pipeline = detection_pipeline.add_detector(VisualDetector::Environment(EnvironmentDetector::new()));
                },
                _ => {},
            }
            i = i + 1;
        }
        proof { assert(config.enabled_detectors@.take(i as int) =~= config.enabled_detectors@); }
        detection_pipeline = match config.performance_mode {
            PerformanceMode::Speed => detection_pipeline.with_early_termination(true).with_max_processing_time(5_000),
            PerformanceMode::Balanced => detection_pipeline.with_early_termination(true).with_max_processing_time(10_000),
            PerformanceMode::Accuracy => detection_pipeline.with_early_termination(false).with_max_processing_time(20_000),
        };
        Ok(SceneAnalysisOrchestrator { scene_detectors, state_analyzer, detection_pipeline, config })
    }

    /// The scene the detectors support best, as `best_scene` says, for a
    /// frame with the signals found so far.
    fn detect_best_scene(&self, context: &DetectionContext) -> (r: Scene)
        ensures r == best_scene(self.detectors(), *context.rgb, context.previous_signals@, self.configuration().confidence_threshold),
    {
        let mut best_scene = Scene::Unknown;
        let mut best_confidence: u64 = 0;
        let mut i: usize = 0;
        while i < self.scene_detectors.len()
            invariant
                i <= self.scene_detectors@.len(),
                (best_scene, best_confidence) == best_answer(self.scene_detectors@.take(i as int), *context.rgb, context.previous_signals@),
            decreases self.scene_detectors@.len() - i,
        {
            proof { assert(self.scene_detectors@.take(i + 1).drop_last() =~= self.scene_detectors@.take(i as int)); }
            let result = self.scene_detectors[i].detect_scene(context);
            if result.confidence > best_confidence {
                best_scene = result.result;
                best_confidence = result.confidence;
            }
            i = i + 1;
        }
        proof { assert(self.scene_detectors@.take(i as int) =~= self.scene_detectors@); }
        if best_confidence >= self.config.confidence_threshold { best_scene } else { Scene::Unknown }
    }

    /// Runs the pipeline over a frame, then picks the best-supported scene
    /// and reads the state off the signals found. The pipeline's time
    /// budget depends on the clock; the result holds for the signals the
    /// run found.
    pub fn analyze_frame(&mut self, image: &RgbBuffer) -> (r: Result<(Scene, State), AppError>)
        ensures
            final(self).detectors() == old(self).detectors(),
            final(self).pipeline().detectors() == old(self).pipeline().detectors(),
            final(self).pipeline().early_termination() == old(self).pipeline().early_termination(),
            final(self).pipeline().time_budget() == old(self).pipeline().time_budget(),
            final(self).configuration() == old(self).configuration(),
            exists|cut: int| {
                let found = #[trigger] run_detectors(old(self).pipeline().detectors(), *image, Seq::empty(), old(self).pipeline().early_termination(), cut);
                let scene = best_scene(old(self).detectors(), *image, found, old(self).configuration().confidence_threshold);
                r == Ok::<(Scene, State), AppError>((scene, analyzed_state(scene, found)))
            },
    {
        let context = DetectionContext::new(image);
        proof { assert(context.previous_signals@ =~= Seq::<DetectionSignal>::empty()); }
        let pipeline_result = self.detection_pipeline.process(context);
        let enriched = pipeline_result.result;
        let ghost cut = choose|cut: int| {
            let found = #[trigger] run_detectors(old(self).pipeline().detectors(), *image, Seq::empty(), old(self).pipeline().early_termination(), cut);
            &&& enriched.previous_signals@ == Seq::<DetectionSignal>::empty() + found
            &&& pipeline_result.confidence == crate::detection::max_confidence(found)
        };
        let ghost found = run_detectors(old(self).pipeline().detectors(), *image, Seq::empty(), old(self).pipeline().early_termination(), cut);
        proof {
            assert(Seq::<DetectionSignal>::empty() + found =~= found);
            assert(enriched.previous_signals@ == found);
        }
        let scene = self.detect_best_scene(&enriched);
        let state = self.state_analyzer.analyze_state(&enriched, scene).result;
        proof {
            assert(scene == best_scene(old(self).detectors(), *image, found, old(self).configuration().confidence_threshold));
        }
        Ok((scene, state))
    }

    /// The best-supported scene of a frame without running the pipeline.
    pub fn detect_scene_sync(&self, image: &RgbBuffer) -> (r: Scene)
        ensures r == best_scene(self.detectors(), *image, Seq::empty(), self.configuration().confidence_threshold),
    {
        let context = DetectionContext::new(image);
        proof { assert(context.previous_signals@ =~= Seq::<DetectionSignal>::empty()); }
        self.detect_best_scene(&context)
    }

    /// The configuration.
    pub fn get_config(&self) -> (r: &SceneAnalysisConfig)
        ensures *r == self.configuration(),
    {
        &self.config
    }

    /// The pipeline's statistics: its detectors' names in running order,
    /// which is by priority, highest first.
    pub fn get_pipeline_stats(&self) -> (r: PipelineStats)
        ensures
            r.total_detectors == self.pipeline().detectors().len(),
            r.detector_names@.len() == self.pipeline().detectors().len(),
            forall|i: int| 0 <= i < self.pipeline().detectors().len()
                ==> #[trigger] r.detector_names@[i]@ == detector_name(self.pipeline().detectors()[i]),
            by_priority(self.pipeline().detectors()),
            r.early_termination_enabled == self.pipeline().early_termination(),
            r.max_processing_time_us == self.pipeline().time_budget(),
    {
        self.detection_pipeline.get_stats()
    }

    /// Replaces the configuration when the new one is valid (the pipeline
    /// and detectors stay as they are); otherwise refuses it with the
    /// reason and keeps the old one.
    pub fn update_config(&mut self, new_config: SceneAnalysisConfig) -> (r: Result<(), AppError>)
        ensures
            final(self).detectors() == old(self).detectors(),
            final(self).pipeline() == old(self).pipeline(),
            match r {
                Ok(()) => config_error(new_config) is None && final(self).configuration() == new_config,
                Err(AppError::Client(e)) => config_error(new_config) matches Some(reason) && e@ == "Invalid config: "@ + reason
                    && final(self).configuration() == old(self).configuration(),
            },
    {
        match new_config.validate() {
            Err(e) => Err(AppError::Client(prefixed_message("Invalid config: ", e))),
            Ok(()) => {
                self.config = new_config;
                Ok(())
            },
        }
    }

    /// The frame with the analysed scene: an existing state takes the
    /// scene, the kind of place and the tall-grass flag; a frame without a
    /// state gets the analysed state.
    pub fn annotate(&mut self, enriched_frame: EnrichedFrame) -> (r: EnrichedFrame)
        ensures
            annotated(*old(self), enriched_frame, r),
    {
        let mut frame = enriched_frame;
        let analysis = self.analyze_frame(&frame.image);
        let (scene, state) = match analysis {
            Ok(x) => x,
            Err(_) => {
                let scene = self.detect_scene_sync(&frame.image);
                (scene, State::new(scene))
            },
        };
        match frame.state {
            Some(existing) => {
                frame.state = Some(State { scene, location_type: state.location_type, in_tall_grass: state.in_tall_grass, ..existing });
            },
            None => {
                frame.state = Some(state);
            },
        }
        frame
    }
}

/// `o` runs the standard scene detectors and a detection pipeline built
/// from `config`'s enabled detectors with its mode's early termination and
/// budget.
pub open spec fn built_from(o: SceneAnalysisOrchestrator, config: SceneAnalysisConfig) -> bool {
    &&& o.detectors() == standard_scene_detectors()
    &&& o.pipeline().detectors() == pipeline_detectors(config.enabled_detectors@)
    &&& (o.pipeline().early_termination(), o.pipeline().time_budget()) == mode_settings(config.performance_mode)
    &&& o.configuration() == config
}

/// Orchestrators for the preset configurations: each succeeds and runs the
/// preset it is named after.
pub struct SceneAnalysisFactory;

impl SceneAnalysisFactory {
    pub fn create_default() -> (r: Result<SceneAnalysisOrchestrator, AppError>)
        ensures
            r matches Ok(o) && is_default_preset(o.configuration()) && built_from(o, o.configuration()),
    {
        let c = SceneAnalysisConfig::default();
        proof { assert(config_error(c) is None); }
        SceneAnalysisOrchestrator::new(c)
    }

    pub fn create_speed_optimized() -> (r: Result<SceneAnalysisOrchestrator, AppError>)
        ensures
            r matches Ok(o) && is_speed_preset(o.configuration()) && built_from(o, o.configuration()),
    {
        SceneAnalysisOrchestrator::new(SceneAnalysisConfig::speed_optimized())
    }

    pub fn create_accuracy_optimized() -> (r: Result<SceneAnalysisOrchestrator, AppError>)
        ensures
            r matches Ok(o) && is_accuracy_preset(o.configuration()) && built_from(o, o.configuration()),
    {
        SceneAnalysisOrchestrator::new(SceneAnalysisConfig::accuracy_optimized())
    }

    pub fn create_pokemon_optimized() -> (r: Result<SceneAnalysisOrchestrator, AppError>)
        ensures
            r matches Ok(o) && is_pokemon_preset(o.configuration()) && built_from(o, o.configuration()),
    {
        SceneAnalysisOrchestrator::new(SceneAnalysisConfig::pokemon_optimized())
    }

    /// An orchestrator for any configuration, refused when it is invalid.
    pub fn create_custom(config: SceneAnalysisConfig) -> (r: Result<SceneAnalysisOrchestrator, AppError>)
        ensures
            r is Ok <==> config_error(config) is None,
    {
        SceneAnalysisOrchestrator::new(config)
    }
}

} // verus!
