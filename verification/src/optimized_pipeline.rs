//! Pipelines tuned for frame rate: a cheap situation analysis (with the
//! full scene annotation only when not at the fastest level), checksum
//! change detection on a thumbnail, and the factory that assembles them.

use vstd::prelude::*;
use crate::analysis_config::SceneAnalysisConfig;
use crate::client_state::{ClientStateManager, ClientState, intro_tracked};
use crate::error::{AppError, prefixed_message};
use crate::experience::ExperienceCollector;
use crate::fast_change::{FastImageChangeDetector, fast_checksum, shrunk};
use crate::fast_situation::{FastSituationAnalyzer, fast_analysis};
use crate::macros::{MacroManager, ActiveMacroState};
use crate::orchestrator::{SceneAnalysisOrchestrator, annotated};
use crate::pipeline_config::{PipelineConfiguration, ActionSelectionStrategy, pipeline_config_error};
use crate::raster::RgbBuffer;
use crate::rewards::{MultiObjectiveRewardProcessor, NavigationRewardCalculator};
use crate::smart_action::{SmartActionService, GameSituation, ActionDecision};
use crate::types::{EnrichedFrame, GameAction, same_frame};

verus! {

/// How far a pipeline trades accuracy for speed.
#[derive(Clone, Copy, Debug, PartialEq, Eq, Structural)]
pub enum OptimizationLevel {
    /// No scene annotation, no pixel scans, no learning.
    UltraFast,
    /// Scene annotation, pixel scans and learning.
    Fast,
}

/// Situation analysis of a frame for a speed-tuned pipeline.
pub struct FastSceneAnalysisStep {
    scene_analysis_orchestrator: SceneAnalysisOrchestrator,
    fast_situation_analyzer: FastSituationAnalyzer,
    optimization_level: OptimizationLevel,
}

impl FastSceneAnalysisStep {
    pub closed spec fn orchestrator(&self) -> SceneAnalysisOrchestrator {
        self.scene_analysis_orchestrator
    }

    pub closed spec fn analyzer(&self) -> FastSituationAnalyzer {
        self.fast_situation_analyzer
    }

    pub closed spec fn level(&self) -> OptimizationLevel {
        self.optimization_level
    }

    /// A step with empty caches, scanning pixels unless at the fastest
    /// level.
    pub fn new(scene_analysis_orchestrator: SceneAnalysisOrchestrator, optimization_level: OptimizationLevel) -> (r: FastSceneAnalysisStep)
        ensures
            r.orchestrator() == scene_analysis_orchestrator,
            r.level() == optimization_level,
            r.analyzer().spec_skip_expensive() == (optimization_level == OptimizationLevel::UltraFast),
            r.analyzer().spec_rgb_cache() is None,
            r.analyzer().spec_analysis_cache() is None,
    {
        let fast_situation_analyzer = FastSituationAnalyzer::new()
            .with_expensive_analysis(optimization_level != OptimizationLevel::UltraFast);
        FastSceneAnalysisStep { scene_analysis_orchestrator, fast_situation_analyzer, optimization_level }
    }

    /// The situation of the frame by the fast analyser; the frame annotated
    /// with its scene unless at the fastest level; and a fixed decision to
    /// press A with confidence 70.
    pub fn process(&mut self, frame: EnrichedFrame) -> (r: (EnrichedFrame, GameSituation, ActionDecision))
        ensures
            fast_analysis(old(self).analyzer(), frame, final(self).analyzer(), r.1),
            old(self).level() == OptimizationLevel::UltraFast ==> same_frame(r.0, frame),
            old(self).level() == OptimizationLevel::Fast ==> annotated(old(self).orchestrator(), frame, r.0),
            r.2.action == GameAction::A,
            r.2.confidence == 70,
            r.2.reasoning@ == "Fast analysis decision"@,
            r.2.expected_outcome@ == "Quick action"@,
            final(self).level() == old(self).level(),
    {
        let situation = self.fast_situation_analyzer.analyze_situation_fast(&frame);
        let frame = match self.optimization_level {
            OptimizationLevel::UltraFast => frame,
            OptimizationLevel::Fast => self.scene_analysis_orchestrator.annotate(frame),
        };
        proof {
            reveal_strlit("Fast analysis decision");
            reveal_strlit("Quick action");
        }
        let decision = ActionDecision {
            action: GameAction::A,
            confidence: 70,
            reasoning: "Fast analysis decision".to_owned(),
            expected_outcome: "Quick action".to_owned(),
        };
        (frame, situation, decision)
    }

    pub fn name(&self) -> (r: &'static str)
        ensures r@ == "FastSceneAnalysisStep"@,
    {
        proof { reveal_strlit("FastSceneAnalysisStep"); }
        "FastSceneAnalysisStep"
    }
}

/// Change detection and intro tracking of a frame for a speed-tuned
/// pipeline.
pub struct FastImageChangeDetectionStep {
    fast_image_change_detector: FastImageChangeDetector,
    client_state_manager: ClientStateManager,
}

impl FastImageChangeDetectionStep {
    pub closed spec fn detector(&self) -> FastImageChangeDetector {
        self.fast_image_change_detector
    }

    pub closed spec fn clients(&self) -> ClientStateManager {
        self.client_state_manager
    }

    pub fn new(fast_image_change_detector: FastImageChangeDetector, client_state_manager: ClientStateManager) -> (r: FastImageChangeDetectionStep)
        ensures
            r.detector() == fast_image_change_detector,
            r.clients() == client_state_manager,
    {
        FastImageChangeDetectionStep { fast_image_change_detector, client_state_manager }
    }

    /// Whether the client's thumbnail checksum changed since its previous
    /// frame (never for its first); with a situation, the client's intro
    /// timer advances for its scene at `now`.
    pub fn process(&mut self, client_id: u128, image: &RgbBuffer, situation: Option<GameSituation>, now: u64) -> (r: bool)
        requires
        ensures
            ({
                let c = fast_checksum(shrunk(*image, 32), old(self).detector().rate() as nat);
                &&& r == (old(self).detector().cached().contains_key(client_id) && old(self).detector().cached()[client_id] != c)
                &&& final(self).detector().cached() == old(self).detector().cached().insert(client_id, c)
            }),
            final(self).detector().threshold() == old(self).detector().threshold(),
            final(self).detector().rate() == old(self).detector().rate(),
            match situation {
                Some(s) => intro_tracked(old(self).clients(), final(self).clients(), client_id, s.scene, now),
                None => final(self).clients() == old(self).clients(),
            },
    {
        let image_changed = self.fast_image_change_detector.detect_change_fast(client_id, image);
        if let Some(s) = situation {
            self.client_state_manager.update_intro_tracking(client_id, s.scene, now);
        }
        image_changed
    }

    pub fn name(&self) -> (r: &'static str)
        ensures r@ == "FastImageChangeDetectionStep"@,
    {
        proof { reveal_strlit("FastImageChangeDetectionStep"); }
        "FastImageChangeDetectionStep"
    }
}

/// The components of a speed-tuned pipeline.
pub struct OptimizedPipelineComponents<P> {
    pub scene_analysis: FastSceneAnalysisStep,
    pub smart_action_service: SmartActionService,
    pub macro_manager: MacroManager,
    pub image_change: FastImageChangeDetectionStep,
    pub reward_processor: MultiObjectiveRewardProcessor<P>,
    pub experience_collector: ExperienceCollector<P>,
    /// Whether the learning step runs.
    pub learning_enabled: bool,
    pub action_selection_strategy: ActionSelectionStrategy,
    pub policy_update_frequency: usize,
    pub performance_monitoring_enabled: bool,
    pub debug_tracking_enabled: bool,
}

/// `c` holds the components for a valid `config` at `level`.
pub open spec fn optimized_components<P>(c: OptimizedPipelineComponents<P>, config: PipelineConfiguration, level: OptimizationLevel) -> bool {
    let fastest = level == OptimizationLevel::UltraFast;
    &&& c.scene_analysis.level() == level
    &&& c.scene_analysis.analyzer().spec_skip_expensive() == fastest
    &&& c.scene_analysis.analyzer().spec_rgb_cache() is None
    &&& c.scene_analysis.analyzer().spec_analysis_cache() is None
    &&& c.scene_analysis.orchestrator().configuration().detection_sensitivity == (if fastest { 500u64 } else { 800u64 })
    &&& c.scene_analysis.orchestrator().configuration().confidence_threshold == (if fastest { 500u64 } else { 700u64 })
    &&& c.image_change.detector().threshold() == 50
    &&& c.image_change.detector().rate() == (if fastest { 32u32 } else { 16u32 })
    &&& c.image_change.detector().cached() == Map::<u128, u64>::empty()
    &&& c.image_change.clients().max_history() == config.max_client_history
    &&& c.image_change.clients().states() == Map::<u128, ClientState>::empty()
    &&& c.smart_action_service.history().len() == 0
    &&& c.macro_manager.macros() == Map::<u128, ActiveMacroState>::empty()
    &&& c.reward_processor.frames().len() == 0
    &&& c.experience_collector.buf().items().len() == 0
    &&& c.experience_collector.buf().max() == 5_000
    &&& c.learning_enabled == !fastest
    &&& c.action_selection_strategy == config.action_selection_strategy
    &&& c.policy_update_frequency == config.policy_update_frequency
    &&& c.performance_monitoring_enabled == config.performance_monitoring_enabled
    &&& c.debug_tracking_enabled == config.debug_tracking_enabled
}

/// The configuration of the fastest pipelines.
pub open spec fn ultra_fast_config() -> PipelineConfiguration {
    PipelineConfiguration {
        action_selection_strategy: ActionSelectionStrategy::PolicyBased,
        image_change_threshold: 8,
        image_change_history_window: 1,
        max_client_history: 20,
        policy_update_frequency: 200,
        performance_monitoring_enabled: true,
        debug_tracking_enabled: false,
    }
}

/// The configuration of the balanced fast pipelines.
pub open spec fn fast_config() -> PipelineConfiguration {
    PipelineConfiguration {
        action_selection_strategy: ActionSelectionStrategy::PolicyBased,
        image_change_threshold: 6,
        image_change_history_window: 3,
        max_client_history: 50,
        policy_update_frequency: 100,
        performance_monitoring_enabled: true,
        debug_tracking_enabled: true,
    }
}

/// Assembles speed-tuned pipelines.
pub struct PerformanceOptimizedPipelineFactory;

impl PerformanceOptimizedPipelineFactory {
    /// The fastest pipeline: policy only, little history, no debug
    /// tracking, no annotation, no learning.
    pub fn create_ultra_fast_pipeline<P: Clone>() -> (r: Result<OptimizedPipelineComponents<P>, AppError>)
        ensures
            r matches Ok(c) && optimized_components(c, ultra_fast_config(), OptimizationLevel::UltraFast),
    {
        let config = PipelineConfiguration {
            action_selection_strategy: ActionSelectionStrategy::PolicyBased,
            image_change_threshold: 8,
            image_change_history_window: 1,
            max_client_history: 20,
            policy_update_frequency: 200,
            performance_monitoring_enabled: true,
            debug_tracking_enabled: false,
        };
        Self::create_optimized_pipeline(config, OptimizationLevel::UltraFast)
    }

    /// A balanced fast pipeline with annotation, learning and debug
    /// tracking.
    pub fn create_fast_pipeline<P: Clone>() -> (r: Result<OptimizedPipelineComponents<P>, AppError>)
        ensures
            r matches Ok(c) && optimized_components(c, fast_config(), OptimizationLevel::Fast),
    {
        let config = PipelineConfiguration {
            action_selection_strategy: ActionSelectionStrategy::PolicyBased,
            image_change_threshold: 6,
            image_change_history_window: 3,
            max_client_history: 50,
            policy_update_frequency: 100,
            performance_monitoring_enabled: true,
            debug_tracking_enabled: true,
        };
        Self::create_optimized_pipeline(config, OptimizationLevel::Fast)
    }

    /// The components of a speed-tuned pipeline for a valid configuration:
    /// the speed or the Pokémon scene configuration, a 5% checksum change
    /// threshold sampling every 32nd or 16th pixel, client state with the
    /// configured history bound, and fresh learning components (5000
    /// experiences); an invalid configuration is refused with the reason.
    pub fn create_optimized_pipeline<P: Clone>(config: PipelineConfiguration, optimization_level: OptimizationLevel)
        -> (r: Result<OptimizedPipelineComponents<P>, AppError>)
        ensures
            match r {
                Ok(c) => pipeline_config_error(config) is None && optimized_components(c, config, optimization_level),
                Err(AppError::Client(e)) => pipeline_config_error(config) matches Some(reason) && e@ == "Invalid config: "@ + reason,
            },
    {
        match config.validate() {
            Err(e) => return Err(AppError::Client(prefixed_message("Invalid config: ", e))),
            Ok(()) => {},
        }
        let scene_config = match optimization_level {
            OptimizationLevel::UltraFast => SceneAnalysisConfig::speed_optimized(),
            OptimizationLevel::Fast => SceneAnalysisConfig::pokemon_optimized(),
        };
        let scene_analysis_orchestrator = match SceneAnalysisOrchestrator::new(scene_config) {
            Ok(o) => o,
            Err(e) => {
                // The presets always validate, so this arm is never taken.
                proof { assert(false); }
                return Err(e);
            },
        };
        let sample_rate: u32 = match optimization_level {
            OptimizationLevel::UltraFast => 32,
            OptimizationLevel::Fast => 16,
        };
        let fast_image_change_detector = FastImageChangeDetector::new().with_threshold(50).with_sample_rate(sample_rate);
        let client_state_manager = ClientStateManager::new().with_max_history(config.max_client_history);
        Ok(OptimizedPipelineComponents {
            scene_analysis: FastSceneAnalysisStep::new(scene_analysis_orchestrator, optimization_level),
            smart_action_service: SmartActionService::new(),
            macro_manager: MacroManager::new(),
            image_change: FastImageChangeDetectionStep::new(fast_image_change_detector, client_state_manager),
            reward_processor: MultiObjectiveRewardProcessor::new(NavigationRewardCalculator::new()),
            experience_collector: ExperienceCollector::new(5_000),
            learning_enabled: optimization_level != OptimizationLevel::UltraFast,
            action_selection_strategy: config.action_selection_strategy,
            policy_update_frequency: config.policy_update_frequency,
            performance_monitoring_enabled: config.performance_monitoring_enabled,
            debug_tracking_enabled: config.debug_tracking_enabled,
        })
    }
}

} // verus!
