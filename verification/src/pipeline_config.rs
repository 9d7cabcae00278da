//! Configuration of the AI pipeline and the factory that assembles its
//! components from a configuration. The policy weight is in thousandths.

use vstd::prelude::*;
use crate::client_state::ClientStateManager;
use crate::error::{AppError, prefixed_message};
use crate::experience::ExperienceCollector;
use crate::image_change::ImageChangeDetector;
use crate::macros::{MacroManager, ActiveMacroState};
use crate::rewards::{MultiObjectiveRewardProcessor, NavigationRewardCalculator};
use crate::scene_annotation::SceneAnnotationService;
use crate::smart_action::SmartActionService;

verus! {

/// How actions are chosen.
#[derive(Clone, Copy, Debug, PartialEq, Eq, Structural)]
pub enum ActionSelectionStrategy {
    /// Only the policy.
    PolicyBased,
    /// Only the rules.
    RuleBased,
    /// Both, with this weight (in thousandths) on the policy.
    Hybrid { policy_weight: u64 },
}

/// Options of the AI pipeline.
#[derive(Clone, Copy, Debug, PartialEq, Eq, Structural)]
pub struct PipelineConfiguration {
    pub action_selection_strategy: ActionSelectionStrategy,
    pub image_change_threshold: u64,
    pub image_change_history_window: usize,
    pub max_client_history: usize,
    pub policy_update_frequency: usize,
    pub performance_monitoring_enabled: bool,
    pub debug_tracking_enabled: bool,
}

impl Default for PipelineConfiguration {
    /// Hybrid with weight 800; threshold and window 5; 100 decisions kept
    /// per client; policy updated every 50 actions; monitoring and debug
    /// tracking on.
    fn default() -> (r: Self)
        ensures
            r == (PipelineConfiguration {
                action_selection_strategy: ActionSelectionStrategy::Hybrid { policy_weight: 800 },
                image_change_threshold: 5,
                image_change_history_window: 5,
                max_client_history: 100,
                policy_update_frequency: 50,
                performance_monitoring_enabled: true,
                debug_tracking_enabled: true,
            }),
    {
        PipelineConfiguration {
            action_selection_strategy: ActionSelectionStrategy::Hybrid { policy_weight: 800 },
            image_change_threshold: 5,
            image_change_history_window: 5,
            max_client_history: 100,
            policy_update_frequency: 50,
            performance_monitoring_enabled: true,
            debug_tracking_enabled: true,
        }
    }
}

/// What is wrong with a configuration, checked in this order.
pub open spec fn pipeline_config_error(c: PipelineConfiguration) -> Option<Seq<char>> {
    if c.image_change_threshold == 0 {
        Some("Image change threshold must be greater than 0"@)
    } else if c.image_change_history_window == 0 {
        Some("Image change history window must be greater than 0"@)
    } else if c.max_client_history == 0 {
        Some("Max client history must be greater than 0"@)
    } else if c.policy_update_frequency == 0 {
        Some("Policy update frequency must be greater than 0"@)
    } else if c.action_selection_strategy matches ActionSelectionStrategy::Hybrid { policy_weight } && policy_weight > 1000 {
        Some("Policy weight must be between 0.0 and 1.0"@)
    } else {
        None
    }
}

impl PipelineConfiguration {
    /// Policy only, coarser change detection, less history, rarer policy
    /// updates, no debug tracking.
    pub fn performance_optimized() -> (r: PipelineConfiguration)
        ensures
            r == (PipelineConfiguration {
                action_selection_strategy: ActionSelectionStrategy::PolicyBased,
                image_change_threshold: 8,
                image_change_history_window: 3,
                max_client_history: 50,
                policy_update_frequency: 100,
                performance_monitoring_enabled: true,
                debug_tracking_enabled: false,
            }),
    {
        PipelineConfiguration {
            action_selection_strategy: ActionSelectionStrategy::PolicyBased,
            image_change_threshold: 8,
            image_change_history_window: 3,
            max_client_history: 50,
            policy_update_frequency: 100,
            performance_monitoring_enabled: true,
            debug_tracking_enabled: false,
        }
    }

    /// Hybrid with weight 600, finer change detection over a longer window,
    /// more history, frequent policy updates.
    pub fn learning_optimized() -> (r: PipelineConfiguration)
        ensures
            r == (PipelineConfiguration {
                action_selection_strategy: ActionSelectionStrategy::Hybrid { policy_weight: 600 },
                image_change_threshold: 3,
                image_change_history_window: 7,
                max_client_history: 200,
                policy_update_frequency: 25,
                performance_monitoring_enabled: true,
                debug_tracking_enabled: true,
            }),
    {
        PipelineConfiguration {
            action_selection_strategy: ActionSelectionStrategy::Hybrid { policy_weight: 600 },
            image_change_threshold: 3,
            image_change_history_window: 7,
            max_client_history: 200,
            policy_update_frequency: 25,
            performance_monitoring_enabled: true,
            debug_tracking_enabled: true,
        }
    }

    /// Rules only (deterministic), lots of history, very frequent policy
    /// updates.
    pub fn debug_optimized() -> (r: PipelineConfiguration)
        ensures
            r == (PipelineConfiguration {
                action_selection_strategy: ActionSelectionStrategy::RuleBased,
                image_change_threshold: 5,
                image_change_history_window: 5,
                max_client_history: 500,
                policy_update_frequency: 10,
                performance_monitoring_enabled: true,
                debug_tracking_enabled: true,
            }),
    {
        PipelineConfiguration {
            action_selection_strategy: ActionSelectionStrategy::RuleBased,
            image_change_threshold: 5,
            image_change_history_window: 5,
            max_client_history: 500,
            policy_update_frequency: 10,
            performance_monitoring_enabled: true,
            debug_tracking_enabled: true,
        }
    }

    /// `Ok` when every count is positive and a hybrid weight is at most
    /// 1000; otherwise the first failure, as a message.
    pub fn validate(&self) -> (r: Result<(), String>)
        ensures
            match r {
                Ok(()) => pipeline_config_error(*self) is None,
                Err(e) => pipeline_config_error(*self) == Some(e@),
            },
    {
        proof {
            reveal_strlit("Image change threshold must be greater than 0");
            reveal_strlit("Image change history window must be greater than 0");
            reveal_strlit("Max client history must be greater than 0");
            reveal_strlit("Policy update frequency must be greater than 0");
            reveal_strlit("Policy weight must be between 0.0 and 1.0");
        }
        if self.image_change_threshold == 0 {
            return Err("Image change threshold must be greater than 0".to_owned());
        }
        if self.image_change_history_window == 0 {
            return Err("Image change history window must be greater than 0".to_owned());
        }
        if self.max_client_history == 0 {
            return Err("Max client history must be greater than 0".to_owned());
        }
        if self.policy_update_frequency == 0 {
            return Err("Policy update frequency must be greater than 0".to_owned());
        }
        match self.action_selection_strategy {
            ActionSelectionStrategy::Hybrid { policy_weight } => {
                if policy_weight > 1000 {
                    return Err("Policy weight must be between 0.0 and 1.0".to_owned());
                }
            },
            _ => {},
        }
        Ok(())
    }
}

/// The components of an AI pipeline, assembled from a configuration.
pub struct PipelineComponents<P> {
    pub scene_annotation_service: SceneAnnotationService,
    pub smart_action_service: SmartActionService,
    pub macro_manager: MacroManager,
    pub image_change_detector: ImageChangeDetector,
    pub client_state_manager: ClientStateManager,
    pub reward_processor: MultiObjectiveRewardProcessor<P>,
    pub experience_collector: ExperienceCollector<P>,
    pub action_selection_strategy: ActionSelectionStrategy,
    pub policy_update_frequency: usize,
    pub performance_monitoring_enabled: bool,
    pub debug_tracking_enabled: bool,
}

/// `c` is assembled from `config`: change detection with its threshold and
/// window, client state with its history bound, the configured strategy,
/// update frequency and switches, and fresh learning components (10 000
/// experiences).
pub open spec fn assembled_from<P>(c: PipelineComponents<P>, config: PipelineConfiguration) -> bool {
    &&& c.image_change_detector.threshold() == config.image_change_threshold
    &&& c.image_change_detector.window_size() == config.image_change_history_window
    &&& c.image_change_detector.histories() == Map::<u128, Seq<u64>>::empty()
    &&& c.client_state_manager.max_history() == config.max_client_history
    &&& c.client_state_manager.states() == Map::<u128, crate::client_state::ClientState>::empty()
    &&& c.macro_manager.macros() == Map::<u128, ActiveMacroState>::empty()
    &&& c.smart_action_service.history().len() == 0
    &&& c.reward_processor.frames().len() == 0
    &&& c.experience_collector.buf().items().len() == 0
    &&& c.experience_collector.buf().max() == 10_000
    &&& c.action_selection_strategy == config.action_selection_strategy
    &&& c.policy_update_frequency == config.policy_update_frequency
    &&& c.performance_monitoring_enabled == config.performance_monitoring_enabled
    &&& c.debug_tracking_enabled == config.debug_tracking_enabled
}

/// The configuration that `PipelineConfiguration::default` gives.
pub open spec fn default_pipeline_config() -> PipelineConfiguration {
    PipelineConfiguration {
        action_selection_strategy: ActionSelectionStrategy::Hybrid { policy_weight: 800 },
        image_change_threshold: 5,
        image_change_history_window: 5,
        max_client_history: 100,
        policy_update_frequency: 50,
        performance_monitoring_enabled: true,
        debug_tracking_enabled: true,
    }
}

/// The configuration that `performance_optimized` gives.
pub open spec fn performance_pipeline_config() -> PipelineConfiguration {
    PipelineConfiguration {
        action_selection_strategy: ActionSelectionStrategy::PolicyBased,
        image_change_threshold: 8,
        image_change_history_window: 3,
        max_client_history: 50,
        policy_update_frequency: 100,
        performance_monitoring_enabled: true,
        debug_tracking_enabled: false,
    }
}

/// The configuration that `learning_optimized` gives.
pub open spec fn learning_pipeline_config() -> PipelineConfiguration {
    PipelineConfiguration {
        action_selection_strategy: ActionSelectionStrategy::Hybrid { policy_weight: 600 },
        image_change_threshold: 3,
        image_change_history_window: 7,
        max_client_history: 200,
        policy_update_frequency: 25,
        performance_monitoring_enabled: true,
        debug_tracking_enabled: true,
    }
}

/// The configuration that `debug_optimized` gives.
pub open spec fn debug_pipeline_config() -> PipelineConfiguration {
    PipelineConfiguration {
        action_selection_strategy: ActionSelectionStrategy::RuleBased,
        image_change_threshold: 5,
        image_change_history_window: 5,
        max_client_history: 500,
        policy_update_frequency: 10,
        performance_monitoring_enabled: true,
        debug_tracking_enabled: true,
    }
}

/// Assembles AI pipelines.
pub struct AIPipelineFactory;

impl AIPipelineFactory {
    /// The components for a valid configuration: change detection with its
    /// threshold and window, client state with its history bound, the
    /// configured strategy and update frequency, fresh learning components
    /// (10 000 experiences); an invalid configuration is refused with the
    /// reason.
    pub fn create_pipeline<P: Clone>(config: PipelineConfiguration) -> (r: Result<PipelineComponents<P>, AppError>)
        ensures
            match r {
                Ok(c) => {
                    &&& pipeline_config_error(config) is None
                    &&& c.image_change_detector.threshold() == config.image_change_threshold
                    &&& c.image_change_detector.window_size() == config.image_change_history_window
                    &&& c.image_change_detector.histories() == Map::<u128, Seq<u64>>::empty()
                    &&& c.client_state_manager.max_history() == config.max_client_history
                    &&& c.client_state_manager.states() == Map::<u128, crate::client_state::ClientState>::empty()
                    &&& c.macro_manager.macros() == Map::<u128, ActiveMacroState>::empty()
                    &&& c.smart_action_service.history().len() == 0
                    &&& c.reward_processor.frames().len() == 0
                    &&& c.experience_collector.buf().items().len() == 0
                    &&& c.experience_collector.buf().max() == 10_000
                    &&& c.action_selection_strategy == config.action_selection_strategy
                    &&& c.policy_update_frequency == config.policy_update_frequency
                    &&& c.performance_monitoring_enabled == config.performance_monitoring_enabled
                    &&& c.debug_tracking_enabled == config.debug_tracking_enabled
                },
                Err(AppError::Client(e)) => pipeline_config_error(config) matches Some(reason) && e@ == "Invalid configuration: "@ + reason,
            },
    {
        match config.validate() {
            Err(e) => return Err(AppError::Client(prefixed_message("Invalid configuration: ", e))),
            Ok(()) => {},
        }
        let image_change_detector = ImageChangeDetector::new()
            .with_threshold(config.image_change_threshold)
            .with_history_window(config.image_change_history_window);
        let client_state_manager = ClientStateManager::new().with_max_history(config.max_client_history);
        Ok(PipelineComponents {
            scene_annotation_service: SceneAnnotationService::new(()),
            smart_action_service: SmartActionService::new(),
            macro_manager: MacroManager::new(),
            image_change_detector,
            client_state_manager,
            reward_processor: MultiObjectiveRewardProcessor::new(NavigationRewardCalculator::new()),
            experience_collector: ExperienceCollector::new(10_000),
            action_selection_strategy: config.action_selection_strategy,
            policy_update_frequency: config.policy_update_frequency,
            performance_monitoring_enabled: config.performance_monitoring_enabled,
            debug_tracking_enabled: config.debug_tracking_enabled,
        })
    }

    /// The components for the default configuration.
    pub fn create_default_pipeline<P: Clone>() -> (r: Result<PipelineComponents<P>, AppError>)
        ensures r matches Ok(c) && assembled_from(c, default_pipeline_config()),
    {
        Self::create_pipeline(PipelineConfiguration::default())
    }

    /// The components for the performance configuration.
    pub fn create_performance_pipeline<P: Clone>() -> (r: Result<PipelineComponents<P>, AppError>)
        ensures r matches Ok(c) && assembled_from(c, performance_pipeline_config()),
    {
        Self::create_pipeline(PipelineConfiguration::performance_optimized())
    }

    /// The components for the learning configuration.
    pub fn create_learning_pipeline<P: Clone>() -> (r: Result<PipelineComponents<P>, AppError>)
        ensures r matches Ok(c) && assembled_from(c, learning_pipeline_config()),
    {
        Self::create_pipeline(PipelineConfiguration::learning_optimized())
    }

    /// The components for the debugging configuration.
    pub fn create_debug_pipeline<P: Clone>() -> (r: Result<PipelineComponents<P>, AppError>)
        ensures r matches Ok(c) && assembled_from(c, debug_pipeline_config()),
    {
        Self::create_pipeline(PipelineConfiguration::debug_optimized())
    }
}

} // verus!
