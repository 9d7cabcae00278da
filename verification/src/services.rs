//! Thin services of the pipeline: the per-frame action chooser and the
//! machine-learning stage.

use vstd::prelude::*;
use crate::types::{EnrichedFrame, GameAction};
use crate::smart_action::{SmartActionService, GameSituation, ActionRecord, situation_ok, decision_ok};

verus! {

/// Chooses a button for each frame with a fresh smart action service.
pub struct ActionService;

impl ActionService {
    pub fn new() -> (r: ActionService) {
        ActionService
    }

    /// The action a smart action service without experience decides on for
    /// the frame: its basic rule or heuristic, or, one time in ten, a
    /// random button.
    pub fn choose_action(&self, request: &EnrichedFrame) -> (r: GameAction)
        ensures
            exists|s: GameSituation, e: Option<GameAction>, d: crate::smart_action::ActionDecision| {
                &&& situation_ok(request.state, request.image, s)
                &&& decision_ok(Seq::<ActionRecord>::empty(), s, e, d)
                &&& r == d.action
            },
    {
        let mut smart_service = SmartActionService::new();
        let situation = smart_service.analyze_situation(request);
        let decision = smart_service.make_decision(&situation);
        decision.action
    }
}

/// The machine-learning stage of the pipeline; it holds no state.
pub struct MLPipelineService {}

impl MLPipelineService {
    pub fn new() -> (r: MLPipelineService) {
        MLPipelineService {}
    }
}

} // verus!
