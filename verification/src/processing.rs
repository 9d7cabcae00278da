//! The analysis stage of the processing pipeline: its settings, the scene
//! analyser and the service that moves a frame from taken in to analysed.

use vstd::prelude::*;
use crate::error::AppError;
use crate::frame_context::{FrameContext, IngestedState, AnalyzedState, SceneAnalysis, SceneType};

verus! {

#[verifier::external_type_specification]
#[verifier::external_body]
pub struct ExDuration(time::Duration);

/// Settings of a processing pipeline: an overall timeout, a rate limit of
/// so many frames per period, and whether metrics are kept.
pub struct ProcessingPipelineBuilder {
    pub timeout: Option<time::Duration>,
    pub rate_limit: Option<(u64, time::Duration)>,
    pub enable_metrics: bool,
}

impl ProcessingPipelineBuilder {
    /// No timeout, no rate limit, no metrics.
    pub fn new() -> (r: ProcessingPipelineBuilder)
        ensures
            r.timeout is None,
            r.rate_limit is None,
            !r.enable_metrics,
    {
        ProcessingPipelineBuilder { timeout: None, rate_limit: None, enable_metrics: false }
    }

    pub fn timeout(self, timeout: time::Duration) -> (r: ProcessingPipelineBuilder)
        ensures
            r.timeout == Some(timeout),
            r.rate_limit == self.rate_limit,
            r.enable_metrics == self.enable_metrics,
    {
        ProcessingPipelineBuilder { timeout: Some(timeout), ..self }
    }

    pub fn rate_limit(self, rate_limit: (u64, time::Duration)) -> (r: ProcessingPipelineBuilder)
        ensures
            r.rate_limit == Some(rate_limit),
            r.timeout == self.timeout,
            r.enable_metrics == self.enable_metrics,
    {
        ProcessingPipelineBuilder { rate_limit: Some(rate_limit), ..self }
    }

    pub fn enable_metrics(self, enable_metrics: bool) -> (r: ProcessingPipelineBuilder)
        ensures
            r.enable_metrics == enable_metrics,
            r.timeout == self.timeout,
            r.rate_limit == self.rate_limit,
    {
        ProcessingPipelineBuilder { enable_metrics, ..self }
    }
}

impl Default for ProcessingPipelineBuilder {
    fn default() -> (r: Self)
        ensures
            r.timeout is None,
            r.rate_limit is None,
            !r.enable_metrics,
    {
        Self::new()
    }
}

/// Classifies ingested frames; so far every frame is of unknown scene.
#[derive(Clone, Copy, Debug)]
pub struct SceneAnalyzer {
    confidence_threshold: u64,
}

impl SceneAnalyzer {
    /// In thousandths.
    pub closed spec fn threshold(&self) -> u64 {
        self.confidence_threshold
    }

    /// Confidence threshold 800.
    pub fn new() -> (r: SceneAnalyzer)
        ensures r.threshold() == 800,
    {
        SceneAnalyzer { confidence_threshold: 800 }
    }

    pub fn with_confidence_threshold(self, threshold: u64) -> (r: SceneAnalyzer)
        ensures r.threshold() == threshold,
    {
        SceneAnalyzer { confidence_threshold: threshold }
    }

    pub fn confidence_threshold(&self) -> (r: u64)
        ensures r == self.threshold(),
    {
        self.confidence_threshold
    }

    /// The analysis of an ingested frame: an unknown scene with confidence
    /// zero.
    pub fn analyze<F>(&self, ctx: &FrameContext<F, IngestedState>) -> (r: Result<SceneAnalysis, AppError>)
        ensures
            r matches Ok(a) && a.spec_scene_type() == SceneType::Unknown && a.spec_confidence() == 0,
    {
        Ok(SceneAnalysis::new(SceneType::Unknown, 0))
    }
}

/// Moves frames from taken in to analysed with a scene analyser.
pub struct AnalyzerService {
    inner: SceneAnalyzer,
}

impl AnalyzerService {
    pub closed spec fn analyzer(&self) -> SceneAnalyzer {
        self.inner
    }

    pub fn new(inner: SceneAnalyzer) -> (r: AnalyzerService)
        ensures r.analyzer() == inner,
    {
        AnalyzerService { inner }
    }

    /// The frame with its analysis attached and the analysis time recorded;
    /// a failed analysis is handed back.
    pub fn call<F>(&mut self, req: FrameContext<F, IngestedState>) -> (r: Result<FrameContext<F, AnalyzedState>, AppError>)
        ensures
            r matches Ok(c) && c.spec_frame() == req.spec_frame()
                && c.spec_analysis().spec_scene_type() == SceneType::Unknown
                && c.spec_analysis().spec_confidence() == 0
                && c.spec_metrics().spec_analysis_duration() is Some,
    {
        let analysis = match self.inner.analyze(&req) {
            Ok(a) => a,
            Err(e) => { return Err(e); },
        };
        Ok(req.into_analyzed(analysis))
    }
}

} // verus!
