//! A frame on its way through processing, with its stage tracked in its
//! type: ingested frames can be analysed, analysed ones carry their scene
//! analysis. Durations are in microseconds.

use vstd::prelude::*;
use crate::detection::{instant_now, micros_since};

verus! {

/// The kinds of scene a frame is classified into.
#[derive(Clone, Copy, Debug, PartialEq, Eq, Structural)]
pub enum SceneType {
    Battle,
    Menu,
    Overworld,
    Cutscene,
    Unknown,
}

/// A scene classification with its confidence in thousandths and when it
/// was made.
pub struct SceneAnalysis {
    scene_type: SceneType,
    confidence: u64,
    timestamp: std::time::Instant,
}

impl SceneAnalysis {
    pub closed spec fn spec_scene_type(&self) -> SceneType {
        self.scene_type
    }

    pub closed spec fn spec_confidence(&self) -> u64 {
        self.confidence
    }

    /// A classification made now.
    pub fn new(scene_type: SceneType, confidence: u64) -> (r: SceneAnalysis)
        ensures
            r.spec_scene_type() == scene_type,
            r.spec_confidence() == confidence,
    {
        SceneAnalysis { scene_type, confidence, timestamp: instant_now() }
    }

    pub fn scene_type(&self) -> (r: SceneType)
        ensures r == self.spec_scene_type(),
    {
        self.scene_type
    }

    pub fn confidence(&self) -> (r: u64)
        ensures r == self.spec_confidence(),
    {
        self.confidence
    }

    pub fn timestamp(&self) -> std::time::Instant {
        self.timestamp
    }
}

/// What was measured while a frame was processed.
pub struct FrameMetrics {
    analysis_duration: Option<u64>,
}

impl FrameMetrics {
    pub closed spec fn spec_analysis_duration(&self) -> Option<u64> {
        self.analysis_duration
    }

    /// Nothing measured yet.
    pub fn new() -> (r: FrameMetrics)
        ensures r.spec_analysis_duration() is None,
    {
        FrameMetrics { analysis_duration: None }
    }

    /// Records how long the analysis took.
    pub fn record_analysis_duration(&mut self, duration: u64)
        ensures final(self).spec_analysis_duration() == Some(duration),
    {
        self.analysis_duration = Some(duration);
    }

    /// How long the analysis took, once recorded.
    pub fn analysis_duration(&self) -> (r: Option<u64>)
        ensures r == self.spec_analysis_duration(),
    {
        self.analysis_duration
    }
}

/// The stage of a frame that has been taken in.
pub struct IngestedState;

/// The stage of a frame that has been analysed.
pub struct AnalyzedState {
    analysis: SceneAnalysis,
}

/// A processing stage with a name.
pub trait ProcessingState {
    fn state_name() -> &'static str;
}

impl ProcessingState for IngestedState {
    fn state_name() -> &'static str {
        "Ingested"
    }
}

impl ProcessingState for AnalyzedState {
    fn state_name() -> &'static str {
        "Analyzed"
    }
}

/// A frame of type `F` at stage `S`, with its metrics and the time its
/// processing started.
pub struct FrameContext<F, S> {
    frame: F,
    metrics: FrameMetrics,
    processing_start: std::time::Instant,
    state: S,
}

impl<F, S> FrameContext<F, S> {
    pub closed spec fn spec_frame(&self) -> F {
        self.frame
    }

    pub closed spec fn spec_metrics(&self) -> FrameMetrics {
        self.metrics
    }

    pub fn frame(&self) -> (r: &F)
        ensures *r == self.spec_frame(),
    {
        &self.frame
    }

    pub fn metrics(&self) -> (r: &FrameMetrics)
        ensures *r == self.spec_metrics(),
    {
        &self.metrics
    }

    /// Microseconds since processing started.
    pub fn elapsed(&self) -> u64 {
        micros_since(&self.processing_start)
    }
}

impl<F> FrameContext<F, IngestedState> {
    /// A frame taken in now, with nothing measured.
    pub fn new(frame: F) -> (r: FrameContext<F, IngestedState>)
        ensures
            r.spec_frame() == frame,
            r.spec_metrics().spec_analysis_duration() is None,
    {
        FrameContext { frame, metrics: FrameMetrics::new(), processing_start: instant_now(), state: IngestedState }
    }

    /// The analysed frame: the analysis is attached and the time since
    /// processing started is recorded as the analysis duration.
    pub fn into_analyzed(self, analysis: SceneAnalysis) -> (r: FrameContext<F, AnalyzedState>)
        ensures
            r.spec_frame() == self.spec_frame(),
            r.spec_metrics().spec_analysis_duration() is Some,
            r.spec_analysis() == analysis,
    {
        let d = self.elapsed();
        let FrameContext { frame, mut metrics, processing_start, state: _ } = self;
        metrics.record_analysis_duration(d);
        FrameContext { frame, metrics, processing_start, state: AnalyzedState { analysis } }
    }
}

impl<F> FrameContext<F, AnalyzedState> {
    pub closed spec fn spec_analysis(&self) -> SceneAnalysis {
        self.state.analysis
    }

    /// The scene analysis of the frame.
    pub fn analysis(&self) -> (r: &SceneAnalysis)
        ensures *r == self.spec_analysis(),
    {
        &self.state.analysis
    }
}

} // verus!
