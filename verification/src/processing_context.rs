//! A frame in the processing pipeline as a plain value: ingested, or
//! analysed with its analysis of type `A`; and the durations measured on
//! the way, in microseconds.

use vstd::prelude::*;
use crate::detection::{instant_now, micros_since};

verus! {

/// The steps of processing.
#[derive(Clone, Copy, Debug, PartialEq, Eq, Structural, Hash)]
pub enum ProcessingStepType {
    SceneAnalysis,
}

/// Durations of processing, in microseconds.
#[derive(Clone, Copy, Debug, PartialEq, Eq, Structural, Default)]
pub struct FrameMetrics {
    pub scene_analysis_duration_us: u64,
    pub total_processing_duration_us: u64,
}

impl FrameMetrics {
    /// Nothing measured.
    pub fn new() -> (r: FrameMetrics)
        ensures r == (FrameMetrics { scene_analysis_duration_us: 0, total_processing_duration_us: 0 }),
    {
        FrameMetrics { scene_analysis_duration_us: 0, total_processing_duration_us: 0 }
    }

    /// Records how long a step took.
    pub fn record_duration(&mut self, step: ProcessingStepType, duration_us: u64)
        ensures
            match step {
                ProcessingStepType::SceneAnalysis => *final(self) == FrameMetrics { scene_analysis_duration_us: duration_us, ..*old(self) },
            },
    {
        match step {
            ProcessingStepType::SceneAnalysis => self.scene_analysis_duration_us = duration_us,
        }
    }

    /// Records `elapsed_us` as the total processing time.
    pub fn record_total(&mut self, elapsed_us: u64)
        ensures *final(self) == (FrameMetrics { total_processing_duration_us: elapsed_us, ..*old(self) }),
    {
        self.total_processing_duration_us = elapsed_us;
    }

    /// Records the time since `start_time` as the total processing time:
    /// the clock's reading goes to `record_total`.
    pub fn finalize(&mut self, start_time: &std::time::Instant)
        ensures final(self).scene_analysis_duration_us == old(self).scene_analysis_duration_us,
    {
        let elapsed = micros_since(start_time);
        self.record_total(elapsed);
    }
}

/// A frame taken in.
pub struct Ingested<F> {
    pub frame: F,
    pub metrics: FrameMetrics,
    pub processing_start: std::time::Instant,
}

/// A frame with its analysis.
pub struct Analyzed<F, A> {
    pub frame: F,
    pub analysis: A,
    pub metrics: FrameMetrics,
    pub processing_start: std::time::Instant,
}

/// A frame at some stage of processing.
pub enum FrameContext<F, A> {
    Ingested(Ingested<F>),
    Analyzed(Analyzed<F, A>),
}

impl<F, A> FrameContext<F, A> {
    /// A frame taken in now, with nothing measured.
    pub fn new(frame: F) -> (r: FrameContext<F, A>)
        ensures
            r matches FrameContext::Ingested(i) && i.frame == frame && i.metrics == FrameMetrics::new_spec(),
    {
        FrameContext::Ingested(Ingested { frame, metrics: FrameMetrics::new(), processing_start: instant_now() })
    }
}

impl FrameMetrics {
    /// Nothing measured.
    pub open spec fn new_spec() -> FrameMetrics {
        FrameMetrics { scene_analysis_duration_us: 0, total_processing_duration_us: 0 }
    }
}

} // verus!
