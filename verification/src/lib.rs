//! Decision logic of a Pokémon-playing bot: game types, a pixel-buffer model
//! of captured frames, frame heuristics, rule- and experience-based action
//! selection, macro execution, reward shaping and per-client bookkeeping.

pub mod types;
pub mod raster;
pub mod region;
pub mod sampling;
pub mod heuristics;
pub mod random;
pub mod smart_action;
pub mod fast_situation;
pub mod color_analysis;
pub mod ui_detectors;
pub mod services;
pub mod optimized_pipeline;
pub mod processing;
pub mod text;
pub mod scene_annotation;
pub mod macros;
pub mod rewards;
pub mod client_table;
pub mod image_change;
pub mod client_state;
pub mod experience;
pub mod ai_pipeline;
pub mod detection;
pub mod analyzers;
pub mod detection_pipeline;
pub mod analysis_config;
pub mod scene_detectors;
pub mod orchestrator;
pub mod fast_change;
pub mod frame_context;
pub mod processing_context;
pub mod error;
pub mod pipeline_config;
