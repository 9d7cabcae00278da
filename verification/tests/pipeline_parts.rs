use pokebot_pipeline::error::AppError;
use pokebot_pipeline::orchestrator::SceneAnalysisOrchestrator;
use pokebot_pipeline::analysis_config::{PerformanceMode, SceneAnalysisConfig};
use pokebot_pipeline::client_table::ClientTable;
use pokebot_pipeline::detection::{DetectionContext, DetectionResult, DetectionSignal, DetectionSignalType, DetectionMetadata};
use pokebot_pipeline::processing_context::{FrameMetrics, ProcessingStepType};
use pokebot_pipeline::detection_pipeline::{DetectionPipeline, VisualDetector};
use pokebot_pipeline::analyzers::{EnvironmentDetector, HPBarDetector};
use pokebot_pipeline::experience::{ExperienceBuffer, ExperienceCollector};
use pokebot_pipeline::fast_change::FastImageChangeDetector;
use pokebot_pipeline::image_change::{hamming_distance, median_of, thumbnail, ImageChangeDetector};
use pokebot_pipeline::macros::MacroManager;
use pokebot_pipeline::pipeline_config::{ActionSelectionStrategy, AIPipelineFactory, PipelineConfiguration};
use pokebot_pipeline::raster::RgbBuffer;
use pokebot_pipeline::rewards::{Experience, MultiObjectiveReward};
use pokebot_pipeline::smart_action::SmartActionService;
use pokebot_pipeline::types::{EnrichedFrame, GameAction, MacroAction, Scene, State};
use pokebot_pipeline::ui_detectors::{BagMenuDetector, MenuCursorDetector, PokemonDetector, ShinyDetector};

fn image_from(width: u32, height: u32, f: impl Fn(u32, u32) -> (u8, u8, u8)) -> RgbBuffer {
    let mut data = Vec::new();
    for y in 0..height {
        for x in 0..width {
            let (r, g, b) = f(x, y);
            data.extend_from_slice(&[r, g, b]);
        }
    }
    RgbBuffer::from_raw(width, height, data).unwrap()
}

fn frame(scene: Option<Scene>, image: RgbBuffer, id: u128) -> EnrichedFrame {
    EnrichedFrame { client: 9, image, timestamp: 0, program: 0, id, state: scene.map(State::new), action: None }
}

fn signal(t: DetectionSignalType) -> DetectionSignal {
    DetectionSignal { signal_type: t, confidence: 900, location: None, metadata: DetectionMetadata::Empty }
}

#[test]
fn raster_rejects_a_short_buffer() {
    assert!(RgbBuffer::from_raw(2, 2, vec![0; 11]).is_none());
    let img = RgbBuffer::from_raw(2, 1, vec![1, 2, 3, 4, 5, 6]).unwrap();
    assert_eq!(img.pixel(1, 0), (4, 5, 6));
    assert_eq!(img.pixel_checked(2, 0), None);
}

#[test]
fn median_takes_the_upper_middle() {
    assert_eq!(median_of(&vec![5, 1, 3]), 3);
    assert_eq!(median_of(&vec![4, 1, 3, 2]), 3);
    assert_eq!(median_of(&vec![7]), 7);
}

#[test]
fn hamming_counts_differing_bits() {
    assert_eq!(hamming_distance(&vec![true, false, true], &vec![true, true, true]), Some(1));
    assert_eq!(hamming_distance(&vec![true], &vec![true, false]), None);
}

#[test]
fn thumbnail_fits_sixty_four_square() {
    let img = RgbBuffer::from_pixel(200, 100, (10, 20, 30)).unwrap();
    let t = thumbnail(&img);
    assert_eq!((t.width(), t.height()), (64, 32));
    assert_eq!(t.pixel(63, 31), (10, 20, 30));
}

#[test]
fn image_change_needs_a_previous_frame_and_a_changed_picture() {
    let mut d = ImageChangeDetector::new();
    let a = image_from(128, 128, |x, _| if x < 64 { (255, 255, 255) } else { (0, 0, 0) });
    let b = image_from(128, 128, |_, y| if y < 64 { (255, 255, 255) } else { (0, 0, 0) });
    assert!(!d.detect_change(1, &a));
    assert!(!d.detect_change(1, &a));
    assert_eq!(d.get_median_distance(1), Some(0));
    assert!(d.detect_change(1, &b));
    let h = d.get_distance_history(1).unwrap();
    assert_eq!(h.len(), 2);
    assert!(h[1] > 5);
    d.clear_client_data(1);
    assert_eq!(d.get_distance_history(1), None);
}

#[test]
fn fast_change_compares_checksums() {
    let mut d = FastImageChangeDetector::new();
    let a = RgbBuffer::from_pixel(64, 64, (10, 10, 10)).unwrap();
    let b = RgbBuffer::from_pixel(64, 64, (200, 10, 10)).unwrap();
    assert!(!d.detect_change_fast(3, &a));
    assert!(!d.detect_change_fast(3, &a));
    assert!(d.detect_change_fast(3, &b));
    assert_eq!(d.get_performance_stats().tracked_clients, 1);
}

#[test]
fn walking_macro_runs_six_ticks() {
    let service = SmartActionService::new();
    let situation = service.analyze_situation(&frame(Some(Scene::Overworld), RgbBuffer::from_pixel(8, 8, (0, 0, 0)).unwrap(), 1));
    let mut m = MacroManager::new();
    assert_eq!(m.execute_macro(5, &situation, GameAction::Up, false), GameAction::Up);
    let st = m.get_macro_state(5).unwrap();
    assert_eq!((st.action, st.ticks_left), (MacroAction::WalkUp, 5));
    // the macro goes on whatever is suggested
    assert_eq!(m.execute_macro(5, &situation, GameAction::B, false), GameAction::Up);
    assert_eq!(m.get_macro_state(5).unwrap().ticks_left, 4);
    // a changing picture stops a walk; B then starts backing out
    assert_eq!(m.execute_macro(5, &situation, GameAction::B, true), GameAction::B);
    m.force_stop_client_macros(5);
    assert!(m.get_macro_state(5).is_none());
}

#[test]
fn client_table_keeps_one_value_per_client() {
    let mut t: ClientTable<u32> = ClientTable::new();
    t.insert(1, 10);
    t.insert(2, 20);
    t.insert(1, 11);
    assert_eq!(t.len(), 2);
    assert_eq!(t.get(1), Some(&11));
    assert_eq!(t.remove(2), Some(20));
    assert!(!t.contains(2));
    assert_eq!(t.client_ids(), vec![1]);
}

fn experience(id: u128, f: &EnrichedFrame) -> Experience<u8> {
    Experience {
        id,
        reward: 0,
        action: GameAction::A,
        episode_id: 0,
        prediction: 0,
        next_frame: None,
        frame: f.clone(),
        detailed_reward: MultiObjectiveReward { navigation_reward: 0, battle_reward: 0, story_progress_reward: 0 },
    }
}

#[test]
fn experience_buffer_forgets_the_oldest() {
    let f = frame(None, RgbBuffer::from_pixel(1, 1, (0, 0, 0)).unwrap(), 1);
    let mut b: ExperienceBuffer<u8> = ExperienceBuffer::new(2);
    b.add_experience(experience(1, &f));
    b.add_experience(experience(2, &f));
    b.add_experience(experience(3, &f));
    let ids: Vec<u128> = b.experiences().iter().map(|e| e.id).collect();
    assert_eq!(ids, vec![2, 3]);
    let recent: Vec<u128> = b.get_recent_experiences(5).iter().map(|e| e.id).collect();
    assert_eq!(recent, vec![3, 2]);
}

#[test]
fn invalid_pipeline_configurations_are_refused() {
    let mut c = PipelineConfiguration::default();
    assert!(c.validate().is_ok());
    c.image_change_threshold = 0;
    assert_eq!(c.validate(), Err("Image change threshold must be greater than 0".to_string()));
    let mut c = PipelineConfiguration::default();
    c.action_selection_strategy = ActionSelectionStrategy::Hybrid { policy_weight: 1001 };
    assert_eq!(c.validate(), Err("Policy weight must be between 0.0 and 1.0".to_string()));
    match AIPipelineFactory::create_pipeline::<u8>(c) {
        Err(AppError::Client(m)) => assert_eq!(m, "Invalid configuration: Policy weight must be between 0.0 and 1.0"),
        Ok(_) => panic!("an invalid configuration was accepted"),
    }
    assert!(AIPipelineFactory::create_default_pipeline::<u8>().is_ok());
}

#[test]
fn invalid_scene_configurations_are_refused_with_the_reason() {
    let mut c = SceneAnalysisConfig::speed_optimized();
    c.enabled_detectors = Vec::new();
    match SceneAnalysisOrchestrator::new(c) {
        Err(AppError::Client(m)) => assert_eq!(m, "Invalid config: At least one detector must be enabled"),
        Ok(_) => panic!("an invalid configuration was accepted"),
    }
}

#[test]
fn scene_configuration_presets_are_valid() {
    assert!(SceneAnalysisConfig::speed_optimized().validate().is_ok());
    assert!(SceneAnalysisConfig::pokemon_optimized().validate().is_ok());
    assert!(SceneAnalysisConfig::accuracy_optimized().validate().is_ok());
}

#[test]
fn detectors_run_by_priority() {
    let p = DetectionPipeline::new()
        .add_detector(VisualDetector::Environment(EnvironmentDetector::new()))
        .add_detector(VisualDetector::HPBar(HPBarDetector::new()))
        .add_detector(VisualDetector::Shiny(ShinyDetector::new()))
        .add_detector(VisualDetector::BagMenu(BagMenuDetector::new()));
    let order: Vec<u8> = p.get_detector_priorities().iter().map(|(_, p)| *p).collect();
    assert_eq!(order, vec![100, 90, 85, 40]);
    let names = p.get_stats().detector_names;
    assert_eq!(names[0], "ShinyDetector");
}

#[test]
fn menu_cursor_is_found_at_the_mean_of_dark_pixels() {
    let d = MenuCursorDetector::new();
    assert!(d.is_cursor_pixel(10, 20, 30));
    assert!(!d.is_cursor_pixel(60, 60, 60));
    // bright frame with a dark 4 x 4 block on the lower screen at (10..14, 20..24)
    let img = image_from(32, 32, |x, y| if (10..14).contains(&x) && (20..24).contains(&y) { (0, 0, 0) } else { (255, 255, 255) });
    let ctx = DetectionContext::new(&img);
    let r = d.detect(&ctx);
    assert_eq!(r.confidence, 900);
    assert_eq!(r.result.len(), 1);
    assert!(matches!(r.result[0].metadata, DetectionMetadata::Position(11, 21)));
    assert_eq!(r.reasoning, "Menu cursor detection found 16 pixels.");
    let mut ctx = DetectionContext::new(&img);
    assert!(!d.can_process(&ctx));
    ctx.add_signal(signal(DetectionSignalType::MainMenu));
    assert!(d.can_process(&ctx));
}

#[test]
fn bag_colour_over_the_upper_screen_is_a_bag_menu() {
    let d = BagMenuDetector::new();
    assert!(d.is_bag_color(200, 120, 40));
    assert!(!d.is_bag_color(160, 130, 40));
    let img = image_from(16, 32, |_, y| if y < 16 { (200, 120, 40) } else { (0, 0, 0) });
    let r = d.detect(&DetectionContext::new(&img));
    // 16 samples over an expected 16: share 1000
    assert_eq!(r.confidence, 1000);
    assert_eq!(r.result[0].signal_type, DetectionSignalType::BagMenu);
    assert_eq!(r.reasoning, "Bag Menu detection with 100.00% area coverage");
}

#[test]
fn white_frame_is_an_encounter_flash() {
    let d = PokemonDetector::new();
    let img = RgbBuffer::from_pixel(16, 16, (255, 255, 255)).unwrap();
    assert_eq!(d.detect_encounter_flash(&img), (true, 1000));
    let grey = RgbBuffer::from_pixel(16, 16, (128, 128, 128)).unwrap();
    assert_eq!(d.detect_encounter_flash(&grey), (false, 0));
    let r = d.detect(&DetectionContext::new(&img));
    assert_eq!(r.result[0].signal_type, DetectionSignalType::WildPokemonEncounter);
    assert_eq!(r.reasoning, "Pokemon encounter detection. Flash confidence: 1.00");
}

#[test]
fn sparkles_need_bright_isolated_pixels() {
    let d = ShinyDetector::new();
    // white dots on even coordinates of the upper screen, dark grey elsewhere
    let img = image_from(16, 32, |x, y| if x % 4 == 0 && y % 4 == 0 && y < 16 { (255, 255, 255) } else { (20, 20, 20) });
    assert!(d.is_sparkle(&img, 4, 4));
    assert!(!d.is_sparkle(&img, 5, 4));
    let mut ctx = DetectionContext::new(&img);
    ctx.add_signal(signal(DetectionSignalType::HPBar));
    assert!(d.can_process(&ctx));
    let r = d.detect(&ctx);
    assert_eq!(r.confidence, 950);
    assert!(matches!(r.result[0].metadata, DetectionMetadata::Count(16)));
    assert_eq!(r.reasoning, "Shiny detection found 16 sparkles");
}

#[test]
fn accuracy_orchestrator_lists_its_detectors_by_priority() {
    let c = SceneAnalysisConfig::default().with_performance_mode(PerformanceMode::Accuracy);
    let o = SceneAnalysisOrchestrator::new(c).unwrap();
    let s = o.get_pipeline_stats();
    assert_eq!(s.total_detectors, 5);
    assert_eq!(s.detector_names, vec!["HPBarDetector", "MenuDetector", "MenuDetector", "TextDetector", "TextDetector"]);
    assert!(!s.early_termination_enabled);
    assert_eq!(s.max_processing_time_us, 20_000);
}

#[test]
fn given_readings_decide_where_a_run_stops() {
    let img = image_from(32, 32, |x, y| if (10..14).contains(&x) && (20..24).contains(&y) { (0, 0, 0) } else { (255, 255, 255) });
    let p = DetectionPipeline::new()
        .add_detector(VisualDetector::MenuCursor(MenuCursorDetector::new()))
        .with_max_processing_time(1_000);
    let mut ctx = DetectionContext::new(&img);
    ctx.add_signal(signal(DetectionSignalType::MainMenu));
    let within = p.process_timed(ctx, &vec![1_000], 1_500);
    assert_eq!(within.result.previous_signals.len(), 2);
    assert_eq!(within.confidence, 900);
    assert_eq!(within.processing_time_us, 1_500);
    let mut ctx = DetectionContext::new(&img);
    ctx.add_signal(signal(DetectionSignalType::MainMenu));
    let spent = p.process_timed(ctx, &vec![1_001], 1_600);
    assert_eq!(spent.result.previous_signals.len(), 1);
    assert_eq!(spent.confidence, 0);
    assert_eq!(spent.processing_time_us, 1_600);
}

#[test]
fn measured_times_are_recorded_as_given() {
    let mut m = FrameMetrics::new();
    m.record_duration(ProcessingStepType::SceneAnalysis, 40);
    m.record_total(125);
    assert_eq!(m, FrameMetrics { scene_analysis_duration_us: 40, total_processing_duration_us: 125 });
    let r = DetectionResult::new(7u8, 300, String::new()).with_processing_time(99);
    assert_eq!(r.processing_time_us, 99);
    assert_eq!(r.result, 7);
}

#[test]
fn training_batches_are_drawn_from_the_buffer() {
    let f = frame(None, RgbBuffer::from_pixel(1, 1, (0, 0, 0)).unwrap(), 1);
    let mut c: ExperienceCollector<u8> = ExperienceCollector::new(200);
    let mut batches = Vec::new();
    for id in 0..48u128 {
        if let Some(b) = c.collect_experience(experience(1000 + id, &f)) {
            batches.push(b);
        }
    }
    // due at 32 and 48 buffered experiences
    assert_eq!(batches.len(), 2);
    assert_eq!(batches[0].len(), 32);
    assert_eq!(batches[1].len(), 48);
    for b in &batches {
        let mut ids: Vec<u128> = b.iter().map(|e| e.id).collect();
        assert!(ids.iter().all(|id| (1000..1048).contains(id)));
        ids.sort();
        ids.dedup();
        assert_eq!(ids.len(), b.len());
    }
}
