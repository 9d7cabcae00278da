use pokebot_pipeline::fast_situation::FastSituationAnalyzer;
use pokebot_pipeline::ai_pipeline::AIPipelineService;
use pokebot_pipeline::client_state::ClientStateManager;
use pokebot_pipeline::frame_context::{FrameContext, SceneType};
use pokebot_pipeline::optimized_pipeline::PerformanceOptimizedPipelineFactory;
use pokebot_pipeline::pipeline_config::PipelineConfiguration;
use pokebot_pipeline::processing::{AnalyzerService, ProcessingPipelineBuilder, SceneAnalyzer};
use pokebot_pipeline::raster::RgbBuffer;
use pokebot_pipeline::rewards::{
    BattleRewardCalculator, MultiObjectiveReward, MultiObjectiveRewardProcessor, NavigationRewardCalculator,
    StoryProgressRewardCalculator,
};
use pokebot_pipeline::services::ActionService;
use pokebot_pipeline::smart_action::SmartActionService;
use pokebot_pipeline::types::{EnrichedFrame, GameAction, Scene, State};

fn frame(scene: Option<Scene>, id: u128) -> EnrichedFrame {
    EnrichedFrame {
        client: 4,
        image: RgbBuffer::from_pixel(8, 8, (0, 0, 0)).unwrap(),
        timestamp: 0,
        program: 0,
        id,
        state: scene.map(State::new),
        action: None,
    }
}

#[test]
fn test_analyzer_service() {
    let mut analyzer_service = AnalyzerService::new(SceneAnalyzer::new());
    let image = RgbBuffer::from_pixel(100, 100, (255, 255, 255)).unwrap();
    let frame_context = FrameContext::new(image);
    let response = analyzer_service.call(frame_context).unwrap();
    assert!(response.analysis().scene_type() == SceneType::Unknown);
    assert!(response.metrics().analysis_duration().is_some());
}

#[test]
fn scene_analyzer_threshold() {
    assert_eq!(SceneAnalyzer::new().confidence_threshold(), 800);
    assert_eq!(SceneAnalyzer::new().with_confidence_threshold(650).confidence_threshold(), 650);
}

#[test]
fn pipeline_builder_keeps_its_settings() {
    let b = ProcessingPipelineBuilder::new()
        .timeout(time::Duration::seconds(2))
        .rate_limit((30, time::Duration::seconds(1)))
        .enable_metrics(true);
    assert_eq!(b.timeout, Some(time::Duration::seconds(2)));
    assert_eq!(b.rate_limit, Some((30, time::Duration::seconds(1))));
    assert!(b.enable_metrics);
    assert!(ProcessingPipelineBuilder::default().timeout.is_none());
}

#[test]
fn navigation_rewards() {
    let nav = NavigationRewardCalculator::new();
    let intro = frame(Some(Scene::Intro), 1);
    let overworld = frame(Some(Scene::Overworld), 2);
    assert_eq!(nav.calculate_reward(&intro, GameAction::A, Some(&overworld)), 100);
    assert_eq!(nav.calculate_reward(&overworld, GameAction::Up, Some(&overworld)), -10);
    assert_eq!(nav.calculate_reward(&overworld, GameAction::Up, None), -1);
    let battle = frame(Some(Scene::Battle), 3);
    assert_eq!(nav.calculate_reward(&overworld, GameAction::A, Some(&battle)), 50);
}

#[test]
fn battle_rewards() {
    let b = BattleRewardCalculator::new();
    let battle = frame(Some(Scene::Battle), 1);
    let overworld = frame(Some(Scene::Overworld), 2);
    assert_eq!(b.calculate_reward(&overworld, GameAction::A, Some(&battle)), 50);
    assert_eq!(b.calculate_reward(&battle, GameAction::A, Some(&battle)), 10);
    assert_eq!(b.calculate_reward(&battle, GameAction::A, Some(&overworld)), 100);
    assert_eq!(b.calculate_reward(&overworld, GameAction::A, Some(&overworld)), -1);
}

#[test]
fn weighted_reward_is_two_three_five() {
    let m = MultiObjectiveReward { navigation_reward: 1, battle_reward: 2, story_progress_reward: 3 };
    assert_eq!(m.normalize(), 23);
    assert_eq!(m.to_vector(), vec![1, 2, 3]);
}

#[test]
fn repeated_state_earns_nothing() {
    let mut calc = StoryProgressRewardCalculator::new();
    let mut f = frame(Some(Scene::Overworld), 1);
    if let Some(st) = f.state.as_mut() {
        st.badges_earned = 3;
        st.pokedex_seen = 7;
    }
    assert_eq!(calc.calculate_reward(&f, GameAction::A, None), 3 * 800 + 7 * 50);
    assert_eq!(calc.calculate_reward(&f, GameAction::A, None), 0);
}

#[test]
fn middle_frame_is_rewarded_once_three_are_buffered() {
    let mut p: MultiObjectiveRewardProcessor<u8> = MultiObjectiveRewardProcessor::new(NavigationRewardCalculator::new());
    assert!(p.process_frame(&frame(Some(Scene::Intro), 1), GameAction::A, 1).is_none());
    assert!(p.process_frame(&frame(Some(Scene::Intro), 2), GameAction::Start, 2).is_none());
    let e = p.process_frame(&frame(Some(Scene::Overworld), 3), GameAction::A, 3).unwrap();
    assert_eq!(e.action, GameAction::Start);
    assert_eq!(e.prediction, 2);
    assert_eq!(e.frame.id, 2);
    assert_eq!(e.next_frame.as_ref().map(|f| f.id), Some(3));
    // leaving the intro: navigation 1.00, battle -0.01, no story progress
    assert_eq!(e.detailed_reward, MultiObjectiveReward { navigation_reward: 100, battle_reward: -1, story_progress_reward: 0 });
    assert_eq!(e.reward, 2 * 100 - 3);
}

#[test]
fn intro_timer_starts_once() {
    let mut m = ClientStateManager::new();
    m.update_intro_tracking(1, Scene::Intro, 100);
    m.update_intro_tracking(1, Scene::Intro, 200);
    assert_eq!(m.get_client_state(1).unwrap().get_intro_duration(300), Some(200));
    assert!(m.is_client_intro_stuck(1, 150, 300));
    m.update_intro_tracking(1, Scene::Overworld, 400);
    assert_eq!(m.get_client_state(1).unwrap().get_intro_duration(500), None);
    assert!(!m.is_client_intro_stuck(2, 0, 500));
}

#[test]
fn ai_pipeline_runs_a_frame_in_two_halves() {
    let mut ai: AIPipelineService<u8> = AIPipelineService::new(0);
    let obs = ai.observe_frame(frame(Some(Scene::Intro), 1), 10);
    assert_eq!(obs.situation.scene, Scene::Unknown);
    let acts = ai.complete_frame(&obs.annotated, obs.situation, 70, GameAction::Up, 0, 10, 20);
    assert_eq!(acts.action, GameAction::Up);
    assert_eq!(acts.forced_action, None);
    let stats = ai.get_stats();
    assert_eq!(stats.total_frames_processed, 1);
    assert_eq!(stats.total_decisions_made, 1);
    assert_eq!(stats.total_actions_sent, 1);
    assert_eq!(stats.average_confidence, 70);
    assert_eq!(ai.get_client_decisions(4).len(), 1);
    assert_eq!(ai.get_debug_snapshot().last_client, Some(4));
}

#[test]
fn optimized_pipelines_are_assembled_per_level() {
    let mut ultra = PerformanceOptimizedPipelineFactory::create_ultra_fast_pipeline::<u8>().unwrap();
    assert!(!ultra.learning_enabled);
    assert!(!ultra.debug_tracking_enabled);
    assert_eq!(ultra.policy_update_frequency, 200);
    let (f, _, decision) = ultra.scene_analysis.process(frame(Some(Scene::Battle), 1));
    assert_eq!(f.state.unwrap().scene, Scene::Battle);
    assert_eq!((decision.action, decision.confidence), (GameAction::A, 70));
    assert_eq!(decision.reasoning, "Fast analysis decision");
    let a = RgbBuffer::from_pixel(64, 64, (0, 0, 0)).unwrap();
    let b = RgbBuffer::from_pixel(64, 64, (90, 90, 90)).unwrap();
    assert!(!ultra.image_change.process(1, &a, None, 0));
    assert!(ultra.image_change.process(1, &b, None, 0));
    let fast = PerformanceOptimizedPipelineFactory::create_fast_pipeline::<u8>().unwrap();
    assert!(fast.learning_enabled);
    assert_eq!(fast.policy_update_frequency, 100);
    let mut bad = PipelineConfiguration::default();
    bad.max_client_history = 0;
    assert!(PerformanceOptimizedPipelineFactory::create_optimized_pipeline::<u8>(
        bad,
        pokebot_pipeline::optimized_pipeline::OptimizationLevel::Fast
    )
    .is_err());
}

#[test]
fn action_service_mostly_follows_the_rules() {
    let s = ActionService::new();
    let f = frame(Some(Scene::Intro), 1);
    let presses_a = (0..200).filter(|_| s.choose_action(&f) == GameAction::A).count();
    assert!(presses_a > 150);
    let _ = SmartActionService::new();
}

#[test]
fn experience_ids_are_random_version_four_ids() {
    let mut p: MultiObjectiveRewardProcessor<u8> = MultiObjectiveRewardProcessor::new(NavigationRewardCalculator::new());
    p.process_frame(&frame(Some(Scene::Intro), 1), GameAction::A, 1);
    p.process_frame(&frame(Some(Scene::Intro), 2), GameAction::A, 2);
    let e = p.process_frame(&frame(Some(Scene::Overworld), 3), GameAction::A, 3).unwrap();
    for id in [e.id, e.episode_id] {
        assert_eq!((id >> 76) & 0xf, 4);
        assert_eq!((id >> 62) & 0x3, 2);
    }
    assert_ne!(e.id, e.episode_id);
}

#[test]
fn empty_frames_are_processed_like_any_other() {
    let mut ai: AIPipelineService<u8> = AIPipelineService::new(0);
    for id in 1..=2u128 {
        let mut f = frame(None, id);
        f.image = RgbBuffer::from_raw(0, 0, Vec::new()).unwrap();
        let obs = ai.observe_frame(f, 10 * id as u64);
        let acts = ai.complete_frame(&obs.annotated, obs.situation, 50, GameAction::A, 0, 10, 20);
        assert_eq!(acts.forced_action, None);
    }
    let stats = ai.get_stats();
    assert_eq!(stats.total_frames_processed, 2);
    assert_eq!(stats.total_actions_sent, 2);
    assert_eq!(ai.get_client_decisions(4).len(), 2);
    let empty = RgbBuffer::from_raw(0, 0, Vec::new()).unwrap();
    let t = pokebot_pipeline::image_change::thumbnail(&empty);
    assert_eq!((t.width(), t.height()), (1, 1));
}

#[test]
fn three_frames_in_one_scene_cost_the_middle_one_a_tenth() {
    let mut p: MultiObjectiveRewardProcessor<u8> = MultiObjectiveRewardProcessor::new(NavigationRewardCalculator::new());
    assert!(p.process_frame(&frame(Some(Scene::Battle), 1), GameAction::A, 1).is_none());
    assert!(p.process_frame(&frame(Some(Scene::Battle), 2), GameAction::B, 2).is_none());
    let e = p.process_frame(&frame(Some(Scene::Battle), 3), GameAction::Up, 3).unwrap();
    assert_eq!(e.action, GameAction::B);
    assert_eq!(e.frame.id, 2);
    // in battle without change: navigation -0.01 less the 0.1 stall penalty
    assert_eq!(e.detailed_reward.navigation_reward, -1 - 10);
    let e = p.process_frame(&frame(Some(Scene::Overworld), 4), GameAction::Down, 4).unwrap();
    assert_eq!(e.action, GameAction::Up);
    assert_eq!(e.frame.id, 3);
    assert_eq!(e.next_frame.as_ref().map(|f| f.id), Some(4));
    // the scene changed: 0.5 for the new scene, no stall penalty
    assert_eq!(e.detailed_reward.navigation_reward, 50);
}

#[test]
fn intro_duration_only_grows_while_the_intro_shows() {
    let mut m = ClientStateManager::new();
    m.update_intro_tracking(9, Scene::Intro, 100);
    let first = m.get_client_state(9).unwrap().get_intro_duration(150).unwrap();
    m.update_intro_tracking(9, Scene::Intro, 400);
    let later = m.get_client_state(9).unwrap().get_intro_duration(400).unwrap();
    assert_eq!((first, later), (50, 300));
    assert!(m.is_client_intro_stuck(9, 250, 400));
    m.update_intro_tracking(9, Scene::Intro, 500);
    assert!(m.is_client_intro_stuck(9, 250, 500));
}

#[test]
fn fast_analyser_caches_by_image_content() {
    let mut a = FastSituationAnalyzer::new().with_expensive_analysis(true);
    let dark = frame(None, 5);
    let mut light = frame(None, 5);
    light.image = RgbBuffer::from_pixel(8, 8, (255, 255, 255)).unwrap();
    assert_eq!(a.analyze_situation_fast(&dark).scene, Scene::Intro);
    // the same frame id with another image is analysed afresh
    assert_eq!(a.analyze_situation_fast(&light).scene, Scene::Battle);
    let stats = a.get_cache_stats();
    assert!(stats.has_rgb_cache && stats.has_analysis_cache);
    a.clear_cache();
    let stats = a.get_cache_stats();
    assert!(!stats.has_rgb_cache && !stats.has_analysis_cache);
}

#[test]
fn shared_counters_change_only_when_a_frame_completes() {
    let mut ai: AIPipelineService<u8> = AIPipelineService::new(0);
    let before = ai.get_stats_shared();
    let obs = ai.observe_frame(frame(Some(Scene::Overworld), 1), 10);
    // the frame is counted, but a failed policy call would end it here
    assert_eq!(ai.get_stats().total_frames_processed, 1);
    assert_eq!(ai.get_stats_shared(), before);
    ai.complete_frame(&obs.annotated, obs.situation, 60, GameAction::Left, 0, 10, 20);
    assert_eq!(ai.get_stats_shared(), ai.get_stats());
    assert_eq!(ai.get_stats_shared().total_frames_processed, 1);
}
