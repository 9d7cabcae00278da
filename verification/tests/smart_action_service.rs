use pokebot_pipeline::raster::RgbBuffer;
use pokebot_pipeline::smart_action::{ActionDecision, SmartActionService, UrgencyLevel};
use pokebot_pipeline::types::{EnrichedFrame, GameAction, Scene, State};

fn create_mock_frame(scene: Scene, _has_text: bool, _has_menu: bool) -> EnrichedFrame {
    let image = RgbBuffer::from_pixel(1, 1, (0, 0, 0)).unwrap();
    EnrichedFrame {
        client: 1,
        image,
        timestamp: 1_700_000_000_000,
        program: 1,
        id: 2,
        state: Some(State::new(scene)),
        action: None,
    }
}

/// Exploration picks a random button one time in ten; runs the loop on a
/// fresh service until no decision explored, so the rule-based answers can
/// be checked exactly.
fn learning_loop_without_exploration() -> (SmartActionService, Vec<ActionDecision>) {
    for _ in 0..500 {
        let mut service = SmartActionService::new();
        let frames = vec![
            create_mock_frame(Scene::Intro, true, false),
            create_mock_frame(Scene::MainMenu, false, true),
            create_mock_frame(Scene::Unknown, false, false),
        ];
        let decisions = service.demonstrate_learning_loop(frames);
        if decisions.iter().all(|d| d.confidence != 10) {
            return (service, decisions);
        }
    }
    panic!("every run explored");
}

#[test]
fn test_smart_action_service_creation() {
    let service = SmartActionService::new();
    assert_eq!(service.history_len(), 0);
}

#[test]
fn test_basic_rules_setup() {
    let service = SmartActionService::new();
    assert!(service.has_rules_for(Scene::MainMenu));
    assert!(service.has_rules_for(Scene::Intro));
    assert!(service.has_rules_for(Scene::Unknown));
}

#[test]
fn test_main_menu_decision() {
    let service = SmartActionService::new();
    let frame = create_mock_frame(Scene::MainMenu, false, true);
    let situation = service.analyze_situation(&frame);
    assert_eq!(situation.scene, Scene::MainMenu);
    let decision = service.decide(&situation, None);
    assert_eq!(decision.action, GameAction::Start);
    assert_eq!(decision.confidence, 70);
    assert!(decision.reasoning.contains("Start to begin game"));
}

#[test]
fn test_intro_scene_decision() {
    let service = SmartActionService::new();
    let frame = create_mock_frame(Scene::Intro, true, false);
    let situation = service.analyze_situation(&frame);
    assert_eq!(situation.scene, Scene::Intro);
    assert_eq!(situation.urgency_level, UrgencyLevel::Low);
    let decision = service.decide(&situation, None);
    assert_eq!(decision.action, GameAction::A);
    assert_eq!(decision.confidence, 70);
    assert!(decision.reasoning.contains("intro"));
}

#[test]
fn test_learning_from_experience() {
    let mut service = SmartActionService::new();
    let initial_frame = create_mock_frame(Scene::Unknown, false, false);
    let initial_situation = service.analyze_situation(&initial_frame);
    service.record_experience(initial_situation, GameAction::Up, true);
    assert_eq!(service.history_len(), 1);
    let stats = service.get_learning_stats();
    assert_eq!(stats.total_actions, 1);
    assert_eq!(stats.successful_actions, 1);
    assert_eq!(stats.success_rate_permille, 1000);
}

#[test]
fn test_feedback_loop() {
    let (service, decisions) = learning_loop_without_exploration();
    assert_eq!(decisions.len(), 3);
    assert_eq!(decisions[0].action, GameAction::A);
    assert!(decisions[0].reasoning.contains("intro"));
    assert_eq!(decisions[1].action, GameAction::Start);
    assert!(decisions[1].reasoning.contains("Start to begin game"));
    assert_eq!(decisions[2].action, GameAction::A);
    assert!(decisions[2].reasoning.contains("unknown"));
    let stats = service.get_learning_stats();
    assert_eq!(stats.total_actions, 2);
    assert!(stats.success_rate_permille > 0);
}

#[test]
fn test_urgency_levels() {
    let service = SmartActionService::new();
    let menu_frame = create_mock_frame(Scene::MainMenu, false, true);
    assert_eq!(service.analyze_situation(&menu_frame).urgency_level, UrgencyLevel::Low);
    let intro_frame = create_mock_frame(Scene::Intro, false, false);
    assert_eq!(service.analyze_situation(&intro_frame).urgency_level, UrgencyLevel::Low);
    let unknown_frame = create_mock_frame(Scene::Unknown, true, false);
    assert_eq!(service.analyze_situation(&unknown_frame).urgency_level, UrgencyLevel::Low);
}

#[test]
fn learned_action_wins_over_rules() {
    let mut service = SmartActionService::new();
    let frame = create_mock_frame(Scene::MainMenu, false, false);
    let situation = service.analyze_situation(&frame);
    service.record_experience(situation, GameAction::B, true);
    service.record_experience(situation, GameAction::B, true);
    service.record_experience(situation, GameAction::A, true);
    let decision = service.decide(&situation, None);
    assert_eq!(decision.action, GameAction::B);
    assert_eq!(decision.confidence, 80);
}

#[test]
fn failed_experience_is_not_learned() {
    let mut service = SmartActionService::new();
    let frame = create_mock_frame(Scene::Intro, false, false);
    let situation = service.analyze_situation(&frame);
    service.record_experience(situation, GameAction::B, false);
    let decision = service.decide(&situation, None);
    assert_eq!(decision.action, GameAction::A);
    assert_eq!(decision.confidence, 70);
    let stats = service.get_learning_stats();
    assert_eq!(stats.successful_actions, 0);
    assert_eq!(stats.success_rate_permille, 0);
}

#[test]
fn exploration_takes_the_drawn_action() {
    let service = SmartActionService::new();
    let frame = create_mock_frame(Scene::Intro, false, false);
    let situation = service.analyze_situation(&frame);
    let decision = service.decide(&situation, Some(GameAction::L));
    assert_eq!(decision.action, GameAction::L);
    assert_eq!(decision.confidence, 10);
}

#[test]
fn overworld_falls_back_to_heuristics() {
    let service = SmartActionService::new();
    let frame = create_mock_frame(Scene::Overworld, false, false);
    let situation = service.analyze_situation(&frame);
    let decision = service.decide(&situation, None);
    assert_eq!(decision.action, GameAction::Up);
    assert_eq!(decision.confidence, 30);
}

#[test]
fn history_is_capped() {
    let mut service = SmartActionService::new();
    let frame = create_mock_frame(Scene::Intro, false, false);
    let situation = service.analyze_situation(&frame);
    for _ in 0..1005 {
        service.record_experience(situation, GameAction::A, true);
    }
    assert_eq!(service.history_len(), 1000);
}

#[test]
fn success_needs_a_change() {
    let service = SmartActionService::new();
    let a = service.analyze_situation(&create_mock_frame(Scene::Intro, false, false));
    let b = service.analyze_situation(&create_mock_frame(Scene::MainMenu, false, false));
    assert!(service.is_action_successful(&a, &b));
    assert!(!service.is_action_successful(&a, &a));
}

#[test]
fn full_history_drops_the_oldest_success_from_the_count() {
    let mut service = SmartActionService::new();
    let situation = service.analyze_situation(&create_mock_frame(Scene::Intro, false, false));
    service.record_experience(situation, GameAction::A, true);
    for _ in 0..999 {
        service.record_experience(situation, GameAction::B, false);
    }
    assert_eq!(service.get_learning_stats().successful_actions, 1);
    // the oldest record, a success, goes; the new one fails
    service.record_experience(situation, GameAction::B, false);
    assert_eq!(service.get_learning_stats().successful_actions, 0);
    // a new success counts once more
    service.record_experience(situation, GameAction::A, true);
    assert_eq!(service.get_learning_stats().successful_actions, 1);
    assert_eq!(service.history_len(), 1000);
}

#[test]
fn learning_loop_records_each_previous_action() {
    let (service, decisions) = learning_loop_without_exploration();
    assert_eq!(decisions.len(), 3);
    assert_eq!(decisions[0].action, GameAction::A);
    assert_eq!(decisions[1].action, GameAction::Start);
    let stats = service.get_learning_stats();
    // intro -> main menu and main menu -> unknown both changed the scene
    assert_eq!(stats.total_actions, 2);
    assert_eq!(stats.successful_actions, 2);
}

#[test]
fn make_decision_follows_the_rule_or_explores() {
    let mut service = SmartActionService::new();
    let situation = service.analyze_situation(&create_mock_frame(Scene::MainMenu, false, true));
    for _ in 0..50 {
        let decision = service.make_decision(&situation);
        if decision.confidence == 10 {
            assert_eq!(decision.reasoning, "Exploring a random action");
        } else {
            assert_eq!(decision.action, GameAction::Start);
            assert_eq!(decision.confidence, 70);
            assert!(decision.reasoning.contains("Start to begin game"));
        }
    }
    assert_eq!(service.history_len(), 0);
}
