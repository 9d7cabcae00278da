use pokebot_pipeline::client_state::ClientStateManager;
use pokebot_pipeline::smart_action::ActionDecision;
use pokebot_pipeline::analysis_config::{DetectorType, SceneAnalysisConfig};
use pokebot_pipeline::analyzers::{HPBarDetector, TextDetector};
use pokebot_pipeline::detection::DetectionContext;
use pokebot_pipeline::raster::RgbBuffer;
use pokebot_pipeline::region::ImageRegion;
use pokebot_pipeline::scene_detectors::BattleSceneDetector;
use pokebot_pipeline::text::{bool_str, decimal_string, join, region_string, scene_str};
use pokebot_pipeline::types::{game_action_to_index, index_to_game_action, GameAction, Scene};

#[test]
fn action_numbers_round_trip() {
    let all = [
        GameAction::A, GameAction::B, GameAction::Up, GameAction::Down, GameAction::Left, GameAction::Right,
        GameAction::Start, GameAction::Select, GameAction::L, GameAction::R, GameAction::X,
    ];
    for (i, a) in all.iter().enumerate() {
        assert_eq!(game_action_to_index(*a), i);
        assert_eq!(index_to_game_action(i), *a);
    }
}

#[test]
fn enabling_twice_is_enabling_once() {
    let c = SceneAnalysisConfig::speed_optimized();
    let once = c.enable_detector(DetectorType::Shiny);
    let n = once.enabled_detectors.len();
    let twice = once.enable_detector(DetectorType::Shiny);
    assert_eq!(twice.enabled_detectors.len(), n);
    assert_eq!(twice.enabled_detectors.last(), Some(&DetectorType::Shiny));
}

#[test]
fn disabling_removes_every_occurrence() {
    let c = SceneAnalysisConfig::speed_optimized()
        .enable_detector(DetectorType::Water)
        .disable_detector(DetectorType::MainMenu);
    assert!(!c.enabled_detectors.contains(&DetectorType::MainMenu));
    assert_eq!(c.enabled_detectors, vec![DetectorType::DialogBox, DetectorType::BattleMenu, DetectorType::Water]);
}

#[test]
fn texts_match_rust_formatting() {
    for n in [0u64, 7, 10, 12345, u64::MAX] {
        assert_eq!(decimal_string(n), n.to_string());
    }
    let r = ImageRegion::new(0, 12, 64, 16);
    assert_eq!(region_string(r), format!("{:?}", r));
    assert_eq!(bool_str(true), "true");
    assert_eq!(scene_str(Scene::MainMenu), format!("{:?}", Scene::MainMenu));
    assert_eq!(join(&vec!["a".to_string(), "b".to_string(), "c".to_string()], "; "), "a; b; c");
    assert_eq!(join(&vec![], "; "), "");
}

#[test]
fn detections_explain_themselves() {
    let img = RgbBuffer::from_pixel(32, 16, (0, 0, 0)).unwrap();
    let ctx = DetectionContext::new(&img);
    assert_eq!(
        HPBarDetector::new().detect(&ctx).reasoning,
        "HP Bar detection in region ImageRegion { x: 0, y: 0, width: 32, height: 4 }"
    );
    assert_eq!(TextDetector::new().detect(&ctx).reasoning, "Text detection found 0 regions");
    assert_eq!(
        BattleSceneDetector::new().detect_scene(&ctx).reasoning,
        "Battle detection: HP bars=false, menu=false"
    );
}

#[test]
fn decision_history_keeps_only_the_newest() {
    let mut m = ClientStateManager::new().with_max_history(2);
    let acts = [GameAction::A, GameAction::B, GameAction::Up];
    for a in acts.iter() {
        m.add_decision_to_history(7, ActionDecision {
            action: *a,
            confidence: 50,
            reasoning: String::new(),
            expected_outcome: String::new(),
        });
    }
    let h = m.get_decision_history(7);
    assert_eq!(h.len(), 2);
    assert_eq!(h[0].action, GameAction::B);
    assert_eq!(h[1].action, GameAction::Up);
    let recent = m.get_recent_decisions(7, 1);
    assert_eq!(recent.len(), 1);
    assert_eq!(recent[0].action, GameAction::Up);
    assert!(m.get_decision_history(8).is_empty());
}
