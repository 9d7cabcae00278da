use pokebot_pipeline::raster::RgbBuffer;
use pokebot_pipeline::rewards::StoryProgressRewardCalculator;
use pokebot_pipeline::types::{EnrichedFrame, GameAction, LocationType, Scene, State, StoryProgress};

fn create_test_frame(story_progress: StoryProgress, badges: u32, seen: u32, caught: u32) -> EnrichedFrame {
    let image = RgbBuffer::from_pixel(16, 16, (1, 2, 3)).unwrap();
    let mut state = State::new(Scene::Overworld);
    state.pokemon_count = 1;
    state.location_type = LocationType::Town;
    state.pokedex_seen = seen;
    state.pokedex_caught = caught;
    state.badges_earned = badges;
    state.story_progress = story_progress;
    EnrichedFrame { client: 7, image, timestamp: 0, program: 0, id: 8, state: Some(state), action: None }
}

#[test]
fn test_story_progress_rewards() {
    let mut calculator = StoryProgressRewardCalculator::new();
    let frame1 = create_test_frame(StoryProgress::GameStart, 0, 0, 0);
    assert_eq!(calculator.calculate_reward(&frame1, GameAction::A, None), 0);
    let frame2 = create_test_frame(StoryProgress::StarterObtained, 0, 1, 1);
    // 5.0 story + 0.5 seen + 1.0 caught, in hundredths
    assert_eq!(calculator.calculate_reward(&frame2, GameAction::A, None), 500 + 50 + 100);
    let frame3 = create_test_frame(StoryProgress::FirstGym, 1, 3, 2);
    // 10.0 story + 8.0 badge + 1.0 for two seen + 1.0 caught
    assert_eq!(calculator.calculate_reward(&frame3, GameAction::A, None), 1000 + 800 + 100 + 100);
}

#[test]
fn test_badge_rewards() {
    let mut calculator = StoryProgressRewardCalculator::new();
    let frame1 = create_test_frame(StoryProgress::FirstGym, 0, 0, 0);
    calculator.calculate_reward(&frame1, GameAction::A, None);
    let frame2 = create_test_frame(StoryProgress::FirstGym, 2, 0, 0);
    assert_eq!(calculator.calculate_reward(&frame2, GameAction::A, None), 1600);
}

#[test]
fn test_pokedex_rewards() {
    let mut calculator = StoryProgressRewardCalculator::new();
    let frame1 = create_test_frame(StoryProgress::GameStart, 0, 5, 3);
    calculator.calculate_reward(&frame1, GameAction::A, None);
    let frame2 = create_test_frame(StoryProgress::GameStart, 0, 8, 5);
    assert_eq!(calculator.calculate_reward(&frame2, GameAction::A, None), 150 + 200);
}

#[test]
fn frame_without_state_earns_nothing_and_is_forgotten() {
    let mut calculator = StoryProgressRewardCalculator::new();
    let frame1 = create_test_frame(StoryProgress::GameStart, 0, 0, 0);
    calculator.calculate_reward(&frame1, GameAction::A, None);
    let mut empty = create_test_frame(StoryProgress::GameStart, 0, 0, 0);
    empty.state = None;
    assert_eq!(calculator.calculate_reward(&empty, GameAction::A, None), 0);
    let frame2 = create_test_frame(StoryProgress::StarterObtained, 0, 0, 0);
    assert_eq!(calculator.calculate_reward(&frame2, GameAction::A, None), 500);
}

#[test]
fn skipped_milestones_and_regressions() {
    let mut calculator = StoryProgressRewardCalculator::new();
    calculator.calculate_reward(&create_test_frame(StoryProgress::GameStart, 0, 0, 0), GameAction::A, None);
    // jumping several milestones at once earns the flat 5.0
    assert_eq!(calculator.calculate_reward(&create_test_frame(StoryProgress::ThirdGym, 0, 0, 0), GameAction::A, None), 500);
    // going back earns nothing
    assert_eq!(calculator.calculate_reward(&create_test_frame(StoryProgress::FirstGym, 0, 0, 0), GameAction::A, None), 0);
    // Eighth gym to Elite Four earns 15.0, Elite Four to Champion 20.0
    calculator.calculate_reward(&create_test_frame(StoryProgress::EighthGym, 0, 0, 0), GameAction::A, None);
    assert_eq!(calculator.calculate_reward(&create_test_frame(StoryProgress::EliteFour, 0, 0, 0), GameAction::A, None), 1500);
    assert_eq!(calculator.calculate_reward(&create_test_frame(StoryProgress::Champion, 0, 0, 0), GameAction::A, None), 2000);
}
