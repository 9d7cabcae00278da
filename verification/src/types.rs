//! Core game vocabulary shared by every service of the pipeline.

use vstd::prelude::*;
use crate::raster::{RgbBuffer, same_image};

verus! {

/// The coarse kind of screen the game is currently showing.
#[derive(Clone, Copy, Debug, PartialEq, Eq, Structural, Hash)]
pub enum Scene {
    Battle,
    MainMenu,
    Intro,
    Overworld,
    NameCreation,
    Unknown,
}

/// A button press sent to the emulator.
#[derive(Clone, Copy, Debug, PartialEq, Eq, Structural, Hash)]
pub enum GameAction {
    A,
    B,
    Up,
    Down,
    Left,
    Right,
    Start,
    Select,
    L,
    R,
    X,
}

/// A short scripted behaviour that repeats one button for a few ticks.
#[derive(Clone, Copy, Debug, PartialEq, Eq, Structural, Hash)]
pub enum MacroAction {
    AdvanceDialog,
    WalkUp,
    WalkDown,
    WalkLeft,
    WalkRight,
    MenuSelect,
    MenuBack,
    PressStart,
}

/// Milestones of the story, in the order the game reaches them.
#[derive(Clone, Copy, Debug, PartialEq, Eq, Structural, Hash)]
pub enum StoryProgress {
    GameStart,
    StarterObtained,
    FirstGym,
    SecondGym,
    ThirdGym,
    FourthGym,
    FifthGym,
    SixthGym,
    SeventhGym,
    EighthGym,
    EliteFour,
    Champion,
    PostGame,
}

/// Kind of place the player is standing in.
#[derive(Clone, Copy, Debug, PartialEq, Eq, Structural, Hash)]
pub enum LocationType {
    Unknown,
    PokemonCenter,
    Gym,
    Cave,
    City,
    Town,
    Building,
    Water,
    Route,
}

/// A map position, in tiles.
#[derive(Clone, Copy, Debug, PartialEq, Eq, Structural)]
pub struct TilePosition {
    pub x: i32,
    pub y: i32,
}

/// A menu cursor position, in cells.
#[derive(Clone, Copy, Debug, PartialEq, Eq, Structural)]
pub struct CursorPosition {
    pub x: u32,
    pub y: u32,
}

/// What is known of the game state behind a frame.
#[derive(Clone, Copy, Debug, PartialEq, Eq, Structural)]
pub struct State {
    pub scene: Scene,
    pub player_position: TilePosition,
    pub pokemon_count: u32,
    pub location_type: LocationType,
    pub pokedex_seen: u32,
    pub pokedex_caught: u32,
    pub badges_earned: u32,
    pub story_progress: StoryProgress,
    pub in_tall_grass: bool,
    pub menu_cursor_position: Option<CursorPosition>,
    pub battle_turn: Option<u32>,
    pub last_encounter_steps: u32,
    pub encounter_chain: u32,
}

/// The state that scene detection attaches to a frame that had none.
pub open spec fn spec_default_state(scene: Scene) -> State {
    State {
        scene,
        player_position: TilePosition { x: 0, y: 0 },
        pokemon_count: 0,
        location_type: LocationType::Unknown,
        pokedex_seen: 0,
        pokedex_caught: 0,
        badges_earned: 0,
        story_progress: StoryProgress::GameStart,
        in_tall_grass: false,
        menu_cursor_position: None,
        battle_turn: None,
        last_encounter_steps: 0,
        encounter_chain: 0,
    }
}

impl State {
    /// A fresh state for a frame showing `scene`: nothing caught, seen or
    /// earned yet.
    pub fn new(scene: Scene) -> (r: State)
        ensures r == spec_default_state(scene),
    {
        State {
            scene,
            player_position: TilePosition { x: 0, y: 0 },
            pokemon_count: 0,
            location_type: LocationType::Unknown,
            pokedex_seen: 0,
            pokedex_caught: 0,
            badges_earned: 0,
            story_progress: StoryProgress::GameStart,
            in_tall_grass: false,
            menu_cursor_position: None,
            battle_turn: None,
            last_encounter_steps: 0,
            encounter_chain: 0,
        }
    }
}

/// A captured frame together with what the pipeline has learnt about it.
pub struct EnrichedFrame {
    /// The emulator client that sent the frame.
    pub client: u128,
    pub image: RgbBuffer,
    /// Capture time, milliseconds since the Unix epoch.
    pub timestamp: i64,
    pub program: u32,
    pub id: u128,
    pub state: Option<State>,
    pub action: Option<GameAction>,
}

/// Two frames that agree in every part, the image byte for byte.
pub open spec fn same_frame(a: EnrichedFrame, b: EnrichedFrame) -> bool {
    &&& a.client == b.client
    &&& same_image(a.image, b.image)
    &&& a.timestamp == b.timestamp
    &&& a.program == b.program
    &&& a.id == b.id
    &&& a.state == b.state
    &&& a.action == b.action
}

impl Clone for EnrichedFrame {
    fn clone(&self) -> (r: Self)
        ensures same_frame(r, *self),
    {
        EnrichedFrame {
            client: self.client,
            image: self.image.clone(),
            timestamp: self.timestamp,
            program: self.program,
            id: self.id,
            state: self.state,
            action: self.action,
        }
    }
}

/// The scene recorded in a frame's state, `Unknown` when there is none.
pub open spec fn frame_scene(state: Option<State>) -> Scene {
    match state {
        Some(s) => s.scene,
        None => Scene::Unknown,
    }
}

pub fn scene_of(state: &Option<State>) -> (r: Scene)
    ensures r == frame_scene(*state),
{
    match state {
        Some(s) => s.scene,
        None => Scene::Unknown,
    }
}

/// Position of an action in the order A, B, Up, Down, Left, Right, Start,
/// Select, L, R, X.
pub open spec fn action_index(a: GameAction) -> int {
    match a {
        GameAction::A => 0,
        GameAction::B => 1,
        GameAction::Up => 2,
        GameAction::Down => 3,
        GameAction::Left => 4,
        GameAction::Right => 5,
        GameAction::Start => 6,
        GameAction::Select => 7,
        GameAction::L => 8,
        GameAction::R => 9,
        GameAction::X => 10,
    }
}

/// The action at position `i` of that order; X for every index past it.
pub open spec fn action_at(i: int) -> GameAction {
    if i == 0 {
        GameAction::A
    } else if i == 1 {
        GameAction::B
    } else if i == 2 {
        GameAction::Up
    } else if i == 3 {
        GameAction::Down
    } else if i == 4 {
        GameAction::Left
    } else if i == 5 {
        GameAction::Right
    } else if i == 6 {
        GameAction::Start
    } else if i == 7 {
        GameAction::Select
    } else if i == 8 {
        GameAction::L
    } else if i == 9 {
        GameAction::R
    } else {
        GameAction::X
    }
}

/// Number of distinct actions.
pub const ACTION_COUNT: usize = 11;

pub fn game_action_to_index(a: GameAction) -> (r: usize)
    ensures r == action_index(a), r < ACTION_COUNT,
{
    match a {
        GameAction::A => 0,
        GameAction::B => 1,
        GameAction::Up => 2,
        GameAction::Down => 3,
        GameAction::Left => 4,
        GameAction::Right => 5,
        GameAction::Start => 6,
        GameAction::Select => 7,
        GameAction::L => 8,
        GameAction::R => 9,
        GameAction::X => 10,
    }
}

pub fn index_to_game_action(i: usize) -> (r: GameAction)
    ensures r == action_at(i as int),
{
    if i == 0 {
        GameAction::A
    } else if i == 1 {
        GameAction::B
    } else if i == 2 {
        GameAction::Up
    } else if i == 3 {
        GameAction::Down
    } else if i == 4 {
        GameAction::Left
    } else if i == 5 {
        GameAction::Right
    } else if i == 6 {
        GameAction::Start
    } else if i == 7 {
        GameAction::Select
    } else if i == 8 {
        GameAction::L
    } else if i == 9 {
        GameAction::R
    } else {
        GameAction::X
    }
}

/// Numbering actions and reading the number back gives the same action, and
/// every number below eleven names a different action.
pub proof fn lemma_action_index_roundtrip()
    ensures
        forall|a: GameAction| #[trigger] action_at(action_index(a)) == a,
        forall|a: GameAction| 0 <= #[trigger] action_index(a) < ACTION_COUNT,
        forall|i: int| 0 <= i < ACTION_COUNT ==> #[trigger] action_index(action_at(i)) == i,
{
}

/// Position of a milestone in story order.
pub open spec fn story_rank(p: StoryProgress) -> int {
    match p {
        StoryProgress::GameStart => 0,
        StoryProgress::StarterObtained => 1,
        StoryProgress::FirstGym => 2,
        StoryProgress::SecondGym => 3,
        StoryProgress::ThirdGym => 4,
        StoryProgress::FourthGym => 5,
        StoryProgress::FifthGym => 6,
        StoryProgress::SixthGym => 7,
        StoryProgress::SeventhGym => 8,
        StoryProgress::EighthGym => 9,
        StoryProgress::EliteFour => 10,
        StoryProgress::Champion => 11,
        StoryProgress::PostGame => 12,
    }
}

pub fn story_progress_rank(p: StoryProgress) -> (r: u8)
    ensures r == story_rank(p),
{
    match p {
        StoryProgress::GameStart => 0,
        StoryProgress::StarterObtained => 1,
        StoryProgress::FirstGym => 2,
        StoryProgress::SecondGym => 3,
        StoryProgress::ThirdGym => 4,
        StoryProgress::FourthGym => 5,
        StoryProgress::FifthGym => 6,
        StoryProgress::SixthGym => 7,
        StoryProgress::SeventhGym => 8,
        StoryProgress::EighthGym => 9,
        StoryProgress::EliteFour => 10,
        StoryProgress::Champion => 11,
        StoryProgress::PostGame => 12,
    }
}

} // verus!
