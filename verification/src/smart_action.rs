//! Rule- and experience-based action selection.
//!
//! A situation is read off a frame by cheap heuristics; an action is then
//! chosen, in this order, by occasional random exploration, by the action
//! that most often succeeded in similar past situations, by the fixed rules
//! of the current scene, or by a fallback heuristic.

use vstd::prelude::*;
use crate::types::{
    Scene, GameAction, EnrichedFrame, State, frame_scene, scene_of, action_at, action_index,
    index_to_game_action, game_action_to_index, lemma_action_index_roundtrip, ACTION_COUNT,
};
use crate::raster::RgbBuffer;
use crate::heuristics::{
    ColorName, has_text, has_menu, has_dialog_box, cursor_row_ok, dominant_colors_ok,
    detect_text_simple, detect_menu_simple, detect_dialog_box_bottom, detect_menu_cursor_row,
    get_dominant_colors_simple,
};
use crate::random::{chance, random_index};

verus! {

/// How quickly the agent has to act.
#[derive(Clone, Copy, Debug, PartialEq, Eq, Structural)]
pub enum UrgencyLevel {
    /// Walking around, exploring.
    Low,
    /// In a menu, choosing options.
    Medium,
    /// In battle, acting quickly.
    High,
    /// Health low, in danger.
    Critical,
}

/// Up to three colour names, most frequent first.
#[derive(Clone, Copy, Debug, PartialEq, Eq, Structural)]
pub struct ColorRanking {
    pub first: Option<ColorName>,
    pub second: Option<ColorName>,
    pub third: Option<ColorName>,
}

impl ColorRanking {
    /// The listed colours in order; a listing stops at its first gap.
    pub open spec fn colors(self) -> Seq<ColorName> {
        match self.first {
            None => seq![],
            Some(a) => match self.second {
                None => seq![a],
                Some(b) => match self.third {
                    None => seq![a, b],
                    Some(c) => seq![a, b, c],
                },
            },
        }
    }

    /// The ranking holding the first three colours of `v`.
    pub fn from_vec(v: &Vec<ColorName>) -> (r: ColorRanking)
        requires v@.len() <= 3,
        ensures r.colors() == v@,
    {
        let n = v.len();
        let r = ColorRanking {
            first: if n > 0 { Some(v[0]) } else { None },
            second: if n > 1 { Some(v[1]) } else { None },
            third: if n > 2 { Some(v[2]) } else { None },
        };
        proof {
            if n == 0 { assert(v@ =~= seq![]); }
            if n == 1 { assert(v@ =~= seq![v@[0]]); }
            if n == 2 { assert(v@ =~= seq![v@[0], v@[1]]); }
            if n == 3 { assert(v@ =~= seq![v@[0], v@[1], v@[2]]); }
        }
        r
    }

    /// The listed colours in order.
    pub fn to_vec(&self) -> (r: Vec<ColorName>)
        ensures r@ == self.colors(),
    {
        let mut v: Vec<ColorName> = Vec::new();
        if let Some(a) = self.first {
            v.push(a);
            if let Some(b) = self.second {
                v.push(b);
                if let Some(c) = self.third {
                    v.push(c);
                }
            }
        }
        proof {
            assert(v@ =~= self.colors());
        }
        v
    }
}

/// What the agent perceives of the current frame.
#[derive(Clone, Copy, Debug, PartialEq, Eq, Structural)]
pub struct GameSituation {
    pub scene: Scene,
    pub has_text: bool,
    pub has_menu: bool,
    pub has_buttons: bool,
    pub in_dialog: bool,
    pub cursor_row: Option<u32>,
    pub dominant_colors: ColorRanking,
    pub urgency_level: UrgencyLevel,
}

/// An action with the confidence (in percent) and the reasons behind it.
#[derive(Debug)]
pub struct ActionDecision {
    pub action: GameAction,
    pub confidence: u8,
    pub reasoning: String,
    pub expected_outcome: String,
}

impl Clone for ActionDecision {
    fn clone(&self) -> (r: Self)
        ensures r == *self,
    {
        ActionDecision {
            action: self.action,
            confidence: self.confidence,
            reasoning: self.reasoning.clone(),
            expected_outcome: self.expected_outcome.clone(),
        }
    }
}

/// Counters over the recorded experiences.
#[derive(Clone, Copy, Debug, PartialEq, Eq, Structural)]
pub struct LearningStats {
    pub total_actions: usize,
    pub successful_actions: usize,
    /// Successful share of the recorded actions, in thousandths, rounded down.
    pub success_rate_permille: u32,
    pub action_history_size: usize,
}

/// When a basic rule applies to a situation.
#[derive(Clone, Copy, Debug, PartialEq, Eq, Structural)]
pub enum RuleCondition {
    /// Main menu showing buttons.
    MainMenuWithButtons,
    /// Main menu showing no buttons.
    MainMenuWithoutButtons,
    /// Intro or unidentified screen.
    IntroOrUnknown,
    /// Unidentified screen.
    UnknownScene,
}

pub open spec fn condition_holds(c: RuleCondition, s: GameSituation) -> bool {
    match c {
        RuleCondition::MainMenuWithButtons => s.scene == Scene::MainMenu && s.has_buttons,
        RuleCondition::MainMenuWithoutButtons => s.scene == Scene::MainMenu && !s.has_buttons,
        RuleCondition::IntroOrUnknown => s.scene == Scene::Intro || s.scene == Scene::Unknown,
        RuleCondition::UnknownScene => s.scene == Scene::Unknown,
    }
}

pub fn rule_condition_holds(c: RuleCondition, s: &GameSituation) -> (r: bool)
    ensures r == condition_holds(c, *s),
{
    match c {
        RuleCondition::MainMenuWithButtons => s.scene == Scene::MainMenu && s.has_buttons,
        RuleCondition::MainMenuWithoutButtons => s.scene == Scene::MainMenu && !s.has_buttons,
        RuleCondition::IntroOrUnknown => s.scene == Scene::Intro || s.scene == Scene::Unknown,
        RuleCondition::UnknownScene => s.scene == Scene::Unknown,
    }
}

/// A fixed rule: when `condition` holds press `action`; among several rules
/// that hold, the lowest `priority` wins.
pub struct ActionRule {
    pub condition: RuleCondition,
    pub action: GameAction,
    pub priority: u8,
    pub description: String,
}

/// The rules that apply in one scene.
pub struct SceneRules {
    pub scene: Scene,
    pub rules: Vec<ActionRule>,
}

/// One recorded experience: the situation, the action taken in it and
/// whether the action succeeded.
#[derive(Clone, Copy, Debug, PartialEq, Eq, Structural)]
pub struct ActionRecord {
    pub situation: GameSituation,
    pub action: GameAction,
    pub was_successful: bool,
}

/// Number of experiences kept; older ones are forgotten first.
pub const MAX_HISTORY: usize = 1000;

// ---------------------------------------------------------------- perception

/// How urgent a scene is, given whether text and a menu are visible. Scenes
/// not covered by the basic rules take the urgency the fast analyser gives
/// them: battles are urgent, name entry asks for a choice, the overworld
/// does not.
pub open spec fn urgency_of(scene: Scene, has_text: bool, has_menu: bool) -> UrgencyLevel {
    match scene {
        Scene::MainMenu => if has_menu { UrgencyLevel::Medium } else { UrgencyLevel::Low },
        Scene::Intro => UrgencyLevel::Low,
        Scene::Unknown => if has_text { UrgencyLevel::Medium } else { UrgencyLevel::Low },
        Scene::Battle => UrgencyLevel::High,
        Scene::NameCreation => UrgencyLevel::Medium,
        Scene::Overworld => UrgencyLevel::Low,
    }
}

pub fn determine_urgency(scene: Scene, has_text: bool, has_menu: bool) -> (r: UrgencyLevel)
    ensures r == urgency_of(scene, has_text, has_menu),
{
    match scene {
        Scene::MainMenu => if has_menu { UrgencyLevel::Medium } else { UrgencyLevel::Low },
        Scene::Intro => UrgencyLevel::Low,
        Scene::Unknown => if has_text { UrgencyLevel::Medium } else { UrgencyLevel::Low },
        Scene::Battle => UrgencyLevel::High,
        Scene::NameCreation => UrgencyLevel::Medium,
        Scene::Overworld => UrgencyLevel::Low,
    }
}

/// `s` is what the heuristics read off a frame with this state and image.
pub open spec fn situation_ok(state: Option<State>, img: RgbBuffer, s: GameSituation) -> bool {
    &&& s.scene == frame_scene(state)
    &&& s.has_text == has_text(img)
    &&& s.has_menu == has_menu(img)
    &&& s.has_buttons == s.has_menu
    &&& s.in_dialog == has_dialog_box(img)
    &&& cursor_row_ok(img, s.cursor_row)
    &&& dominant_colors_ok(img, s.dominant_colors.colors())
    &&& s.urgency_level == urgency_of(s.scene, s.has_text, s.has_menu)
}

/// Reads the situation off a frame: the scene from its state (`Unknown`
/// without one) and text, menus, dialog box, highlighted row and dominant
/// colours from its image.
pub fn analyze_frame(state: &Option<State>, img: &RgbBuffer) -> (r: GameSituation)
    ensures situation_ok(*state, *img, r),
{
    let scene = scene_of(state);
    let has_text = detect_text_simple(img);
    let has_menu = detect_menu_simple(img);
    let in_dialog = detect_dialog_box_bottom(img);
    let cursor_row = detect_menu_cursor_row(img);
    let colors = get_dominant_colors_simple(img);
    let dominant_colors = ColorRanking::from_vec(&colors);
    let urgency_level = determine_urgency(scene, has_text, has_menu);
    GameSituation {
        scene,
        has_text,
        has_menu,
        has_buttons: has_menu,
        in_dialog,
        cursor_row,
        dominant_colors,
        urgency_level,
    }
}

// ---------------------------------------------------------------- decisions

/// The action and description of the basic rule for a situation, if any.
pub open spec fn basic_rule(s: GameSituation) -> Option<(GameAction, Seq<char>)> {
    match s.scene {
        Scene::MainMenu => if s.has_buttons {
            Some((GameAction::A, "Press A to select menu option"@))
        } else {
            Some((GameAction::Start, "Press Start to begin game"@))
        },
        Scene::Intro => Some((GameAction::A, "Press A to advance through intro"@)),
        Scene::Unknown => Some((GameAction::A, "Press A to advance through unknown"@)),
        _ => None,
    }
}

/// The action taken when neither experience nor a rule decides.
pub open spec fn heuristic_action(s: GameSituation) -> GameAction {
    match s.urgency_level {
        UrgencyLevel::Critical | UrgencyLevel::High | UrgencyLevel::Medium => GameAction::A,
        UrgencyLevel::Low => if s.has_text || s.in_dialog { GameAction::A } else { GameAction::Up },
    }
}

pub fn heuristic_decision(s: &GameSituation) -> (r: GameAction)
    ensures r == heuristic_action(*s),
{
    match s.urgency_level {
        UrgencyLevel::Critical => GameAction::A,
        UrgencyLevel::High => GameAction::A,
        UrgencyLevel::Medium => GameAction::A,
        UrgencyLevel::Low => if s.has_text || s.in_dialog { GameAction::A } else { GameAction::Up },
    }
}

/// A past experience in a situation like `s` (same scene, text, menu,
/// dialog and highlighted row) whose action succeeded.
pub open spec fn similar_success(r: ActionRecord, s: GameSituation) -> bool {
    &&& r.situation.scene == s.scene
    &&& r.situation.has_text == s.has_text
    &&& r.situation.has_menu == s.has_menu
    &&& r.situation.in_dialog == s.in_dialog
    &&& r.situation.cursor_row == s.cursor_row
    &&& r.was_successful
}

/// How often action `a` succeeded in situations like `s`.
pub open spec fn success_count(h: Seq<ActionRecord>, s: GameSituation, a: GameAction) -> nat
    decreases h.len(),
{
    if h.len() == 0 {
        0
    } else {
        success_count(h.drop_last(), s, a)
            + (if similar_success(h.last(), s) && h.last().action == a { 1nat } else { 0nat })
    }
}

/// Some past action succeeded in a situation like `s`.
pub open spec fn has_experience(h: Seq<ActionRecord>, s: GameSituation) -> bool {
    exists|i: int| 0 <= i < h.len() && similar_success(#[trigger] h[i], s)
}

/// `a` succeeded in situations like `s` at least as often as any other action.
pub open spec fn most_successful(h: Seq<ActionRecord>, s: GameSituation, a: GameAction) -> bool {
    &&& success_count(h, s, a) > 0
    &&& forall|b: GameAction| #[trigger] success_count(h, s, b) <= success_count(h, s, a)
}

/// `d` is the decision for situation `s` with experience `h`, given the
/// outcome of the exploration draw (`Some` action when exploring).
pub open spec fn decision_ok(h: Seq<ActionRecord>, s: GameSituation, explore: Option<GameAction>, d: ActionDecision) -> bool {
    match explore {
        Some(a) => {
            &&& d.action == a
            &&& d.confidence == 10
            &&& d.reasoning@ == "Exploring a random action"@
            &&& d.expected_outcome@ == "Unknown"@
        },
        None => if has_experience(h, s) {
            &&& most_successful(h, s, d.action)
            &&& d.confidence == 80
            &&& d.reasoning@ == "Based on successful past experience"@
            &&& d.expected_outcome@ == "Should work based on history"@
        } else if basic_rule(s) is Some {
            &&& d.action == basic_rule(s).unwrap().0
            &&& d.confidence == 70
            &&& d.reasoning@ == basic_rule(s).unwrap().1
            &&& d.expected_outcome@ == "Follow basic game logic"@
        } else {
            &&& d.action == heuristic_action(s)
            &&& d.confidence == 30
            &&& d.reasoning@ == "Using heuristic fallback"@
            &&& d.expected_outcome@ == "Unknown outcome"@
        },
    }
}

/// Whether an action moved the game on: the dialog opened or closed, the
/// highlighted row moved, the scene changed, or text or a menu appeared or
/// disappeared.
pub open spec fn action_succeeded(prev: GameSituation, cur: GameSituation) -> bool {
    ||| prev.in_dialog != cur.in_dialog
    ||| (prev.cursor_row is Some && cur.cursor_row is Some && prev.cursor_row != cur.cursor_row)
    ||| prev.scene != cur.scene
    ||| prev.has_text != cur.has_text
    ||| prev.has_menu != cur.has_menu
}

/// `h` after recording `r`: appended, the oldest dropped past the limit.
pub open spec fn history_after(h: Seq<ActionRecord>, r: ActionRecord) -> Seq<ActionRecord> {
    if h.len() >= MAX_HISTORY { h.push(r).drop_first() } else { h.push(r) }
}

pub open spec fn successful_count(h: Seq<ActionRecord>) -> nat
    decreases h.len(),
{
    if h.len() == 0 {
        0
    } else {
        successful_count(h.drop_last()) + (if h.last().was_successful { 1nat } else { 0nat })
    }
}

pub proof fn lemma_successful_count_bound(h: Seq<ActionRecord>)
    ensures successful_count(h) <= h.len(),
    decreases h.len(),
{
    if h.len() > 0 {
        lemma_successful_count_bound(h.drop_last());
    }
}

proof fn lemma_successful_count_drop_first(s: Seq<ActionRecord>)
    requires s.len() > 0,
    ensures
        successful_count(s.drop_first()) + (if s[0].was_successful { 1int } else { 0int }) == successful_count(s),
    decreases s.len(),
{
    let b: int = if s[0].was_successful { 1 } else { 0 };
    if s.len() == 1 {
        assert(s.drop_first().len() == 0);
        assert(s.drop_last().len() == 0);
        assert(successful_count(s.drop_first()) == 0);
        assert(successful_count(s) == successful_count(s.drop_last()) + b);
    } else {
        let l: int = if s.last().was_successful { 1 } else { 0 };
        lemma_successful_count_drop_first(s.drop_last());
        assert(s.drop_first().drop_last() =~= s.drop_last().drop_first());
        assert(s.drop_first().last() == s.last());
        assert(s.drop_last()[0] == s[0]);
        assert(successful_count(s.drop_first()) == successful_count(s.drop_first().drop_last()) + l);
        assert(successful_count(s) == successful_count(s.drop_last()) + l);
    }
}

/// Recording an outcome counts one more success when it succeeded and,
/// once the history is full, one fewer when the oldest record dropped was a
/// success.
pub proof fn lemma_success_count_after_record(h: Seq<ActionRecord>, r: ActionRecord)
    ensures
        successful_count(history_after(h, r)) == successful_count(h)
            + (if r.was_successful { 1int } else { 0int })
            - (if h.len() >= MAX_HISTORY && h[0].was_successful { 1int } else { 0int }),
{
    let t = h.push(r);
    assert(t.drop_last() =~= h);
    if h.len() >= MAX_HISTORY {
        lemma_successful_count_drop_first(t);
        assert(t[0] == h[0]);
    }
}

/// Chooses actions for game situations and learns from their outcomes.
pub struct SmartActionService {
    scene_rules: Vec<SceneRules>,
    action_history: Vec<ActionRecord>,
}


pub open spec fn rule_is(r: ActionRule, c: RuleCondition, a: GameAction, p: u8, d: Seq<char>) -> bool {
    r.condition == c && r.action == a && r.priority == p && r.description@ == d
}

/// The basic rule table: main menu (select with buttons, start without),
/// intro, and unidentified screens.
pub open spec fn basic_rules_table(t: Seq<SceneRules>) -> bool {
    &&& t.len() == 3
    &&& t[0].scene == Scene::MainMenu
    &&& t[0].rules@.len() == 2
    &&& rule_is(t[0].rules@[0], RuleCondition::MainMenuWithButtons, GameAction::A, 1, "Press A to select menu option"@)
    &&& rule_is(t[0].rules@[1], RuleCondition::MainMenuWithoutButtons, GameAction::Start, 2, "Press Start to begin game"@)
    &&& t[1].scene == Scene::Intro
    &&& t[1].rules@.len() == 1
    &&& rule_is(t[1].rules@[0], RuleCondition::IntroOrUnknown, GameAction::A, 1, "Press A to advance through intro"@)
    &&& t[2].scene == Scene::Unknown
    &&& t[2].rules@.len() == 1
    &&& rule_is(t[2].rules@[0], RuleCondition::UnknownScene, GameAction::A, 1, "Press A to advance through unknown"@)
}

fn make_rule(condition: RuleCondition, action: GameAction, priority: u8, description: &str) -> (r: ActionRule)
    ensures rule_is(r, condition, action, priority, description@),
{
    ActionRule { condition, action, priority, description: description.to_owned() }
}

/// The basic rules for the main menu, the intro and unidentified screens.
fn setup_basic_rules() -> (r: Vec<SceneRules>)
    ensures basic_rules_table(r@),
{
    let mut main_menu_rules: Vec<ActionRule> = Vec::new();
    main_menu_rules.push(make_rule(RuleCondition::MainMenuWithButtons, GameAction::A, 1, "Press A to select menu option"));
    main_menu_rules.push(make_rule(RuleCondition::MainMenuWithoutButtons, GameAction::Start, 2, "Press Start to begin game"));
    let mut intro_rules: Vec<ActionRule> = Vec::new();
    intro_rules.push(make_rule(RuleCondition::IntroOrUnknown, GameAction::A, 1, "Press A to advance through intro"));
    let mut unknown_rules: Vec<ActionRule> = Vec::new();
    unknown_rules.push(make_rule(RuleCondition::UnknownScene, GameAction::A, 1, "Press A to advance through unknown"));
    let mut table: Vec<SceneRules> = Vec::new();
    table.push(SceneRules { scene: Scene::MainMenu, rules: main_menu_rules });
    table.push(SceneRules { scene: Scene::Intro, rules: intro_rules });
    table.push(SceneRules { scene: Scene::Unknown, rules: unknown_rules });
    table
}

impl SmartActionService {
    #[verifier::type_invariant]
    closed spec fn inv(self) -> bool {
        &&& self.action_history@.len() <= MAX_HISTORY
        &&& basic_rules_table(self.scene_rules@)
    }

    /// The recorded experiences, oldest first.
    pub closed spec fn history(&self) -> Seq<ActionRecord> {
        self.action_history@
    }

    /// The scenes that have basic rules.
    pub closed spec fn rule_scenes(&self) -> Seq<Scene> {
        self.scene_rules@.map_values(|e: SceneRules| e.scene)
    }

    /// A service with the basic rules and no experience.
    pub fn new() -> (r: SmartActionService)
        ensures
            r.history() == Seq::<ActionRecord>::empty(),
            r.rule_scenes() == seq![Scene::MainMenu, Scene::Intro, Scene::Unknown],
    {
        let r = SmartActionService { scene_rules: setup_basic_rules(), action_history: Vec::new() };
        proof {
            assert(r.rule_scenes() =~= seq![Scene::MainMenu, Scene::Intro, Scene::Unknown]);
        }
        r
    }

    /// Number of recorded experiences.
    pub fn history_len(&self) -> (r: usize)
        ensures r == self.history().len(),
    {
        self.action_history.len()
    }

    /// Whether basic rules exist for `scene`.
    pub fn has_rules_for(&self, scene: Scene) -> (r: bool)
        ensures r == self.rule_scenes().contains(scene),
    {
        let mut i: usize = 0;
        while i < self.scene_rules.len()
            invariant
                i <= self.scene_rules@.len(),
                forall|k: int| 0 <= k < i ==> self.scene_rules@[k].scene != scene,
            decreases self.scene_rules@.len() - i,
        {
            if self.scene_rules[i].scene == scene {
                proof {
                    assert(self.rule_scenes()[i as int] == scene);
                }
                return true;
            }
            i = i + 1;
        }
        proof {
            if self.rule_scenes().contains(scene) {
                let k = choose|k: int| 0 <= k < self.rule_scenes().len() && self.rule_scenes()[k] == scene;
                assert(self.scene_rules@[k].scene == scene);
            }
        }
        false
    }

    /// Reads the situation off a frame.
    pub fn analyze_situation(&self, frame: &EnrichedFrame) -> (r: GameSituation)
        ensures situation_ok(frame.state, frame.image, r),
    {
        analyze_frame(&frame.state, &frame.image)
    }

    /// Whether the action taken in `prev` moved the game on by `cur`.
    pub fn is_action_successful(&self, prev_situation: &GameSituation, current_situation: &GameSituation) -> (r: bool)
        ensures r == action_succeeded(*prev_situation, *current_situation),
    {
        if prev_situation.in_dialog != current_situation.in_dialog {
            return true;
        }
        if prev_situation.cursor_row.is_some() && current_situation.cursor_row.is_some()
            && prev_situation.cursor_row != current_situation.cursor_row {
            return true;
        }
        if prev_situation.scene != current_situation.scene {
            return true;
        }
        if prev_situation.has_text != current_situation.has_text {
            return true;
        }
        if prev_situation.has_menu != current_situation.has_menu {
            return true;
        }
        false
    }

    /// Records an experience, forgetting the oldest beyond the limit.
    pub fn record_experience(&mut self, situation: GameSituation, action: GameAction, was_successful: bool)
        ensures
            final(self).history() == history_after(old(self).history(), ActionRecord { situation, action, was_successful }),
    {
        proof { use_type_invariant(&*self); }
        let record = ActionRecord { situation, action, was_successful };
        let mut history: Vec<ActionRecord> = Vec::new();
        std::mem::swap(&mut history, &mut self.action_history);
        if history.len() >= MAX_HISTORY {
            history.remove(0);
        }
        history.push(record);
        proof {
            let h = old(self).history();
            if h.len() >= MAX_HISTORY {
                assert(history@ =~= h.push(record).drop_first());
            }
        }
        std::mem::swap(&mut history, &mut self.action_history);
    }

    /// Records the outcome of an action taken in `situation`.
    pub fn record_action_result(
        &mut self,
        situation: GameSituation,
        action: GameAction,
        was_successful: bool,
        next_situation: Option<GameSituation>,
    )
        ensures
            final(self).history() == history_after(old(self).history(), ActionRecord { situation, action, was_successful }),
    {
        self.record_experience(situation, action, was_successful);
    }

    /// Counts of recorded and successful experiences.
    pub fn get_learning_stats(&self) -> (r: LearningStats)
        ensures
            r.total_actions == self.history().len(),
            r.action_history_size == self.history().len(),
            r.successful_actions == successful_count(self.history()),
            r.success_rate_permille == (if self.history().len() > 0 {
                successful_count(self.history()) * 1000 / self.history().len()
            } else {
                0
            }),
    {
        proof { use_type_invariant(self); }
        let total = self.action_history.len();
        let mut ok: usize = 0;
        let mut i: usize = 0;
        while i < total
            invariant
                total == self.action_history@.len(),
                total <= MAX_HISTORY,
                i <= total,
                ok <= i,
                ok == successful_count(self.action_history@.take(i as int)),
            decreases total - i,
        {
            proof {
                assert(self.action_history@.take(i + 1).drop_last() =~= self.action_history@.take(i as int));
            }
            if self.action_history[i].was_successful {
                ok = ok + 1;
            }
            i = i + 1;
        }
        proof {
            assert(self.action_history@.take(total as int) =~= self.action_history@);
        }
        let rate: u32 = if total > 0 { ((ok as u64 * 1000) / total as u64) as u32 } else { 0 };
        LearningStats { total_actions: total, successful_actions: ok, success_rate_permille: rate, action_history_size: total }
    }

    /// The action and description of the first applicable basic rule of the
    /// situation's scene, lowest priority first.
    fn apply_scene_rules(&self, situation: &GameSituation) -> (r: Option<(GameAction, String)>)
        ensures
            r is Some <==> basic_rule(*situation) is Some,
            r matches Some(p) ==> p.0 == basic_rule(*situation).unwrap().0 && p.1@ == basic_rule(*situation).unwrap().1,
    {
        proof { use_type_invariant(self); }
        let mut e: usize = 0;
        while e < self.scene_rules.len() && self.scene_rules[e].scene != situation.scene
            invariant
                basic_rules_table(self.scene_rules@),
                e <= self.scene_rules@.len(),
                forall|k: int| 0 <= k < e ==> self.scene_rules@[k].scene != situation.scene,
            decreases self.scene_rules@.len() - e,
        {
            e = e + 1;
        }
        if e == self.scene_rules.len() {
            proof {
                assert(self.scene_rules@[0].scene != situation.scene);
                assert(self.scene_rules@[1].scene != situation.scene);
                assert(self.scene_rules@[2].scene != situation.scene);
            }
            return None;
        }
        let rules = &self.scene_rules[e].rules;
        let mut best: Option<usize> = None;
        let mut i: usize = 0;
        while i < rules.len()
            invariant
                i <= rules@.len(),
                best is None ==> forall|k: int| 0 <= k < i ==> !condition_holds(#[trigger] rules@[k].condition, *situation),
                best matches Some(b) ==> {
                    &&& b < i
                    &&& condition_holds(rules@[b as int].condition, *situation)
                    &&& forall|k: int| 0 <= k < i && condition_holds(#[trigger] rules@[k].condition, *situation)
                        ==> rules@[b as int].priority <= rules@[k].priority
                    &&& forall|k: int| 0 <= k < b && condition_holds(#[trigger] rules@[k].condition, *situation)
                        ==> rules@[b as int].priority < rules@[k].priority
                },
            decreases rules@.len() - i,
        {
            if rule_condition_holds(rules[i].condition, situation) {
                match best {
                    None => { best = Some(i); },
                    Some(b) => {
                        if rules[i].priority < rules[b].priority {
                            best = Some(i);
                        }
                    },
                }
            }
            i = i + 1;
        }
        proof {
            let t = self.scene_rules@;
            assert(rules@ == t[e as int].rules@);
            assert(t[e as int].scene == situation.scene);
            if e == 0 {
                assert(condition_holds(rules@[0].condition, *situation) || condition_holds(rules@[1].condition, *situation));
            } else if e == 1 {
                assert(condition_holds(rules@[0].condition, *situation));
            } else {
                assert(e == 2);
                assert(condition_holds(rules@[0].condition, *situation));
            }
        }
        match best {
            None => None,
            Some(b) => Some((rules[b].action, rules[b].description.clone())),
        }
    }

    /// The action that most often succeeded in situations like this one,
    /// if any did; among equally frequent actions the first in button order.
    fn get_learned_action(&self, situation: &GameSituation) -> (r: Option<GameAction>)
        ensures
            r is Some <==> has_experience(self.history(), *situation),
            r matches Some(a) ==> most_successful(self.history(), *situation, a),
    {
        proof { use_type_invariant(self); lemma_action_index_roundtrip(); }
        let h = &self.action_history;
        let ghost hs = h@;
        let mut counts: Vec<u64> = vec![0, 0, 0, 0, 0, 0, 0, 0, 0, 0, 0];
        let mut i: usize = 0;
        while i < h.len()
            invariant
                hs == h@,
                hs.len() <= MAX_HISTORY,
                i <= hs.len(),
                counts@.len() == ACTION_COUNT,
                forall|k: int| 0 <= k < ACTION_COUNT ==> #[trigger] counts@[k] == success_count(hs.take(i as int), *situation, action_at(k)),
                forall|k: int| 0 <= k < ACTION_COUNT ==> #[trigger] counts@[k] <= i,
            decreases hs.len() - i,
        {
            proof {
                lemma_action_index_roundtrip();
                assert(hs.take(i + 1).drop_last() =~= hs.take(i as int));
            }
            let rec = h[i];
            if rec.situation.scene == situation.scene && rec.situation.has_text == situation.has_text
                && rec.situation.has_menu == situation.has_menu && rec.situation.in_dialog == situation.in_dialog
                && rec.situation.cursor_row == situation.cursor_row && rec.was_successful {
                let k = game_action_to_index(rec.action);
                let v = counts[k];
                counts.set(k, v + 1);
            }
            i = i + 1;
        }
        proof {
            assert(hs.take(hs.len() as int) =~= hs);
        }
        let mut best: usize = 0;
        let mut j: usize = 1;
        while j < ACTION_COUNT
            invariant
                counts@.len() == ACTION_COUNT,
                1 <= j <= ACTION_COUNT,
                best < j,
                forall|k: int| 0 <= k < j ==> #[trigger] counts@[k] <= counts@[best as int],
            decreases ACTION_COUNT - j,
        {
            if counts[j] > counts[best] {
                best = j;
            }
            j = j + 1;
        }
        proof {
            lemma_action_index_roundtrip();
            assert forall|b: GameAction| #[trigger] success_count(hs, *situation, b) <= success_count(hs, *situation, action_at(best as int)) by {
                assert(counts@[action_index(b)] == success_count(hs, *situation, b));
            }
            lemma_experience_counts(hs, *situation);
        }
        if counts[best] > 0 {
            Some(index_to_game_action(best))
        } else {
            None
        }
    }

    /// The decision for a situation given the outcome of the exploration
    /// draw: the drawn action when exploring, otherwise the most successful
    /// past action in similar situations, the basic rule of the scene, or the
    /// heuristic fallback, in that order.
    pub fn decide(&self, situation: &GameSituation, explore: Option<GameAction>) -> (r: ActionDecision)
        ensures decision_ok(self.history(), *situation, explore, r),
    {
        if let Some(a) = explore {
            return ActionDecision {
                action: a,
                confidence: 10,
                reasoning: "Exploring a random action".to_owned(),
                expected_outcome: "Unknown".to_owned(),
            };
        }
        if let Some(a) = self.get_learned_action(situation) {
            return ActionDecision {
                action: a,
                confidence: 80,
                reasoning: "Based on successful past experience".to_owned(),
                expected_outcome: "Should work based on history".to_owned(),
            };
        }
        if let Some((a, why)) = self.apply_scene_rules(situation) {
            return ActionDecision {
                action: a,
                confidence: 70,
                reasoning: why,
                expected_outcome: "Follow basic game logic".to_owned(),
            };
        }
        ActionDecision {
            action: heuristic_decision(situation),
            confidence: 30,
            reasoning: "Using heuristic fallback".to_owned(),
            expected_outcome: "Unknown outcome".to_owned(),
        }
    }

    /// Decides on an action: one time in ten a uniformly drawn button, to
    /// explore; otherwise as `decide` without exploration.
    pub fn make_decision(&mut self, situation: &GameSituation) -> (r: ActionDecision)
        ensures
            final(self).history() == old(self).history(),
            exists|e: Option<GameAction>| decision_ok(old(self).history(), *situation, e, r),
    {
        let explore = if chance(1, 10) {
            Some(index_to_game_action(random_index(ACTION_COUNT)))
        } else {
            None
        };
        self.decide(situation, explore)
    }

    /// Analyses a frame, records how the previous action (if any) fared
    /// against it, and decides on the next action, which is also handed back
    /// as the previous action for the next frame.
    pub fn process_frame_with_feedback(
        &mut self,
        current_frame: EnrichedFrame,
        previous_action: Option<GameAction>,
        previous_situation: Option<GameSituation>,
    ) -> (r: (ActionDecision, Option<GameAction>))
        ensures
            r.1 == Some(r.0.action),
            exists|cur: GameSituation| {
                &&& situation_ok(current_frame.state, current_frame.image, cur)
                &&& final(self).history() == (match (previous_action, previous_situation) {
                        (Some(a), Some(s)) => history_after(
                            old(self).history(),
                            ActionRecord { situation: s, action: a, was_successful: action_succeeded(s, cur) },
                        ),
                        _ => old(self).history(),
                    })
                &&& exists|e: Option<GameAction>| decision_ok(final(self).history(), cur, e, r.0)
            },
    {
        let current = self.analyze_situation(&current_frame);
        let decision = self.feedback_step(current, previous_action, previous_situation);
        let action = decision.action;
        (decision, Some(action))
    }

    /// Records how the previous action (if any) fared against the current
    /// situation, then decides on the next action.
    fn feedback_step(
        &mut self,
        current: GameSituation,
        previous_action: Option<GameAction>,
        previous_situation: Option<GameSituation>,
    ) -> (r: ActionDecision)
        ensures
            final(self).history() == (match (previous_action, previous_situation) {
                (Some(a), Some(s)) => history_after(
                    old(self).history(),
                    ActionRecord { situation: s, action: a, was_successful: action_succeeded(s, current) },
                ),
                _ => old(self).history(),
            }),
            exists|e: Option<GameAction>| decision_ok(final(self).history(), current, e, r),
    {
        match (previous_action, previous_situation) {
            (Some(prev_action), Some(prev_situation)) => {
                let ok = self.is_action_successful(&prev_situation, &current);
                self.record_action_result(prev_situation, prev_action, ok, Some(current));
            },
            _ => {},
        }
        self.make_decision(&current)
    }

    /// Runs the feedback loop over a sequence of frames and returns the
    /// decision made for each; every frame after the first records the
    /// outcome of the action decided for the frame before it.
    pub fn demonstrate_learning_loop(&mut self, frames: Vec<EnrichedFrame>) -> (r: Vec<ActionDecision>)
        ensures
            r@.len() == frames@.len(),
            final(self).history().len() == min_len(
                old(self).history().len() + (if frames@.len() > 0 { frames@.len() - 1 } else { 0 }),
            ),
            exists|sits: Seq<GameSituation>, hs: Seq<Seq<ActionRecord>>| {
                &&& #[trigger] learning_loop_ok(old(self).history(), frames@, sits, hs, r@)
                &&& final(self).history() == (if frames@.len() == 0 { old(self).history() } else { hs.last() })
            },
    {
        proof { use_type_invariant(&*self); }
        let mut frames = frames;
        let ghost all = frames@;
        let ghost n = frames@.len();
        let ghost start = self.history().len();
        let ghost h0 = self.history();
        let ghost mut sits: Seq<GameSituation> = Seq::empty();
        let ghost mut hs: Seq<Seq<ActionRecord>> = Seq::empty();
        let mut decisions: Vec<ActionDecision> = Vec::new();
        let mut previous_action: Option<GameAction> = None;
        let mut previous_situation: Option<GameSituation> = None;
        proof {
            assert(all.skip(0) =~= all);
            assert(learning_loop_ok(h0, all.take(0), sits, hs, decisions@));
        }
        while frames.len() > 0
            invariant
                decisions@.len() + frames@.len() == n,
                n == all.len(),
                frames@ == all.skip(decisions@.len() as int),
                start <= MAX_HISTORY,
                start == h0.len(),
                previous_action is Some <==> decisions@.len() > 0,
                previous_situation is Some <==> decisions@.len() > 0,
                self.history().len() == min_len(
                    start + (if decisions@.len() > 0 { decisions@.len() - 1 } else { 0 }),
                ),
                learning_loop_ok(h0, all.take(decisions@.len() as int), sits, hs, decisions@),
                decisions@.len() == 0 ==> self.history() == h0,
                decisions@.len() > 0 ==> {
                    &&& self.history() == hs.last()
                    &&& previous_situation == Some(sits.last())
                    &&& previous_action == Some(decisions@.last().action)
                },
            decreases frames@.len(),
        {
            let ghost k = decisions@.len() as int;
            let ghost hk = self.history();
            let frame = frames.remove(0);
            proof { assert(frames@ =~= all.skip(k + 1)); }
            let situation = self.analyze_situation(&frame);
            let decision = self.feedback_step(situation, previous_action, previous_situation);
            let action = decision.action;
            let ghost d = decision;
            let ghost old_ds = decisions@;
            decisions.push(decision);
            previous_action = Some(action);
            previous_situation = Some(situation);
            proof {
                assert(all.take(k + 1) =~= all.take(k).push(frame));
                lemma_loop_step(h0, all.take(k), sits, hs, old_ds, frame, situation, self.history(), d);
                sits = sits.push(situation);
                hs = hs.push(self.history());
            }
        }
        proof {
            assert(all.take(n as int) =~= all);
        }
        decisions
    }
}

/// `ds` are the decisions of a feedback loop over `frames` that started
/// with history `h0`: frame `k` is read as situation `sits[k]`; decision
/// `k` is made from history `hs[k]`, which is `h0` for the first frame and
/// otherwise the history before it with the previous situation, the action
/// decided for it and whether that action moved the game on by situation
/// `k`.
pub open spec fn learning_loop_ok(
    h0: Seq<ActionRecord>,
    frames: Seq<EnrichedFrame>,
    sits: Seq<GameSituation>,
    hs: Seq<Seq<ActionRecord>>,
    ds: Seq<ActionDecision>,
) -> bool {
    &&& sits.len() == frames.len()
    &&& hs.len() == frames.len()
    &&& ds.len() == frames.len()
    &&& forall|k: int| 0 <= k < frames.len() ==> situation_ok(frames[k].state, frames[k].image, #[trigger] sits[k])
    &&& frames.len() > 0 ==> hs[0] == h0
    &&& forall|k: int| 0 < k < frames.len() ==> #[trigger] hs[k] == history_after(
        hs[k - 1],
        ActionRecord { situation: sits[k - 1], action: ds[k - 1].action, was_successful: action_succeeded(sits[k - 1], sits[k]) },
    )
    &&& forall|k: int| 0 <= k < frames.len() ==> #[trigger] decided_from(hs[k], sits[k], ds[k])
}

/// `d` is a decision for situation `s` from history `h`, whatever the
/// exploration draw gave.
pub open spec fn decided_from(h: Seq<ActionRecord>, s: GameSituation, d: ActionDecision) -> bool {
    exists|e: Option<GameAction>| decision_ok(h, s, e, d)
}

/// One more frame of a feedback loop: its situation, the history after its
/// feedback and its decision extend the run.
proof fn lemma_loop_step(
    h0: Seq<ActionRecord>,
    fs: Seq<EnrichedFrame>,
    sits: Seq<GameSituation>,
    hs: Seq<Seq<ActionRecord>>,
    ds: Seq<ActionDecision>,
    f: EnrichedFrame,
    s: GameSituation,
    h: Seq<ActionRecord>,
    d: ActionDecision,
)
    requires
        learning_loop_ok(h0, fs, sits, hs, ds),
        situation_ok(f.state, f.image, s),
        fs.len() == 0 ==> h == h0,
        fs.len() > 0 ==> h == history_after(hs.last(),
            ActionRecord { situation: sits.last(), action: ds.last().action, was_successful: action_succeeded(sits.last(), s) }),
        exists|e: Option<GameAction>| decision_ok(h, s, e, d),
    ensures
        learning_loop_ok(h0, fs.push(f), sits.push(s), hs.push(h), ds.push(d)),
{
    let n = fs.len() as int;
    let fs2 = fs.push(f);
    let sits2 = sits.push(s);
    let hs2 = hs.push(h);
    let ds2 = ds.push(d);
    if n > 0 {
        assert(hs2[0] == hs[0]);
    } else {
        assert(hs2[0] == h);
    }
    assert forall|k: int| 0 <= k < fs2.len() implies situation_ok(fs2[k].state, fs2[k].image, #[trigger] sits2[k]) by {
        if k < n { assert(fs2[k] == fs[k] && sits2[k] == sits[k]); }
    }
    assert forall|k: int| 0 < k < fs2.len() implies #[trigger] hs2[k] == history_after(
        hs2[k - 1],
        ActionRecord { situation: sits2[k - 1], action: ds2[k - 1].action, was_successful: action_succeeded(sits2[k - 1], sits2[k]) },
    ) by {
        if k < n {
            assert(hs2[k] == hs[k] && hs2[k - 1] == hs[k - 1] && sits2[k - 1] == sits[k - 1] && sits2[k] == sits[k] && ds2[k - 1] == ds[k - 1]);
        } else {
            assert(hs2[k] == h && hs2[k - 1] == hs.last() && sits2[k - 1] == sits.last() && sits2[k] == s && ds2[k - 1] == ds.last());
        }
    }
    assert forall|k: int| 0 <= k < fs2.len() implies #[trigger] decided_from(hs2[k], sits2[k], ds2[k]) by {
        if k < n {
            assert(hs2[k] == hs[k] && sits2[k] == sits[k] && ds2[k] == ds[k]);
            assert(decided_from(hs[k], sits[k], ds[k]));
        } else {
            assert(hs2[k] == h && sits2[k] == s && ds2[k] == d);
        }
    }
}

/// A history length after capping at the limit.
pub open spec fn min_len(n: int) -> int {
    if n < MAX_HISTORY { n } else { MAX_HISTORY as int }
}

/// Some action has a positive success count exactly when some similar
/// experience succeeded.
proof fn lemma_experience_counts(h: Seq<ActionRecord>, s: GameSituation)
    ensures
        has_experience(h, s) <==> exists|a: GameAction| #[trigger] success_count(h, s, a) > 0,
    decreases h.len(),
{
    if h.len() > 0 {
        let t = h.drop_last();
        lemma_experience_counts(t, s);
        if has_experience(h, s) {
            let i = choose|i: int| 0 <= i < h.len() && similar_success(#[trigger] h[i], s);
            if i == h.len() - 1 {
                assert(success_count(h, s, h.last().action) > 0);
            } else {
                assert(t[i] == h[i]);
                assert(has_experience(t, s));
                let a = choose|a: GameAction| #[trigger] success_count(t, s, a) > 0;
                assert(success_count(h, s, a) > 0);
            }
        }
        if exists|a: GameAction| #[trigger] success_count(h, s, a) > 0 {
            let a = choose|a: GameAction| #[trigger] success_count(h, s, a) > 0;
            if similar_success(h.last(), s) && h.last().action == a {
                assert(similar_success(h[h.len() - 1], s));
            } else {
                assert(success_count(t, s, a) > 0);
                let i = choose|i: int| 0 <= i < t.len() && similar_success(#[trigger] t[i], s);
                assert(h[i] == t[i]);
            }
        }
    }
}

/// Recording experiences never lets the history grow beyond its limit.
pub proof fn lemma_history_bounded(h: Seq<ActionRecord>, r: ActionRecord)
    requires
        h.len() <= MAX_HISTORY,
    ensures
        history_after(h, r).len() <= MAX_HISTORY,
        history_after(h, r).last() == r,
{
}

/// Recording a success in a situation counts once more for that action in
/// every situation that looks the same, as long as nothing is forgotten.
pub proof fn lemma_success_counts(h: Seq<ActionRecord>, r: ActionRecord, s: GameSituation, b: GameAction)
    requires
        h.len() < MAX_HISTORY,
    ensures
        success_count(history_after(h, r), s, b)
            == success_count(h, s, b) + (if similar_success(r, s) && r.action == b { 1nat } else { 0nat }),
{
    assert(h.push(r).drop_last() =~= h);
}

/// A service whose only experience is one success of `a` in situation `s`
/// decides on `a` for `s` when it does not explore.
pub proof fn lemma_learned_from_one_success(s: GameSituation, a: GameAction, d: ActionDecision)
    requires
        decision_ok(
            history_after(Seq::empty(), ActionRecord { situation: s, action: a, was_successful: true }),
            s,
            None,
            d,
        ),
    ensures
        d.action == a,
        d.confidence == 80,
{
    let r = ActionRecord { situation: s, action: a, was_successful: true };
    let h = history_after(Seq::<ActionRecord>::empty(), r);
    assert(h == seq![r]);
    assert(h.drop_last() =~= Seq::<ActionRecord>::empty());
    assert(similar_success(h[0], s));
    assert(has_experience(h, s));
    assert(success_count(h, s, d.action) > 0);
    assert(h.last() == r);
    assert(success_count(h.drop_last(), s, d.action) == 0);
    assert(success_count(h, s, d.action)
        == success_count(h.drop_last(), s, d.action) + (if similar_success(h.last(), s) && h.last().action == d.action { 1nat } else { 0nat }));
}

/// When neither experience nor a basic rule decides, the fallback advances
/// any text or dialog with A, whatever the urgency; with nothing to read it
/// presses A when the situation is urgent and walks up when it is not.
pub proof fn lemma_fallback_advances_dialog(h: Seq<ActionRecord>, s: GameSituation, d: ActionDecision)
    requires
        !has_experience(h, s),
        basic_rule(s) is None,
        decision_ok(h, s, None, d),
    ensures
        d.confidence == 30,
        s.has_text || s.in_dialog ==> d.action == GameAction::A,
        !(s.has_text || s.in_dialog) && s.urgency_level == UrgencyLevel::Low ==> d.action == GameAction::Up,
        s.urgency_level != UrgencyLevel::Low ==> d.action == GameAction::A,
{
}

/// Without experience and without exploring, the basic rules decide: on
/// the main menu A selects when buttons show and Start begins the game when
/// none do; in the intro and an unknown scene A advances; in the other
/// scenes the fallback decides. Rules answer with confidence 70.
pub proof fn lemma_basic_rules_decide(h: Seq<ActionRecord>, s: GameSituation, d: ActionDecision)
    requires
        !has_experience(h, s),
        decision_ok(h, s, None, d),
    ensures
        s.scene == Scene::MainMenu && s.has_buttons ==> d.action == GameAction::A && d.confidence == 70,
        s.scene == Scene::MainMenu && !s.has_buttons ==> d.action == GameAction::Start && d.confidence == 70,
        s.scene == Scene::Intro || s.scene == Scene::Unknown ==> d.action == GameAction::A && d.confidence == 70,
        s.scene == Scene::Battle || s.scene == Scene::Overworld || s.scene == Scene::NameCreation ==> d.confidence == 30,
{
}

} // verus!
