//! Reward shaping. Rewards are exact fixed-point numbers: each calculator
//! answers in hundredths of a reward point, the combined reward is in
//! thousandths.

use vstd::prelude::*;
use crate::types::{Scene, GameAction, State, StoryProgress, EnrichedFrame, frame_scene, scene_of, story_rank, story_progress_rank, same_frame};
use crate::random::new_uuid;

verus! {

/// The scene of an optional next frame's state; `Unknown` without a frame or
/// a state.
pub open spec fn next_scene(next: Option<Option<State>>) -> Scene {
    match next {
        Some(st) => frame_scene(st),
        None => Scene::Unknown,
    }
}

pub fn next_frame_scene(next: Option<&EnrichedFrame>) -> (r: Scene)
    ensures r == next_scene(match next { Some(f) => Some(f.state), None => None }),
{
    match next {
        Some(f) => scene_of(&f.state),
        None => Scene::Unknown,
    }
}

pub open spec fn next_state(next: Option<&EnrichedFrame>) -> Option<Option<State>> {
    match next { Some(f) => Some(f.state), None => None }
}

/// Navigation reward, in hundredths: leaving the intro for an identified
/// scene earns 1, reaching another identified scene 0.5, no next frame costs
/// 0.01. Otherwise, in the overworld (any scene but battle, main menu or
/// intro), arrows earn 0.05 when the state changed and cost 0.1 when not, A
/// earns 0.02 or costs 0.15, Start and B cost 0.02 or 0.1, other buttons
/// earn nothing or cost 0.05; outside the overworld nothing is earned on a
/// change and 0.01 lost without one.
pub open spec fn navigation_reward(cur: Option<State>, action: GameAction, next: Option<Option<State>>) -> int {
    let cs = frame_scene(cur);
    let ns = next_scene(next);
    if cs == Scene::Intro && ns != Scene::Intro && ns != Scene::Unknown {
        100
    } else if ns != Scene::Unknown && ns != cs {
        50
    } else {
        match next {
            None => -1,
            Some(nst) => {
                let changed = cs != ns || cur != nst;
                let overworld = cs != Scene::Battle && cs != Scene::MainMenu && cs != Scene::Intro;
                if overworld {
                    match action {
                        GameAction::Up | GameAction::Down | GameAction::Left | GameAction::Right =>
                            if changed { 5 } else { -10 },
                        GameAction::A => if changed { 2 } else { -15 },
                        GameAction::Start | GameAction::B => if changed { -2 } else { -10 },
                        _ => if changed { 0 } else { -5 },
                    }
                } else {
                    if changed { 0 } else { -1 }
                }
            },
        }
    }
}

/// Battle reward, in hundredths: 0.1 for staying in battle, 0.5 for
/// entering one, 1 for leaving one, otherwise a cost of 0.01.
pub open spec fn battle_reward(cur: Option<State>, next: Option<Option<State>>) -> int {
    let cs = frame_scene(cur);
    let ns = next_scene(next);
    if cs == Scene::Battle && ns == Scene::Battle {
        10
    } else if ns == Scene::Battle {
        50
    } else if cs == Scene::Battle {
        100
    } else {
        -1
    }
}

/// Rewards navigation through the game's scenes.
pub struct NavigationRewardCalculator {
    previous_scene: Scene,
    steps_in_same_scene: u32,
}

impl NavigationRewardCalculator {
    /// The last scene seen.
    pub closed spec fn previous_scene(&self) -> Scene {
        self.previous_scene
    }

    /// How many steps have stayed in that scene.
    pub closed spec fn steps_in_same_scene(&self) -> u32 {
        self.steps_in_same_scene
    }

    /// A calculator that has seen nothing: previous scene unknown, no steps.
    pub fn new() -> (r: NavigationRewardCalculator)
        ensures
            r.previous_scene() == Scene::Unknown,
            r.steps_in_same_scene() == 0,
    {
        NavigationRewardCalculator { previous_scene: Scene::Unknown, steps_in_same_scene: 0 }
    }

    /// The navigation reward, in hundredths, for pressing `action` on the
    /// current frame and seeing `next_frame`.
    pub fn calculate_reward(&self, current_frame: &EnrichedFrame, action: GameAction, next_frame: Option<&EnrichedFrame>) -> (r: i64)
        ensures r == navigation_reward(current_frame.state, action, next_state(next_frame)),
    {
        let cs = scene_of(&current_frame.state);
        let ns = next_frame_scene(next_frame);
        if cs == Scene::Intro && ns != Scene::Intro && ns != Scene::Unknown {
            return 100;
        }
        if ns != Scene::Unknown && ns != cs {
            return 50;
        }
        let nf = match next_frame {
            None => { return -1; },
            Some(f) => f,
        };
        let changed = cs != ns || current_frame.state != nf.state;
        let overworld = cs != Scene::Battle && cs != Scene::MainMenu && cs != Scene::Intro;
        if overworld {
            match action {
                GameAction::Up | GameAction::Down | GameAction::Left | GameAction::Right =>
                    if changed { 5 } else { -10 },
                GameAction::A => if changed { 2 } else { -15 },
                GameAction::Start | GameAction::B => if changed { -2 } else { -10 },
                _ => if changed { 0 } else { -5 },
            }
        } else {
            if changed { 0 } else { -1 }
        }
    }
}

/// Rewards entering, staying in and finishing battles.
pub struct BattleRewardCalculator;

impl BattleRewardCalculator {
    pub fn new() -> (r: BattleRewardCalculator) {
        BattleRewardCalculator
    }

    /// The battle reward, in hundredths.
    pub fn calculate_reward(&self, current_frame: &EnrichedFrame, action: GameAction, next_frame: Option<&EnrichedFrame>) -> (r: i64)
        ensures r == battle_reward(current_frame.state, next_state(next_frame)),
    {
        let cs = scene_of(&current_frame.state);
        let ns = next_frame_scene(next_frame);
        if cs == Scene::Battle && ns == Scene::Battle {
            10
        } else if ns == Scene::Battle {
            50
        } else if cs == Scene::Battle {
            100
        } else {
            -1
        }
    }
}

/// Reward, in hundredths, for moving on from the milestone of rank `from`
/// to the next one: 5 for the starter, 10 for each gym, 15 for the Elite
/// Four, 20 for the Champion, 15 for the post-game.
pub open spec fn milestone_bonus(from: int) -> int {
    if from == 0 {
        500
    } else if 1 <= from <= 8 {
        1000
    } else if from == 9 {
        1500
    } else if from == 10 {
        2000
    } else {
        1500
    }
}

/// Reward, in hundredths, for a change of story milestone: the milestone
/// bonus for the next milestone, 5 for skipping ahead, nothing otherwise.
pub open spec fn story_reward(from: StoryProgress, to: StoryProgress) -> int {
    if story_rank(to) == story_rank(from) + 1 {
        milestone_bonus(story_rank(from))
    } else if story_rank(to) > story_rank(from) {
        500
    } else {
        0
    }
}

/// 8 per badge gained, in hundredths.
pub open spec fn badge_reward(prev: u32, cur: u32) -> int {
    if cur > prev { (cur - prev) * 800 } else { 0 }
}

/// 0.5 per newly seen and 1 per newly caught species, in hundredths.
pub open spec fn pokedex_reward(prev_seen: u32, cur_seen: u32, prev_caught: u32, cur_caught: u32) -> int {
    (if cur_seen > prev_seen { (cur_seen - prev_seen) * 50 } else { 0 })
        + (if cur_caught > prev_caught { (cur_caught - prev_caught) * 100 } else { 0 })
}

/// What the story calculator remembers of the last frame with a state.
#[derive(Clone, Copy, Debug, PartialEq, Eq, Structural)]
pub struct StoryMemory {
    pub progress: Option<StoryProgress>,
    pub badges: u32,
    pub seen: u32,
    pub caught: u32,
}

/// Reward, in hundredths, for a frame with state `st` after `m`.
pub open spec fn progress_reward(m: StoryMemory, st: State) -> int {
    (match m.progress {
        Some(p) if p != st.story_progress => story_reward(p, st.story_progress),
        _ => 0,
    }) + badge_reward(m.badges, st.badges_earned) + pokedex_reward(m.seen, st.pokedex_seen, m.caught, st.pokedex_caught)
}

pub open spec fn remember(st: State) -> StoryMemory {
    StoryMemory { progress: Some(st.story_progress), badges: st.badges_earned, seen: st.pokedex_seen, caught: st.pokedex_caught }
}

/// Rewards story milestones, badges and Pokédex entries, each counted once:
/// against the last frame that had a state.
pub struct StoryProgressRewardCalculator {
    previous_story_progress: Option<StoryProgress>,
    previous_badges: u32,
    previous_pokedex_seen: u32,
    previous_pokedex_caught: u32,
}

impl StoryProgressRewardCalculator {
    pub closed spec fn memory(&self) -> StoryMemory {
        StoryMemory {
            progress: self.previous_story_progress,
            badges: self.previous_badges,
            seen: self.previous_pokedex_seen,
            caught: self.previous_pokedex_caught,
        }
    }

    /// Nothing remembered yet.
    pub fn new() -> (r: StoryProgressRewardCalculator)
        ensures r.memory() == (StoryMemory { progress: None, badges: 0, seen: 0, caught: 0 }),
    {
        StoryProgressRewardCalculator { previous_story_progress: None, previous_badges: 0, previous_pokedex_seen: 0, previous_pokedex_caught: 0 }
    }

    fn story_progress_reward(&self, from: StoryProgress, to: StoryProgress) -> (r: i64)
        ensures r == story_reward(from, to),
    {
        let f = story_progress_rank(from);
        let t = story_progress_rank(to);
        if t as u16 == f as u16 + 1 {
            if f == 0 {
                500
            } else if f <= 8 {
                1000
            } else if f == 9 {
                1500
            } else if f == 10 {
                2000
            } else {
                1500
            }
        } else if t > f {
            500
        } else {
            0
        }
    }

    fn badge_reward(&self, previous_badges: u32, current_badges: u32) -> (r: i64)
        ensures r == badge_reward(previous_badges, current_badges),
    {
        if current_badges > previous_badges {
            (current_badges - previous_badges) as i64 * 800
        } else {
            0
        }
    }

    fn pokedex_reward(&self, prev_seen: u32, curr_seen: u32, prev_caught: u32, curr_caught: u32) -> (r: i64)
        ensures r == pokedex_reward(prev_seen, curr_seen, prev_caught, curr_caught),
    {
        let mut reward: i64 = 0;
        if curr_seen > prev_seen {
            reward = reward + (curr_seen - prev_seen) as i64 * 50;
        }
        if curr_caught > prev_caught {
            reward = reward + (curr_caught - prev_caught) as i64 * 100;
        }
        reward
    }

    fn update_state(&mut self, frame: &EnrichedFrame)
        ensures
            final(self).memory() == (match frame.state { Some(st) => remember(st), None => old(self).memory() }),
    {
        if let Some(state) = &frame.state {
            self.previous_story_progress = Some(state.story_progress);
            self.previous_badges = state.badges_earned;
            self.previous_pokedex_seen = state.pokedex_seen;
            self.previous_pokedex_caught = state.pokedex_caught;
        }
    }

    /// The progress reward, in hundredths, for the current frame; the frame
    /// then becomes the one compared against. A frame without a state earns
    /// nothing and is not remembered.
    pub fn calculate_reward(&mut self, current_frame: &EnrichedFrame, action: GameAction, next_frame: Option<&EnrichedFrame>) -> (r: i64)
        ensures
            match current_frame.state {
                Some(st) => r == progress_reward(old(self).memory(), st) && final(self).memory() == remember(st),
                None => r == 0 && final(self).memory() == old(self).memory(),
            },
    {
        let mut total: i64 = 0;
        if let Some(st) = &current_frame.state {
            if let Some(prev) = self.previous_story_progress {
                if st.story_progress != prev {
                    total = total + self.story_progress_reward(prev, st.story_progress);
                }
            }
            if st.badges_earned > self.previous_badges {
                total = total + self.badge_reward(self.previous_badges, st.badges_earned);
            }
            let p = self.pokedex_reward(self.previous_pokedex_seen, st.pokedex_seen, self.previous_pokedex_caught, st.pokedex_caught);
            if p > 0 {
                total = total + p;
            }
            self.update_state(current_frame);
        }
        total
    }
}

/// Rewards per objective, in hundredths.
#[derive(Clone, Copy, Debug, PartialEq, Eq, Structural)]
pub struct MultiObjectiveReward {
    pub navigation_reward: i64,
    pub battle_reward: i64,
    pub story_progress_reward: i64,
}

/// The weighted reward in thousandths: 0.2 navigation, 0.3 battle and 0.5
/// story progress.
pub open spec fn weighted_reward(m: MultiObjectiveReward) -> int {
    2 * m.navigation_reward + 3 * m.battle_reward + 5 * m.story_progress_reward
}

impl MultiObjectiveReward {
    /// The three rewards in the order navigation, battle, story.
    pub fn to_vector(&self) -> (r: Vec<i64>)
        ensures r@ == seq![self.navigation_reward, self.battle_reward, self.story_progress_reward],
    {
        let mut v: Vec<i64> = Vec::new();
        v.push(self.navigation_reward);
        v.push(self.battle_reward);
        v.push(self.story_progress_reward);
        proof { assert(v@ =~= seq![self.navigation_reward, self.battle_reward, self.story_progress_reward]); }
        v
    }

    /// The weighted reward, in thousandths.
    pub fn normalize(&self) -> (r: i128)
        ensures r == weighted_reward(*self),
    {
        2 * self.navigation_reward as i128 + 3 * self.battle_reward as i128 + 5 * self.story_progress_reward as i128
    }
}


/// A learning sample: the action taken on a frame, the frame that followed,
/// the policy's prediction and the rewards earned (`reward` in thousandths,
/// the detailed rewards in hundredths).
pub struct Experience<P> {
    pub id: u128,
    pub reward: i128,
    pub action: GameAction,
    pub episode_id: u128,
    pub prediction: P,
    pub next_frame: Option<EnrichedFrame>,
    pub frame: EnrichedFrame,
    pub detailed_reward: MultiObjectiveReward,
}

/// The scene of an optional state, kept optional.
pub open spec fn opt_scene(st: Option<State>) -> Option<Scene> {
    match st { Some(s) => Some(s.scene), None => None }
}

fn state_scene(st: &Option<State>) -> (r: Option<Scene>)
    ensures r == opt_scene(*st),
{
    match st { Some(s) => Some(s.scene), None => None }
}

/// A penalty of 0.1, in hundredths, when the scene stayed the same over
/// three frames.
pub open spec fn stall_penalty(prev: Option<State>, cur: Option<State>, next: Option<State>) -> int {
    if opt_scene(prev) == opt_scene(cur) && opt_scene(cur) == opt_scene(next) { 10 } else { 0 }
}

/// The last (at most three) items of `s` followed by `x`.
pub open spec fn window<T>(s: Seq<T>, x: T) -> Seq<T> {
    let t = s.push(x);
    if t.len() > 3 { t.subrange(t.len() - 3, t.len() as int) } else { t }
}

/// Frame by frame the same.
pub open spec fn frames_match(a: Seq<EnrichedFrame>, b: Seq<EnrichedFrame>) -> bool {
    a.len() == b.len() && forall|i: int| 0 <= i < a.len() ==> same_frame(#[trigger] a[i], b[i])
}

/// The detailed rewards for the middle of three frames with states `p`,
/// `c`, `n`, action `a`, and story memory `m`.
pub open spec fn detailed_rewards(p: Option<State>, c: Option<State>, n: Option<State>, a: GameAction, m: StoryMemory) -> MultiObjectiveReward {
    MultiObjectiveReward {
        navigation_reward: (navigation_reward(c, a, Some(n)) - stall_penalty(p, c, n)) as i64,
        battle_reward: battle_reward(c, Some(n)) as i64,
        story_progress_reward: (match c { Some(st) => progress_reward(m, st), None => 0 }) as i64,
    }
}

/// Combines the navigation, battle and story calculators over a sliding
/// window of three frames: the reward for the action taken on a frame is
/// known once the frame after it has arrived.
pub struct MultiObjectiveRewardProcessor<P> {
    buffer: Vec<(EnrichedFrame, GameAction, P)>,
    navigation_reward_calculator: NavigationRewardCalculator,
    battle_reward_calculator: BattleRewardCalculator,
    story_progress_calculator: StoryProgressRewardCalculator,
}

impl<P> MultiObjectiveRewardProcessor<P> {
    #[verifier::type_invariant]
    closed spec fn inv(self) -> bool {
        self.buffer@.len() <= 3
    }

    /// The buffered frames, oldest first.
    pub closed spec fn frames(&self) -> Seq<EnrichedFrame> {
        self.buffer@.map_values(|t: (EnrichedFrame, GameAction, P)| t.0)
    }

    /// The action taken on each buffered frame.
    pub closed spec fn actions(&self) -> Seq<GameAction> {
        self.buffer@.map_values(|t: (EnrichedFrame, GameAction, P)| t.1)
    }

    /// The prediction made on each buffered frame.
    pub closed spec fn predictions(&self) -> Seq<P> {
        self.buffer@.map_values(|t: (EnrichedFrame, GameAction, P)| t.2)
    }

    /// What the story calculator remembers.
    pub closed spec fn story_memory(&self) -> StoryMemory {
        self.story_progress_calculator.memory()
    }
}

/// One step of the reward processor: the frame, the action taken on it and
/// the prediction enter the window of the last three; once the window is
/// full, the experience for its middle frame comes out, rewarded for the
/// frame after it (navigation less a stall penalty, battle, and story
/// progress, which the story calculator then remembers).
pub open spec fn reward_step<P: Clone>(
    before: MultiObjectiveRewardProcessor<P>,
    after: MultiObjectiveRewardProcessor<P>,
    frame: EnrichedFrame,
    action: GameAction,
    prediction: P,
    r: Option<Experience<P>>,
) -> bool {
    &&& frames_match(after.frames(), window(before.frames(), frame))
    &&& after.actions() == window(before.actions(), action)
    &&& after.predictions() == window(before.predictions(), prediction)
    &&& (r is Some <==> after.frames().len() == 3)
    &&& (r is None ==> after.story_memory() == before.story_memory())
    &&& (r matches Some(e) ==> {
        let f = after.frames();
        let expected = detailed_rewards(f[0].state, f[1].state, f[2].state, after.actions()[1], before.story_memory());
        &&& e.action == after.actions()[1]
        &&& vstd::pervasive::cloned(after.predictions()[1], e.prediction)
        &&& same_frame(e.frame, f[1])
        &&& e.next_frame matches Some(nf) && same_frame(nf, f[2])
        &&& e.detailed_reward == expected
        &&& e.reward == weighted_reward(expected)
        &&& after.story_memory() == (match f[1].state {
                Some(st) => remember(st),
                None => before.story_memory(),
            })
    })
}

impl<P: Clone> MultiObjectiveRewardProcessor<P> {
    /// Empty window; the story calculator remembers nothing.
    pub fn new(navigation_reward_calculator: NavigationRewardCalculator) -> (r: Self)
        ensures
            r.frames().len() == 0,
            r.actions().len() == 0,
            r.predictions().len() == 0,
            r.story_memory() == (StoryMemory { progress: None, badges: 0, seen: 0, caught: 0 }),
    {
        MultiObjectiveRewardProcessor {
            buffer: Vec::new(),
            navigation_reward_calculator,
            battle_reward_calculator: BattleRewardCalculator::new(),
            story_progress_calculator: StoryProgressRewardCalculator::new(),
        }
    }

    fn update_buffers(&mut self, frame: &EnrichedFrame, action: GameAction, prediction: P)
        ensures
            frames_match(final(self).frames(), window(old(self).frames(), *frame)),
            final(self).actions() == window(old(self).actions(), action),
            final(self).predictions() == window(old(self).predictions(), prediction),
            final(self).story_memory() == old(self).story_memory(),
    {
        proof { use_type_invariant(&*self); }
        let mut buf: Vec<(EnrichedFrame, GameAction, P)> = Vec::new();
        std::mem::swap(&mut buf, &mut self.buffer);
        let ghost ob = buf@;
        let entry = (frame.clone(), action, prediction);
        let ghost e = entry;
        buf.push(entry);
        if buf.len() > 3 {
            buf.remove(0);
        }
        proof {
            let fs = |t: (EnrichedFrame, GameAction, P)| t.0;
            let acts = |t: (EnrichedFrame, GameAction, P)| t.1;
            let ps = |t: (EnrichedFrame, GameAction, P)| t.2;
            let of = ob.map_values(fs);
            let wf = window(of, *frame);
            let nb = buf@.map_values(fs);
            assert(ob.push(e).map_values(fs) =~= of.push(e.0));
            assert(nb.len() == wf.len());
            assert forall|i: int| 0 <= i < nb.len() implies same_frame(#[trigger] nb[i], wf[i]) by {
                if ob.len() + 1 > 3 {
                    assert(buf@[i] == ob.push(e)[i + 1]);
                } else {
                    assert(buf@[i] == ob.push(e)[i]);
                }
            }
            assert(buf@.map_values(acts) =~= window(ob.map_values(acts), action));
            assert(buf@.map_values(ps) =~= window(ob.map_values(ps), prediction));
        }
        std::mem::swap(&mut buf, &mut self.buffer);
    }

    /// Adds a frame with the action taken on it and the policy's
    /// prediction. Once three frames are buffered, the action on the middle
    /// one is rewarded for the frame that followed it: navigation minus a
    /// stall penalty, battle, and story progress, combined with weights 0.2,
    /// 0.3 and 0.5.
    pub fn process_frame(&mut self, frame: &EnrichedFrame, action: GameAction, prediction: P) -> (r: Option<Experience<P>>)
        ensures
            reward_step(*old(self), *final(self), *frame, action, prediction, r),
            final(self).actions().len() == final(self).frames().len(),
            final(self).predictions().len() == final(self).frames().len(),
    {
        self.update_buffers(frame, action, prediction);
        proof { use_type_invariant(&*self); }
        if self.buffer.len() < 3 {
            return None;
        }
        let previous_frame = &self.buffer[0].0;
        let current_frame = &self.buffer[1].0;
        let next_frame = &self.buffer[2].0;
        let processed_action = self.buffer[1].1;
        let nav = self.navigation_reward_calculator.calculate_reward(current_frame, processed_action, Some(next_frame));
        let battle = self.battle_reward_calculator.calculate_reward(current_frame, processed_action, Some(next_frame));
        let mut story_calc = StoryProgressRewardCalculator::new();
        std::mem::swap(&mut story_calc, &mut self.story_progress_calculator);
        let story = story_calc.calculate_reward(current_frame, processed_action, Some(next_frame));
        std::mem::swap(&mut story_calc, &mut self.story_progress_calculator);
        let prev_scene = state_scene(&previous_frame.state);
        let curr_scene = state_scene(&current_frame.state);
        let next_scene = state_scene(&next_frame.state);
        let stall: i64 = if prev_scene == curr_scene && curr_scene == next_scene { 10 } else { 0 };
        let detailed_reward = MultiObjectiveReward {
            navigation_reward: nav - stall,
            battle_reward: battle,
            story_progress_reward: story,
        };
        let reward = detailed_reward.normalize();
        Some(Experience {
            id: new_uuid(),
            reward,
            action: processed_action,
            episode_id: new_uuid(),
            prediction: self.buffer[1].2.clone(),
            next_frame: Some(next_frame.clone()),
            frame: current_frame.clone(),
            detailed_reward,
        })
    }
}

/// The items of calls `i - 3 .. i` (from 0 when fewer came before).
pub open spec fn recent<T>(s: Seq<T>, i: int) -> Seq<T> {
    s.subrange(if i > 3 { i - 3 } else { 0 }, i)
}

/// `ps[i + 1]` is the processor after call `i` of
/// `MultiObjectiveRewardProcessor::process_frame`, which handed it frame
/// `fs[i]`, action `acts[i]` and prediction `preds[i]` and returned
/// `outs[i]` (the call's own contract, `reward_step`).
pub open spec fn reward_run<P: Clone>(
    ps: Seq<MultiObjectiveRewardProcessor<P>>,
    fs: Seq<EnrichedFrame>,
    acts: Seq<GameAction>,
    preds: Seq<P>,
    outs: Seq<Option<Experience<P>>>,
) -> bool {
    &&& ps.len() == fs.len() + 1
    &&& acts.len() == fs.len()
    &&& preds.len() == fs.len()
    &&& outs.len() == fs.len()
    &&& forall|i: int| 0 <= i < fs.len() ==> #[trigger] reward_step(ps[i], ps[i + 1], fs[i], acts[i], preds[i], outs[i])
}

proof fn lemma_window_recent<T>(s: Seq<T>, i: int)
    requires 0 <= i < s.len(),
    ensures window(recent(s, i), s[i]) =~= recent(s, i + 1),
{
}

proof fn lemma_frames_match_window(a: Seq<EnrichedFrame>, b: Seq<EnrichedFrame>, c: Seq<EnrichedFrame>, x: EnrichedFrame)
    requires
        frames_match(a, window(b, x)),
        frames_match(b, c),
    ensures
        frames_match(a, window(c, x)),
{
    let wb = window(b, x);
    let wc = window(c, x);
    assert forall|i: int| 0 <= i < a.len() implies same_frame(#[trigger] a[i], wc[i]) by {
        assert(same_frame(a[i], wb[i]));
        if b.len() + 1 > 3 {
            if i + 1 < b.len() { assert(same_frame(b[i + 1], c[i + 1])); }
        } else {
            if i < b.len() { assert(same_frame(b[i], c[i])); }
        }
    }
}

/// Over a run from an empty window, the processor holds the last three
/// calls' frames, actions and predictions.
proof fn lemma_reward_window<P: Clone>(
    ps: Seq<MultiObjectiveRewardProcessor<P>>,
    fs: Seq<EnrichedFrame>,
    acts: Seq<GameAction>,
    preds: Seq<P>,
    outs: Seq<Option<Experience<P>>>,
    i: int,
)
    requires
        reward_run(ps, fs, acts, preds, outs),
        ps[0].frames().len() == 0,
        ps[0].actions().len() == 0,
        ps[0].predictions().len() == 0,
        0 <= i <= fs.len(),
    ensures
        frames_match(ps[i].frames(), recent(fs, i)),
        ps[i].actions() == recent(acts, i),
        ps[i].predictions() == recent(preds, i),
    decreases i,
{
    if i == 0 {
        assert(recent(fs, 0) =~= Seq::<EnrichedFrame>::empty());
        assert(recent(acts, 0) =~= Seq::<GameAction>::empty());
        assert(recent(preds, 0) =~= Seq::<P>::empty());
    } else {
        let j = i - 1;
        lemma_reward_window(ps, fs, acts, preds, outs, j);
        assert(reward_step(ps[j], ps[j + 1], fs[j], acts[j], preds[j], outs[j]));
        assert(j + 1 == i);
        lemma_window_recent(fs, i - 1);
        lemma_window_recent(acts, i - 1);
        lemma_window_recent(preds, i - 1);
        lemma_frames_match_window(ps[i].frames(), ps[i - 1].frames(), recent(fs, i - 1), fs[i - 1]);
    }
}

/// A processor fed frame after frame by `process_frame` from an empty
/// window (as `new` makes it) returns nothing for the first two calls; from the third on, each call returns the
/// experience of the frame before it: the action and prediction of that
/// call, that frame with the new one as the frame after it, and its
/// rewards, with the navigation reward less the stall penalty of the last
/// three frames.
pub proof fn lemma_reward_sequence<P: Clone>(
    ps: Seq<MultiObjectiveRewardProcessor<P>>,
    fs: Seq<EnrichedFrame>,
    acts: Seq<GameAction>,
    preds: Seq<P>,
    outs: Seq<Option<Experience<P>>>,
    k: int,
)
    requires
        reward_run(ps, fs, acts, preds, outs),
        ps[0].frames().len() == 0,
        ps[0].actions().len() == 0,
        ps[0].predictions().len() == 0,
        0 <= k < fs.len(),
    ensures
        k < 2 ==> outs[k] is None,
        k >= 2 ==> (outs[k] matches Some(e) && {
            let expected = detailed_rewards(fs[k - 2].state, fs[k - 1].state, fs[k].state, acts[k - 1], ps[k].story_memory());
            &&& e.action == acts[k - 1]
            &&& vstd::pervasive::cloned(preds[k - 1], e.prediction)
            &&& same_frame(e.frame, fs[k - 1])
            &&& e.next_frame matches Some(nf) && same_frame(nf, fs[k])
            &&& e.detailed_reward == expected
            &&& e.reward == weighted_reward(expected)
        }),
{
    lemma_reward_window(ps, fs, acts, preds, outs, k + 1);
    assert(reward_step(ps[k], ps[k + 1], fs[k], acts[k], preds[k], outs[k]));
    let f = ps[k + 1].frames();
    let rf = recent(fs, k + 1);
    if k >= 2 {
        assert(rf[0] == fs[k - 2] && rf[1] == fs[k - 1] && rf[2] == fs[k]);
        assert(same_frame(f[0], rf[0]) && same_frame(f[1], rf[1]) && same_frame(f[2], rf[2]));
        assert(recent(acts, k + 1)[1] == acts[k - 1]);
        assert(recent(preds, k + 1)[1] == preds[k - 1]);
    }
}

/// Over such a run of `process_frame`, from the third call on: three
/// frames in a row with the same scene cost the middle one's navigation
/// reward 0.1 (ten hundredths), otherwise nothing is taken off; the battle
/// reward is the battle calculator's for the middle frame and the next.
pub proof fn lemma_stall_penalty_in_sequence<P: Clone>(
    ps: Seq<MultiObjectiveRewardProcessor<P>>,
    fs: Seq<EnrichedFrame>,
    acts: Seq<GameAction>,
    preds: Seq<P>,
    outs: Seq<Option<Experience<P>>>,
    k: int,
)
    requires
        reward_run(ps, fs, acts, preds, outs),
        ps[0].frames().len() == 0,
        ps[0].actions().len() == 0,
        ps[0].predictions().len() == 0,
        2 <= k < fs.len(),
    ensures
        outs[k] matches Some(e) && e.detailed_reward.navigation_reward
            == navigation_reward(fs[k - 1].state, acts[k - 1], Some(fs[k].state))
                - (if opt_scene(fs[k - 2].state) == opt_scene(fs[k - 1].state) && opt_scene(fs[k - 1].state) == opt_scene(fs[k].state) { 10int } else { 0int })
            && e.detailed_reward.battle_reward == battle_reward(fs[k - 1].state, Some(fs[k].state)),
{
    lemma_reward_sequence(ps, fs, acts, preds, outs, k);
}

/// The frames a delayed processor keeps after one more: a third frame
/// pushes the oldest out.
pub open spec fn delayed_window(s: Seq<EnrichedFrame>, f: EnrichedFrame) -> Seq<EnrichedFrame> {
    let t = s.push(f);
    if t.len() >= 3 { t.drop_first() } else { t }
}

/// Buffers frames to reward an action once the frame after it is known.
/// It drops a frame as soon as a third arrives, so it holds at most two,
/// never completes a window of three and never yields an experience.
pub struct DelayedRewardProcessor<P> {
    frame_buffer: Vec<EnrichedFrame>,
    action_buffer: Vec<GameAction>,
    prediction_buffer: Vec<P>,
    reward_calculator: NavigationRewardCalculator,
}

impl<P> DelayedRewardProcessor<P> {
    #[verifier::type_invariant]
    closed spec fn inv(self) -> bool {
        self.frame_buffer@.len() <= 2
    }

    /// The buffered frames, oldest first.
    pub closed spec fn frames(&self) -> Seq<EnrichedFrame> {
        self.frame_buffer@
    }

    /// Nothing buffered.
    pub fn new(reward_calculator: NavigationRewardCalculator) -> (r: DelayedRewardProcessor<P>)
        ensures r.frames().len() == 0,
    {
        DelayedRewardProcessor {
            frame_buffer: Vec::new(),
            action_buffer: Vec::new(),
            prediction_buffer: Vec::new(),
            reward_calculator,
        }
    }

    fn insert_frame(&mut self, frame: &EnrichedFrame)
        ensures
            frames_match(final(self).frames(), delayed_window(old(self).frames(), *frame)),
    {
        proof { use_type_invariant(&*self); }
        let mut buf: Vec<EnrichedFrame> = Vec::new();
        std::mem::swap(&mut buf, &mut self.frame_buffer);
        let ghost before = buf@;
        let f = frame.clone();
        let ghost fv = f;
        buf.push(f);
        if buf.len() >= 3 {
            buf.remove(0);
        }
        proof {
            let w = delayed_window(before, *frame);
            assert forall|i: int| 0 <= i < buf@.len() implies same_frame(#[trigger] buf@[i], w[i]) by {
                if before.len() + 1 >= 3 {
                    assert(buf@[i] == before.push(fv)[i + 1]);
                } else {
                    assert(buf@[i] == before.push(fv)[i]);
                }
            }
        }
        std::mem::swap(&mut buf, &mut self.frame_buffer);
    }

    /// Buffers the frame; no experience ever comes out.
    pub fn process_frame(&mut self, frame: &EnrichedFrame) -> (r: Option<Experience<P>>)
        ensures
            r is None,
            frames_match(final(self).frames(), delayed_window(old(self).frames(), *frame)),
    {
        self.insert_frame(frame);
        proof { use_type_invariant(&*self); }
        if self.frame_buffer.len() == 3 {
            return None;
        }
        None
    }
}

/// Every milestone, badge and Pokédex entry is rewarded once: a frame with
/// the same state as the last one remembered earns nothing.
pub proof fn lemma_repeat_state_earns_nothing(st: State)
    ensures
        progress_reward(remember(st), st) == 0,
{
}

/// Story progress never earns a negative reward, whatever was remembered.
pub proof fn lemma_progress_reward_nonnegative(m: StoryMemory, st: State)
    ensures
        progress_reward(m, st) >= 0,
{
}

/// Story rewards: any step forward earns at least the 5 (500 hundredths)
/// of a skip, and a step back or no step earns nothing. One step earns its
/// milestone's bonus: 5 for the starter, 10 for reaching each gym up to the
/// eighth, 15 for the Elite Four, 20 for the Champion, 15 for the
/// post-game.
pub proof fn lemma_story_steps(from: StoryProgress, to: StoryProgress)
    ensures
        story_rank(to) > story_rank(from) ==> story_reward(from, to) >= 500,
        story_rank(to) <= story_rank(from) ==> story_reward(from, to) == 0,
        story_rank(to) == story_rank(from) + 1 ==> story_reward(from, to) >= 500,
        story_rank(to) == story_rank(from) + 1 && 1 <= story_rank(from) <= 8 ==> story_reward(from, to) == 1000,
        from == StoryProgress::GameStart && to == StoryProgress::StarterObtained ==> story_reward(from, to) == 500,
        from == StoryProgress::EighthGym && to == StoryProgress::EliteFour ==> story_reward(from, to) == 1500,
        from == StoryProgress::EliteFour && to == StoryProgress::Champion ==> story_reward(from, to) == 2000,
        from == StoryProgress::Champion && to == StoryProgress::PostGame ==> story_reward(from, to) == 1500,
{
}

/// A frame that reaches the next gym after the last remembered one, with
/// badges and Pokédex unchanged, earns exactly that gym's 10 (1000
/// hundredths).
pub proof fn lemma_next_gym_rewarded(m: StoryMemory, st: State)
    requires
        m.progress matches Some(p) && story_rank(st.story_progress) == story_rank(p) + 1 && 2 <= story_rank(p) <= 8,
        st.badges_earned == m.badges,
        st.pokedex_seen == m.seen,
        st.pokedex_caught == m.caught,
    ensures
        progress_reward(m, st) == 1000,
{
}

/// In the overworld, with a next frame of the same scene: an arrow that
/// changes the state earns a positive reward and more than one that does
/// not, which costs; for any button, a change never earns less than
/// standing still.
pub proof fn lemma_movement_rewarded(cur: State, nxt: State, a: GameAction)
    requires
        cur.scene == Scene::Overworld,
        nxt.scene == Scene::Overworld,
        cur != nxt,
    ensures
        navigation_reward(Some(cur), a, Some(Some(nxt))) >= navigation_reward(Some(cur), a, Some(Some(cur))),
        (a == GameAction::Up || a == GameAction::Down || a == GameAction::Left || a == GameAction::Right) ==> {
            &&& navigation_reward(Some(cur), a, Some(Some(nxt))) > 0
            &&& navigation_reward(Some(cur), a, Some(Some(nxt))) > navigation_reward(Some(cur), a, Some(Some(cur)))
            &&& navigation_reward(Some(cur), a, Some(Some(cur))) < 0
        },
{
}

/// Navigation rewards rank outcomes: leaving the intro for an identified
/// scene earns the most (1), reaching another identified scene next (0.5),
/// both more than anything a frame without a scene change can earn; no
/// next frame costs 0.01.
pub proof fn lemma_navigation_ranks(cur: Option<State>, a: GameAction, next: Option<State>, other: Option<State>, b: GameAction)
    requires
        frame_scene(other) == frame_scene(cur),
    ensures
        frame_scene(cur) == Scene::Intro && frame_scene(next) != Scene::Intro && frame_scene(next) != Scene::Unknown
            ==> navigation_reward(cur, a, Some(next)) == 100,
        frame_scene(cur) != Scene::Intro && frame_scene(next) != Scene::Unknown && frame_scene(next) != frame_scene(cur)
            ==> navigation_reward(cur, a, Some(next)) == 50,
        frame_scene(next) != Scene::Unknown && frame_scene(next) != frame_scene(cur)
            ==> navigation_reward(cur, a, Some(next)) > navigation_reward(cur, b, Some(other)),
        navigation_reward(cur, a, None) == -1,
        navigation_reward(cur, a, Some(next)) <= 100,
{
}

/// Battle rewards: finishing a battle earns more than entering one, which
/// earns more than staying in one, which earns more than being out of
/// battle; the last costs 0.01.
pub proof fn lemma_battle_ranks(cur: Option<State>, next: Option<Option<State>>)
    ensures
        frame_scene(cur) == Scene::Battle && next_scene(next) != Scene::Battle ==> battle_reward(cur, next) == 100,
        frame_scene(cur) != Scene::Battle && next_scene(next) == Scene::Battle ==> battle_reward(cur, next) == 50,
        frame_scene(cur) == Scene::Battle && next_scene(next) == Scene::Battle ==> battle_reward(cur, next) == 10,
        frame_scene(cur) != Scene::Battle && next_scene(next) != Scene::Battle ==> battle_reward(cur, next) == -1,
        battle_reward(cur, next) <= 100,
{
}

} // verus!
