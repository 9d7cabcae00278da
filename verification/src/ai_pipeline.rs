//! The per-frame decision core of the AI pipeline. A frame is handled in
//! two halves around the policy query, which the caller makes: the first
//! half annotates the frame, reads the situation, judges the previous
//! action by how the picture and the situation moved on, tracks the intro
//! and records a decision; the second half drives the macro from the
//! policy's action, feeds the reward processor and the experience
//! collector, remembers the step and says what to send. Times are
//! microseconds on a monotonic clock that the caller reads.

use vstd::prelude::*;
use crate::client_table::ClientTable;
use crate::experience::{ExperienceCollector, fifo_push, batch_due, drawn_from};
use crate::image_change::{hash_distance, hash_of, thumb_of, thumbnail, push_window, median, median_of, thumbnail_distance, push_distance};
use crate::macros::{MacroManager, ActiveMacroState, macro_step};
use crate::raster::RgbBuffer;
use crate::rewards::{Experience, MultiObjectiveRewardProcessor, NavigationRewardCalculator, StoryMemory, reward_step};
use crate::scene_annotation::{SceneAnnotationService, annotated_state, image_scene};
use crate::smart_action::{SmartActionService, GameSituation, ActionDecision, ActionRecord, situation_ok, decision_ok, action_succeeded, history_after};
use crate::types::{EnrichedFrame, GameAction, MacroAction, Scene, action_index, game_action_to_index};

verus! {

/// A decision as logged for a client.
#[derive(Debug)]
pub struct AIDecision {
    pub action: GameAction,
    pub confidence: u8,
    pub reasoning: String,
    pub timestamp: u64,
    pub client_id: u128,
}

impl Clone for AIDecision {
    fn clone(&self) -> (r: Self)
        ensures r == *self,
    {
        AIDecision {
            action: self.action,
            confidence: self.confidence,
            reasoning: self.reasoning.clone(),
            timestamp: self.timestamp,
            client_id: self.client_id,
        }
    }
}

/// Counters of the pipeline. Confidence is in percent, rates in
/// thousandths per second.
#[derive(Clone, Copy, Debug, PartialEq, Eq, Structural)]
pub struct AIStats {
    pub total_frames_processed: usize,
    pub total_decisions_made: usize,
    pub average_confidence: u8,
    pub last_decision_time: Option<u64>,
    pub frames_per_sec: u128,
    pub decisions_per_sec: u128,
    pub total_actions_sent: usize,
}

/// What the pipeline last did, for display.
#[derive(Clone, Copy, Debug, PartialEq, Eq, Structural)]
pub struct AIDebugSnapshot {
    pub last_client: Option<u128>,
    pub active_macro: Option<ActiveMacroState>,
    pub median_distance: Option<u64>,
}

/// The first half of a frame: the annotated frame, its situation and the
/// decision logged for it.
pub struct FrameObservation {
    pub annotated: EnrichedFrame,
    pub situation: GameSituation,
    pub decision: ActionDecision,
}

/// The second half of a frame: what to send and what to tell the policy.
pub struct FrameActions<P> {
    /// Start, sent first, when the intro has shown for over two seconds.
    pub forced_action: Option<GameAction>,
    /// The button to send.
    pub action: GameAction,
    /// A training batch, when one is due.
    pub training_batch: Option<Vec<Experience<P>>>,
    /// The policy action's index and the reward (thousandths) to nudge it
    /// by, when a reward came out.
    pub policy_nudge: Option<(usize, i128)>,
    /// Whether the policy should be saved now.
    pub save_policy: bool,
}

/// Change threshold and window size for the hash distances.
pub const CHANGE_THRESHOLD: u64 = 5;
pub const DISTANCE_WINDOW: usize = 5;
/// How long the intro may show before Start is forced.
pub const INTRO_TIMEOUT_US: u64 = 2_000_000;

/// Whether the previous action counts as successful: the situation moved
/// on and the picture changed, or the intro was left, or a menu or dialog
/// appeared after the intro.
pub open spec fn step_succeeded(prev: GameSituation, cur: GameSituation, image_changed: bool) -> bool {
    ||| action_succeeded(prev, cur) && image_changed
    ||| prev.scene == Scene::Intro && cur.scene != Scene::Intro
    ||| prev.scene == Scene::Intro && (cur.has_menu || cur.in_dialog)
}

/// `n + 1`, stopping at the largest `usize`.
pub open spec fn inc(n: usize) -> usize {
    if n == usize::MAX { n } else { (n + 1) as usize }
}

/// `n + 1`, stopping at the largest `u64`.
pub open spec fn inc64(n: u64) -> u64 {
    if n == u64::MAX { n } else { (n + 1) as u64 }
}

/// Time from `since` to `now`, zero if `now` is earlier.
pub open spec fn elapsed(since: u64, now: u64) -> u64 {
    if now >= since { (now - since) as u64 } else { 0 }
}

/// The optional entry of a map.
pub open spec fn entry<V>(m: Map<u128, V>, k: u128) -> Option<V> {
    if m.contains_key(k) { Some(m[k]) } else { None }
}

/// The intro start times after a frame of `scene` for `client` at `now`.
pub open spec fn intro_after(m: Map<u128, u64>, client: u128, scene: Scene, now: u64) -> Map<u128, u64> {
    if scene == Scene::Intro {
        if m.contains_key(client) { m } else { m.insert(client, now) }
    } else {
        m.remove(client)
    }
}

/// The logged form of a decision.
pub open spec fn logged(d: ActionDecision, now: u64, client: u128) -> AIDecision {
    AIDecision { action: d.action, confidence: d.confidence, reasoning: d.reasoning, timestamp: now, client_id: client }
}

/// The picture of a client counts as changed while its window is
/// non-empty and its median exceeds the threshold.
pub open spec fn window_changed(h: Option<Seq<u64>>) -> bool {
    match h {
        Some(s) => s.len() > 0 && median(s) > CHANGE_THRESHOLD,
        None => false,
    }
}

/// Per-second rate in thousandths of `count` events over `us`
/// microseconds.
pub open spec fn rate(count: u64, us: u64) -> u128 {
    (count as int * 1_000_000_000 / us as int) as u128
}

/// `a + b`, stopping at the largest `u64`.
pub open spec fn add64(a: u64, b: u64) -> u64 {
    if a + b > u64::MAX { u64::MAX } else { (a + b) as u64 }
}

/// Mean confidence in percent (rounded down, at most 255).
pub open spec fn mean_confidence(total: u64, decisions: usize) -> u8 {
    if decisions == 0 { 0 } else if total as int / decisions as int > 255 { 255 } else { (total as int / decisions as int) as u8 }
}

/// The median of a client's window, if it is non-empty.
pub open spec fn window_median(h: Option<Seq<u64>>) -> Option<u64> {
    match h {
        Some(s) => if s.len() > 0 { Some(median(s)) } else { None },
        None => None,
    }
}

/// The per-frame decision core. `P` is the policy's prediction.
pub struct AIPipelineService<P> {
    smart_action_service: SmartActionService,
    decision_history: ClientTable<Vec<AIDecision>>,
    stats: AIStats,
    stats_shared: AIStats,
    confidence_total: u64,
    last_action_and_situation: ClientTable<(GameAction, GameSituation, RgbBuffer)>,
    hash_distance_history: ClientTable<Vec<u64>>,
    active_macros: MacroManager,
    debug_snapshot: AIDebugSnapshot,
    fps_window_start: u64,
    fps_frames: u64,
    fps_decisions: u64,
    intro_scene_since: ClientTable<u64>,
    reward_processor: MultiObjectiveRewardProcessor<P>,
    experience_collector: ExperienceCollector<P>,
    scene_annotation_service: SceneAnnotationService,
    use_policy: bool,
}

impl<P> AIPipelineService<P> {
    /// The experiences the decision logic has learnt from.
    pub closed spec fn learning(&self) -> Seq<ActionRecord> {
        self.smart_action_service.history()
    }

    /// Per client: the last action sent, the situation it was sent in and
    /// the thumbnail of that frame.
    pub closed spec fn last_steps(&self) -> Map<u128, (GameAction, GameSituation, (nat, nat, Seq<u8>))> {
        self.last_action_and_situation@.map_values(|t: (GameAction, GameSituation, RgbBuffer)|
            (t.0, t.1, (t.2.spec_width(), t.2.spec_height(), t.2.spec_bytes())))
    }

    /// Per client: the window of recent hash distances.
    pub closed spec fn distances(&self) -> Map<u128, Seq<u64>> {
        self.hash_distance_history@.map_values(|v: Vec<u64>| v@)
    }

    /// Per client: since when the intro has been showing.
    pub closed spec fn intro_since(&self) -> Map<u128, u64> {
        self.intro_scene_since@
    }

    /// Per client: the running macro.
    pub closed spec fn macros(&self) -> Map<u128, ActiveMacroState> {
        self.active_macros.macros()
    }

    /// Per client: the logged decisions, oldest first.
    pub closed spec fn decisions(&self) -> Map<u128, Seq<AIDecision>> {
        self.decision_history@.map_values(|v: Vec<AIDecision>| v@)
    }

    pub closed spec fn counters(&self) -> AIStats {
        self.stats
    }

    /// The counters as published at the end of the last completed frame.
    pub closed spec fn published(&self) -> AIStats {
        self.stats_shared
    }

    pub closed spec fn confidence_sum(&self) -> u64 {
        self.confidence_total
    }

    pub closed spec fn snapshot(&self) -> AIDebugSnapshot {
        self.debug_snapshot
    }

    /// Start of the current rate window and the frames and decisions
    /// counted in it.
    pub closed spec fn fps_window(&self) -> (u64, u64, u64) {
        (self.fps_window_start, self.fps_frames, self.fps_decisions)
    }

    pub closed spec fn rewards(&self) -> MultiObjectiveRewardProcessor<P> {
        self.reward_processor
    }

    pub closed spec fn collector(&self) -> ExperienceCollector<P> {
        self.experience_collector
    }
}

impl<P: Clone> AIPipelineService<P> {
    /// A pipeline that knows no client yet; its rate window starts at
    /// `now`. Experiences are buffered up to 10 000.
    pub fn new(now: u64) -> (r: AIPipelineService<P>)
        ensures
            r.learning().len() == 0,
            r.last_steps() == Map::<u128, (GameAction, GameSituation, (nat, nat, Seq<u8>))>::empty(),
            r.distances() == Map::<u128, Seq<u64>>::empty(),
            r.intro_since() == Map::<u128, u64>::empty(),
            r.macros() == Map::<u128, ActiveMacroState>::empty(),
            r.decisions() == Map::<u128, Seq<AIDecision>>::empty(),
            r.counters() == (AIStats {
                total_frames_processed: 0,
                total_decisions_made: 0,
                average_confidence: 0,
                last_decision_time: None,
                frames_per_sec: 0,
                decisions_per_sec: 0,
                total_actions_sent: 0,
            }),
            r.published() == r.counters(),
            r.confidence_sum() == 0,
            r.fps_window() == (now, 0u64, 0u64),
            r.snapshot() == (AIDebugSnapshot { last_client: None, active_macro: None, median_distance: None }),
            r.rewards().frames().len() == 0,
            r.rewards().story_memory() == (StoryMemory { progress: None, badges: 0, seen: 0, caught: 0 }),
            r.collector().buf().items().len() == 0,
            r.collector().buf().max() == 10_000,
    {
        let r = AIPipelineService {
            smart_action_service: SmartActionService::new(),
            decision_history: ClientTable::new(),
            stats: AIStats {
                total_frames_processed: 0,
                total_decisions_made: 0,
                average_confidence: 0,
                last_decision_time: None,
                frames_per_sec: 0,
                decisions_per_sec: 0,
                total_actions_sent: 0,
            },
            stats_shared: AIStats {
                total_frames_processed: 0,
                total_decisions_made: 0,
                average_confidence: 0,
                last_decision_time: None,
                frames_per_sec: 0,
                decisions_per_sec: 0,
                total_actions_sent: 0,
            },
            confidence_total: 0,
            last_action_and_situation: ClientTable::new(),
            hash_distance_history: ClientTable::new(),
            active_macros: MacroManager::new(),
            debug_snapshot: AIDebugSnapshot { last_client: None, active_macro: None, median_distance: None },
            fps_window_start: now,
            fps_frames: 0,
            fps_decisions: 0,
            intro_scene_since: ClientTable::new(),
            reward_processor: MultiObjectiveRewardProcessor::new(NavigationRewardCalculator::new()),
            experience_collector: ExperienceCollector::new(10_000),
            scene_annotation_service: SceneAnnotationService::new(()),
            use_policy: true,
        };
        proof {
            assert(r.last_steps() =~= Map::<u128, (GameAction, GameSituation, (nat, nat, Seq<u8>))>::empty());
            assert(r.distances() =~= Map::<u128, Seq<u64>>::empty());
            assert(r.decisions() =~= Map::<u128, Seq<AIDecision>>::empty());
        }
        r
    }
}

impl<P: Clone> AIPipelineService<P> {
    /// First half of a frame: counts it, annotates its scene, reads the
    /// situation, and (when the client has a previous step) adds the hash
    /// distance between the previous and the current thumbnail to the
    /// client's window and records whether the previous action succeeded;
    /// then tracks the intro and logs a decision at `now`.
    pub fn observe_frame(&mut self, frame: EnrichedFrame, now: u64) -> (r: FrameObservation)
        ensures
            r.annotated.state == annotated_state(frame.state, image_scene(frame.image)),
            r.annotated.client == frame.client,
            r.annotated.image == frame.image,
            r.annotated.timestamp == frame.timestamp,
            r.annotated.program == frame.program,
            r.annotated.id == frame.id,
            r.annotated.action == frame.action,
            situation_ok(r.annotated.state, r.annotated.image, r.situation),
            match entry(old(self).last_steps(), frame.client) {
                Some(last) => {
                    let d = hash_distance(hash_of(last.2), hash_of(thumb_of(frame.image)));
                    let h = push_window(
                        match entry(old(self).distances(), frame.client) { Some(s) => s, None => Seq::empty() },
                        d as u64,
                        DISTANCE_WINDOW as nat,
                    );
                    &&& final(self).distances() == old(self).distances().insert(frame.client, h)
                    &&& final(self).learning() == history_after(
                        old(self).learning(),
                        ActionRecord {
                            situation: last.1,
                            action: last.0,
                            was_successful: step_succeeded(last.1, r.situation, median(h) > CHANGE_THRESHOLD),
                        },
                    )
                },
                None => final(self).distances() == old(self).distances() && final(self).learning() == old(self).learning(),
            },
            final(self).intro_since() == intro_after(old(self).intro_since(), frame.client, r.situation.scene, now),
            exists|e: Option<GameAction>| decision_ok(final(self).learning(), r.situation, e, r.decision),
            final(self).decisions() == old(self).decisions().insert(
                frame.client,
                match entry(old(self).decisions(), frame.client) { Some(s) => s, None => Seq::empty() }.push(logged(r.decision, now, frame.client)),
            ),
            final(self).counters() == (AIStats { total_frames_processed: inc(old(self).counters().total_frames_processed), ..old(self).counters() }),
            final(self).published() == old(self).published(),
            final(self).fps_window() == (old(self).fps_window().0, inc64(old(self).fps_window().1), old(self).fps_window().2),
            final(self).last_steps() == old(self).last_steps(),
            final(self).macros() == old(self).macros(),
            final(self).confidence_sum() == old(self).confidence_sum(),
            final(self).snapshot() == old(self).snapshot(),
            final(self).rewards() == old(self).rewards(),
            final(self).collector() == old(self).collector(),
    {
        let client = frame.client;
        self.stats.total_frames_processed = self.stats.total_frames_processed.saturating_add(1);
        self.fps_frames = self.fps_frames.saturating_add(1);
        let annotated = self.scene_annotation_service.annotate(frame);
        let current_situation = self.smart_action_service.analyze_situation(&annotated);
        let previous: Option<(GameAction, GameSituation, u64)> = match self.last_action_and_situation.get(client) {
            Some(last) => {
                let small_curr = thumbnail(&annotated.image);
                let distance = thumbnail_distance(&last.2, &small_curr);
                Some((last.0, last.1, distance))
            },
            None => None,
        };
        match previous {
            Some((last_action, last_situation, distance)) => {
                let mut history = match self.hash_distance_history.remove(client) {
                    Some(h) => h,
                    None => Vec::new(),
                };
                push_distance(&mut history, distance, DISTANCE_WINDOW);
                let median_distance = median_of(&history);
                let ghost h = history@;
                let image_changed = median_distance > CHANGE_THRESHOLD;
                self.hash_distance_history.insert(client, history);
                let intro_skipped = last_situation.scene == Scene::Intro && current_situation.scene != Scene::Intro;
                let menu_or_dialog_now = current_situation.has_menu || current_situation.in_dialog;
                let was_successful = self.smart_action_service.is_action_successful(&last_situation, &current_situation) && image_changed
                    || intro_skipped
                    || (last_situation.scene == Scene::Intro && menu_or_dialog_now);
                self.smart_action_service.record_experience(last_situation, last_action, was_successful);
                proof {
                    assert(self.distances() =~= old(self).distances().insert(client, h));
                }
            },
            None => {},
        }
        if current_situation.scene == Scene::Intro {
            if !self.intro_scene_since.contains(client) {
                self.intro_scene_since.insert(client, now);
            }
        } else {
            let _ = self.intro_scene_since.remove(client);
            proof { assert(self.intro_since() == old(self).intro_since().remove(client)); }
        }
        let decision = self.smart_action_service.make_decision(&current_situation);
        let ghost explored = choose|e: Option<GameAction>| decision_ok(self.smart_action_service.history(), current_situation, e, decision);
        let mut log = match self.decision_history.remove(client) {
            Some(h) => h,
            None => Vec::new(),
        };
        log.push(AIDecision {
            action: decision.action,
            confidence: decision.confidence,
            reasoning: decision.reasoning.clone(),
            timestamp: now,
            client_id: client,
        });
        let ghost l = log@;
        self.decision_history.insert(client, log);
        proof {
            assert(self.decisions() =~= old(self).decisions().insert(client, l));
            assert(decision_ok(self.learning(), current_situation, explored, decision));
        }
        FrameObservation { annotated, situation: current_situation, decision }
    }

    /// Counts a decision's confidence into the running mean.
    fn update_average_confidence(&mut self, new_confidence: u8)
        ensures
            final(self).confidence_sum() == add64(old(self).confidence_sum(), new_confidence as u64),
            final(self).counters() == (AIStats {
                average_confidence: mean_confidence(final(self).confidence_sum(), old(self).counters().total_decisions_made),
                ..old(self).counters()
            }),
            final(self).fps_window() == old(self).fps_window(),
            final(self).snapshot() == old(self).snapshot(),
            final(self).learning() == old(self).learning(),
            final(self).last_steps() == old(self).last_steps(),
            final(self).distances() == old(self).distances(),
            final(self).intro_since() == old(self).intro_since(),
            final(self).macros() == old(self).macros(),
            final(self).decisions() == old(self).decisions(),
            final(self).rewards() == old(self).rewards(),
            final(self).collector() == old(self).collector(),
    {
        self.confidence_total = self.confidence_total.saturating_add(new_confidence as u64);
        let n = self.stats.total_decisions_made as u64;
        self.stats.average_confidence = if n == 0 {
            0
        } else {
            let q = self.confidence_total / n;
            if q > 255 { 255 } else { q as u8 }
        };
    }

    /// Second half of a frame, after the policy has suggested
    /// `policy_action` with `prediction`: the client's macro goes on or a
    /// new one starts (early-stopped while the picture keeps changing); the
    /// frame, the action sent and the prediction go to the reward
    /// processor, and any experience that comes out to the collector; the
    /// step is remembered with the frame's thumbnail; Start is forced when
    /// the intro has shown for over two seconds at `now`; the counters,
    /// the rate window and the snapshot are brought up to date.
    pub fn complete_frame(
        &mut self,
        annotated: &EnrichedFrame,
        situation: GameSituation,
        confidence: u8,
        policy_action: GameAction,
        prediction: P,
        frame_start: u64,
        now: u64,
    ) -> (r: FrameActions<P>)
        ensures
            ({
                let step = macro_step(
                    entry(old(self).macros(), annotated.client),
                    situation,
                    policy_action,
                    window_changed(entry(old(self).distances(), annotated.client)),
                );
                &&& r.action == step.0
                &&& final(self).macros() == old(self).macros().insert(annotated.client, step.1)
            }),
            exists|e: Option<Experience<P>>| {
                &&& #[trigger] reward_step(old(self).rewards(), final(self).rewards(), *annotated, r.action, prediction, e)
                &&& final(self).collector().buf().items() == (match e {
                        Some(x) => fifo_push(old(self).collector().buf().items(), x, old(self).collector().buf().max() as nat),
                        None => old(self).collector().buf().items(),
                    })
                &&& r.policy_nudge == (match e {
                        Some(x) => Some((action_index(policy_action) as usize, x.reward)),
                        None => None,
                    })
                &&& r.save_policy == (e is Some && old(self).counters().total_actions_sent % 50 == 0)
                &&& (r.training_batch is Some <==> (e is Some && batch_due(final(self).collector().buf().items().len())))
                &&& (r.training_batch matches Some(b) ==> {
                    let items = final(self).collector().buf().items();
                    &&& b@.len() == (if 100 < items.len() { 100 } else { items.len() })
                    &&& drawn_from(b@, items)
                })
            },
            final(self).collector().buf().max() == old(self).collector().buf().max(),
            final(self).last_steps() == old(self).last_steps().insert(annotated.client, (r.action, situation, thumb_of(annotated.image))),
            r.forced_action == (if situation.scene == Scene::Intro
                && old(self).intro_since().contains_key(annotated.client)
                && elapsed(old(self).intro_since()[annotated.client], now) > INTRO_TIMEOUT_US {
                Some(GameAction::Start)
            } else {
                None
            }),
            final(self).confidence_sum() == add64(old(self).confidence_sum(), confidence as u64),
            ({
                let o = old(self).counters();
                let f = final(self).counters();
                let (start, frames, decisions) = old(self).fps_window();
                let el = elapsed(start, now);
                &&& f.total_frames_processed == o.total_frames_processed
                &&& f.total_decisions_made == inc(o.total_decisions_made)
                &&& f.total_actions_sent == inc(o.total_actions_sent)
                &&& f.average_confidence == mean_confidence(final(self).confidence_sum(), f.total_decisions_made)
                &&& f.last_decision_time == Some(frame_start)
                &&& if el >= 1_000_000 {
                    &&& f.frames_per_sec == rate(frames, el)
                    &&& f.decisions_per_sec == rate(inc64(decisions), el)
                    &&& final(self).fps_window() == (now, 0u64, 0u64)
                } else {
                    &&& f.frames_per_sec == o.frames_per_sec
                    &&& f.decisions_per_sec == o.decisions_per_sec
                    &&& final(self).fps_window() == (start, frames, inc64(decisions))
                }
            }),
            final(self).published() == final(self).counters(),
            final(self).snapshot() == (AIDebugSnapshot {
                last_client: Some(annotated.client),
                active_macro: entry(final(self).macros(), annotated.client),
                median_distance: window_median(entry(final(self).distances(), annotated.client)),
            }),
            final(self).learning() == old(self).learning(),
            final(self).distances() == old(self).distances(),
            final(self).intro_since() == old(self).intro_since(),
            final(self).decisions() == old(self).decisions(),
    {
        let client = annotated.client;
        let image_changed_now = match self.hash_distance_history.get(client) {
            Some(h) => if h.len() == 0 { false } else { median_of(h) > CHANGE_THRESHOLD },
            None => false,
        };
        let action_to_send = self.active_macros.execute_macro(client, &situation, policy_action, image_changed_now);
        let maybe_exp = self.reward_processor.process_frame(annotated, action_to_send, prediction);
        let ghost e = maybe_exp;
        let mut training_batch: Option<Vec<Experience<P>>> = None;
        let mut policy_nudge: Option<(usize, i128)> = None;
        let mut save_policy = false;
        match maybe_exp {
            Some(exp) => {
                let reward = exp.reward;
                training_batch = self.experience_collector.collect_experience(exp);
                policy_nudge = Some((game_action_to_index(policy_action), reward));
                save_policy = self.stats.total_actions_sent % 50 == 0;
            },
            None => {},
        }
        let small_curr_for_cache = thumbnail(&annotated.image);
        self.last_action_and_situation.insert(client, (action_to_send, situation, small_curr_for_cache));
        let forced_action = if situation.scene == Scene::Intro {
            match self.intro_scene_since.get(client) {
                Some(since) => {
                    let el = if now >= *since { now - *since } else { 0 };
                    if el > INTRO_TIMEOUT_US { Some(GameAction::Start) } else { None }
                },
                None => None,
            }
        } else {
            None
        };
        self.stats.total_actions_sent = self.stats.total_actions_sent.saturating_add(1);
        self.stats.total_decisions_made = self.stats.total_decisions_made.saturating_add(1);
        self.fps_decisions = self.fps_decisions.saturating_add(1);
        self.update_average_confidence(confidence);
        self.stats.last_decision_time = Some(frame_start);
        let el = if now >= self.fps_window_start { now - self.fps_window_start } else { 0 };
        if el >= 1_000_000 {
            self.stats.frames_per_sec = (self.fps_frames as u128) * 1_000_000_000 / (el as u128);
            self.stats.decisions_per_sec = (self.fps_decisions as u128) * 1_000_000_000 / (el as u128);
            self.fps_frames = 0;
            self.fps_decisions = 0;
            self.fps_window_start = now;
        }
        let active_macro = self.active_macros.get_macro_state(client);
        let median_distance = match self.hash_distance_history.get(client) {
            Some(h) => if h.len() == 0 { None } else { Some(median_of(h)) },
            None => None,
        };
        self.debug_snapshot = AIDebugSnapshot { last_client: Some(client), active_macro, median_distance };
        self.stats_shared = self.stats;
        proof {
            assert(self.last_steps() =~= old(self).last_steps().insert(client, (action_to_send, situation, thumb_of(annotated.image))));
            assert(reward_step(old(self).rewards(), self.rewards(), *annotated, action_to_send, prediction, e));
        }
        FrameActions { forced_action, action: action_to_send, training_batch, policy_nudge, save_policy }
    }

    /// The counters.
    pub fn get_stats(&self) -> (r: AIStats)
        ensures r == self.counters(),
    {
        self.stats
    }

    /// The counters as published for display at the end of the last
    /// completed frame: a frame that is observed but never completed (its
    /// policy call failed) leaves them as they were.
    pub fn get_stats_shared(&self) -> (r: AIStats)
        ensures r == self.published(),
    {
        self.stats_shared
    }

    /// What the pipeline last did.
    pub fn get_debug_snapshot(&self) -> (r: AIDebugSnapshot)
        ensures r == self.snapshot(),
    {
        self.debug_snapshot
    }

    /// A copy of the decisions logged for a client, oldest first; empty for
    /// an unknown client.
    pub fn get_client_decisions(&self, client_id: u128) -> (r: Vec<AIDecision>)
        ensures r@ == (match entry(self.decisions(), client_id) { Some(s) => s, None => Seq::empty() }),
    {
        match self.decision_history.get(client_id) {
            Some(h) => {
                let c = h.clone();
                proof { assert(c@ =~= h@); }
                c
            },
            None => Vec::new(),
        }
    }
}

} // verus!
