//! Per-client bookkeeping: the last action and situation, the thumbnail of
//! the last frame, how long the intro has been showing, and a bounded
//! history of decisions. Times are microseconds on a monotonic clock that
//! the caller reads.

use vstd::prelude::*;
use crate::client_table::ClientTable;
use crate::raster::{RgbBuffer, same_image};
use crate::smart_action::{ActionDecision, GameSituation};
use crate::types::{GameAction, Scene};

verus! {

/// What is known of one client.
pub struct ClientState {
    pub last_action: Option<GameAction>,
    pub last_situation: Option<GameSituation>,
    pub last_small_image: Option<RgbBuffer>,
    pub intro_scene_since: Option<u64>,
    pub total_actions_taken: u64,
    pub last_update: u64,
}

/// Two optional rasters that are both absent or show the same image.
pub open spec fn same_opt_image(a: Option<RgbBuffer>, b: Option<RgbBuffer>) -> bool {
    match (a, b) {
        (Some(x), Some(y)) => same_image(x, y),
        (None, None) => true,
        _ => false,
    }
}

/// Two client states that agree in every field, images compared by content.
pub open spec fn same_client_state(a: ClientState, b: ClientState) -> bool {
    &&& a.last_action == b.last_action
    &&& a.last_situation == b.last_situation
    &&& same_opt_image(a.last_small_image, b.last_small_image)
    &&& a.intro_scene_since == b.intro_scene_since
    &&& a.total_actions_taken == b.total_actions_taken
    &&& a.last_update == b.last_update
}

impl Clone for ClientState {
    fn clone(&self) -> (r: Self)
        ensures same_client_state(r, *self),
    {
        ClientState {
            last_action: self.last_action,
            last_situation: self.last_situation,
            last_small_image: match &self.last_small_image {
                Some(img) => Some(img.clone()),
                None => None,
            },
            intro_scene_since: self.intro_scene_since,
            total_actions_taken: self.total_actions_taken,
            last_update: self.last_update,
        }
    }
}

/// Where the intro timer stands after a frame of scene `scene` at `now`: it
/// starts when the intro appears, keeps its start while the intro stays,
/// and stops when another scene shows.
pub open spec fn intro_since_after(since: Option<u64>, scene: Scene, now: u64) -> Option<u64> {
    if scene == Scene::Intro {
        match since { Some(t) => Some(t), None => Some(now) }
    } else {
        None
    }
}

/// How long the intro has been showing at `now` (zero if `now` is before
/// its start).
pub open spec fn intro_duration(since: Option<u64>, now: u64) -> Option<u64> {
    match since {
        Some(t) => Some(if now >= t { (now - t) as u64 } else { 0 }),
        None => None,
    }
}

/// Stuck: the intro has been showing for longer than the threshold.
pub open spec fn intro_stuck(since: Option<u64>, threshold: u64, now: u64) -> bool {
    match intro_duration(since, now) {
        Some(d) => d > threshold,
        None => false,
    }
}

/// A new client as seen at `now`.
pub open spec fn fresh_state(now: u64) -> ClientState {
    ClientState {
        last_action: None,
        last_situation: None,
        last_small_image: None,
        intro_scene_since: None,
        total_actions_taken: 0,
        last_update: now,
    }
}

impl ClientState {
    /// Nothing known yet; updated at `now`.
    pub fn new(now: u64) -> (r: ClientState)
        ensures same_client_state(r, fresh_state(now)),
    {
        ClientState {
            last_action: None,
            last_situation: None,
            last_small_image: None,
            intro_scene_since: None,
            total_actions_taken: 0,
            last_update: now,
        }
    }

    /// Records the action taken, the situation it was taken in and the
    /// thumbnail of the frame; counts the action (saturating).
    pub fn update_action_and_situation(&mut self, action: GameAction, situation: GameSituation, small_image: RgbBuffer, now: u64)
        ensures
            final(self).last_action == Some(action),
            final(self).last_situation == Some(situation),
            same_opt_image(final(self).last_small_image, Some(small_image)),
            final(self).intro_scene_since == old(self).intro_scene_since,
            final(self).total_actions_taken == (if old(self).total_actions_taken == u64::MAX { u64::MAX } else { (old(self).total_actions_taken + 1) as u64 }),
            final(self).last_update == now,
    {
        self.last_action = Some(action);
        self.last_situation = Some(situation);
        self.last_small_image = Some(small_image);
        self.total_actions_taken = self.total_actions_taken.saturating_add(1);
        self.last_update = now;
    }

    /// Starts, keeps or stops the intro timer for a frame of `scene`.
    pub fn update_intro_tracking(&mut self, current_scene: Scene, now: u64)
        ensures
            final(self).intro_scene_since == intro_since_after(old(self).intro_scene_since, current_scene, now),
            final(self).last_action == old(self).last_action,
            final(self).last_situation == old(self).last_situation,
            same_opt_image(final(self).last_small_image, old(self).last_small_image),
            final(self).total_actions_taken == old(self).total_actions_taken,
            final(self).last_update == old(self).last_update,
    {
        if current_scene == Scene::Intro {
            if self.intro_scene_since.is_none() {
                self.intro_scene_since = Some(now);
            }
        } else {
            self.intro_scene_since = None;
        }
        proof {
            match old(self).last_small_image { Some(x) => {}, None => {} }
        }
    }

    /// How long the intro has been showing at `now`.
    pub fn get_intro_duration(&self, now: u64) -> (r: Option<u64>)
        ensures r == intro_duration(self.intro_scene_since, now),
    {
        match self.intro_scene_since {
            Some(t) => Some(if now >= t { now - t } else { 0 }),
            None => None,
        }
    }

    /// Whether the intro has been showing for longer than `threshold`
    /// microseconds at `now`.
    pub fn is_intro_stuck(&self, threshold: u64, now: u64) -> (r: bool)
        ensures r == intro_stuck(self.intro_scene_since, threshold, now),
    {
        match self.get_intro_duration(now) {
            Some(d) => d > threshold,
            None => false,
        }
    }
}

/// Counts kept about the clients.
#[derive(Clone, Copy, Debug, PartialEq, Eq, Structural)]
pub struct ClientStateStats {
    pub active_clients: usize,
    pub total_decisions_stored: usize,
    pub max_history_per_client: usize,
}

/// A history after one more decision: the oldest goes once the bound is
/// passed.
pub open spec fn bounded_push(h: Seq<ActionDecision>, d: ActionDecision, max: nat) -> Seq<ActionDecision> {
    let t = h.push(d);
    if t.len() > max { t.drop_first() } else { t }
}

/// The last `count` items of `h`, newest first.
pub open spec fn newest_first(h: Seq<ActionDecision>, count: nat) -> Seq<ActionDecision> {
    let n = if count < h.len() { count } else { h.len() };
    Seq::new(n, |i: int| h[h.len() - 1 - i])
}

/// Sum of the history lengths in a list of entries.
pub open spec fn total_decisions(e: Seq<(u128, Vec<ActionDecision>)>) -> nat
    decreases e.len(),
{
    if e.len() == 0 { 0 } else { total_decisions(e.drop_last()) + e.last().1@.len() }
}

/// A count as a `usize`, stopping at the largest one.
pub open spec fn saturated_count(n: nat) -> usize {
    if n > usize::MAX { usize::MAX } else { n as usize }
}

/// The clients of `e`, in order, whose intro has been showing for longer
/// than `threshold` at `now`.
pub open spec fn stuck_clients(e: Seq<(u128, ClientState)>, threshold: u64, now: u64) -> Seq<u128>
    decreases e.len(),
{
    if e.len() == 0 {
        Seq::empty()
    } else {
        let rest = stuck_clients(e.drop_last(), threshold, now);
        if intro_stuck(e.last().1.intro_scene_since, threshold, now) { rest.push(e.last().0) } else { rest }
    }
}

/// The state of every client and a bounded history of its decisions.
pub struct ClientStateManager {
    client_states: ClientTable<ClientState>,
    decision_history: ClientTable<Vec<ActionDecision>>,
    max_history_per_client: usize,
}

/// `new` is `old` after advancing `client_id`'s intro timer for a frame of
/// `scene` at `now` (the client's state created as of `now` if needed);
/// nothing else changes.
pub open spec fn intro_tracked(old: ClientStateManager, new: ClientStateManager, client_id: u128, scene: Scene, now: u64) -> bool {
    &&& new.states().contains_key(client_id)
    &&& new.states().remove(client_id) == old.states().remove(client_id)
    &&& ({
        let st = new.states()[client_id];
        let before = if old.states().contains_key(client_id) { old.states()[client_id] } else { fresh_state(now) };
        &&& st.intro_scene_since == intro_since_after(before.intro_scene_since, scene, now)
        &&& st.last_action == before.last_action
        &&& st.last_situation == before.last_situation
        &&& same_opt_image(st.last_small_image, before.last_small_image)
        &&& st.total_actions_taken == before.total_actions_taken
        &&& st.last_update == before.last_update
    })
    &&& new.histories() == old.histories()
    &&& new.max_history() == old.max_history()
}

impl ClientStateManager {
    /// The state of each client.
    pub closed spec fn states(&self) -> Map<u128, ClientState> {
        self.client_states@
    }

    /// The decision history of each client, oldest first.
    pub closed spec fn histories(&self) -> Map<u128, Seq<ActionDecision>> {
        self.decision_history@.map_values(|v: Vec<ActionDecision>| v@)
    }

    /// The tracked clients with their states, oldest client first.
    pub closed spec fn state_entries(&self) -> Seq<(u128, ClientState)> {
        self.client_states.entries()
    }

    /// How many decisions all histories hold together.
    pub closed spec fn decisions_total(&self) -> nat {
        total_decisions(self.decision_history.entries())
    }

    pub closed spec fn max_history(&self) -> usize {
        self.max_history_per_client
    }

    /// No clients; up to 100 decisions kept per client.
    pub fn new() -> (r: ClientStateManager)
        ensures
            r.states() == Map::<u128, ClientState>::empty(),
            r.state_entries().len() == 0,
            r.histories() == Map::<u128, Seq<ActionDecision>>::empty(),
            r.max_history() == 100,
    {
        let r = ClientStateManager {
            client_states: ClientTable::new(),
            decision_history: ClientTable::new(),
            max_history_per_client: 100,
        };
        proof {
            assert(r.states() =~= Map::<u128, ClientState>::empty());
            assert(r.histories() =~= Map::<u128, Seq<ActionDecision>>::empty());
        }
        r
    }

    /// The same manager keeping up to `max_history` decisions per client.
    pub fn with_max_history(self, max_history: usize) -> (r: ClientStateManager)
        ensures
            r.max_history() == max_history,
            r.states() == self.states(),
            r.state_entries() == self.state_entries(),
            r.histories() == self.histories(),
    {
        ClientStateManager { max_history_per_client: max_history, ..self }
    }

    /// The state of a client, created as of `now` if it had none; the
    /// returned value is a copy of the stored state.
    pub fn get_or_create_client_state(&mut self, client_id: u128, now: u64) -> (r: ClientState)
        ensures
            final(self).states().contains_key(client_id),
            old(self).states().contains_key(client_id) ==> final(self).states() == old(self).states(),
            !old(self).states().contains_key(client_id) ==> final(self).states() == old(self).states().insert(client_id, final(self).states()[client_id])
                && same_client_state(final(self).states()[client_id], fresh_state(now)),
            same_client_state(r, final(self).states()[client_id]),
            final(self).histories() == old(self).histories(),
            final(self).max_history() == old(self).max_history(),
    {
        if !self.client_states.contains(client_id) {
            self.client_states.insert(client_id, ClientState::new(now));
        }
        match self.client_states.get(client_id) {
            Some(st) => st.clone(),
            None => ClientState::new(now),
        }
    }

    /// The state of a client, if it has one.
    pub fn get_client_state(&self, client_id: u128) -> (r: Option<&ClientState>)
        ensures
            match r {
                Some(st) => self.states().contains_key(client_id) && *st == self.states()[client_id],
                None => !self.states().contains_key(client_id),
            },
    {
        self.client_states.get(client_id)
    }

    fn take_state(&mut self, client_id: u128, now: u64) -> (r: ClientState)
        ensures
            final(self).states() == old(self).states().remove(client_id),
            old(self).states().contains_key(client_id) ==> r == old(self).states()[client_id],
            !old(self).states().contains_key(client_id) ==> same_client_state(r, fresh_state(now)),
            final(self).histories() == old(self).histories(),
            final(self).max_history() == old(self).max_history(),
    {
        match self.client_states.remove(client_id) {
            Some(st) => st,
            None => ClientState::new(now),
        }
    }

    /// Records a client's action, situation and thumbnail (creating its
    /// state as of `now` first if needed).
    pub fn update_client_state(&mut self, client_id: u128, action: GameAction, situation: GameSituation, small_image: RgbBuffer, now: u64)
        ensures
            final(self).states().contains_key(client_id),
            final(self).states().remove(client_id) == old(self).states().remove(client_id),
            ({
                let st = final(self).states()[client_id];
                let before = if old(self).states().contains_key(client_id) { old(self).states()[client_id] } else { fresh_state(now) };
                &&& st.last_action == Some(action)
                &&& st.last_situation == Some(situation)
                &&& same_opt_image(st.last_small_image, Some(small_image))
                &&& st.intro_scene_since == before.intro_scene_since
                &&& st.total_actions_taken == (if before.total_actions_taken == u64::MAX { u64::MAX } else { (before.total_actions_taken + 1) as u64 })
                &&& st.last_update == now
            }),
            final(self).histories() == old(self).histories(),
            final(self).max_history() == old(self).max_history(),
    {
        let mut st = self.take_state(client_id, now);
        st.update_action_and_situation(action, situation, small_image, now);
        self.client_states.insert(client_id, st);
        proof { assert(self.states().remove(client_id) =~= old(self).states().remove(client_id)); }
    }

    /// Advances a client's intro timer for a frame of `current_scene`
    /// (creating its state as of `now` first if needed).
    pub fn update_intro_tracking(&mut self, client_id: u128, current_scene: Scene, now: u64)
        ensures
            intro_tracked(*old(self), *final(self), client_id, current_scene, now),
    {
        let mut st = self.take_state(client_id, now);
        st.update_intro_tracking(current_scene, now);
        self.client_states.insert(client_id, st);
        proof { assert(self.states().remove(client_id) =~= old(self).states().remove(client_id)); }
    }

    /// Whether a client's intro has been showing for longer than
    /// `threshold` microseconds at `now`; false for an unknown client.
    pub fn is_client_intro_stuck(&self, client_id: u128, threshold: u64, now: u64) -> (r: bool)
        ensures
            r == (self.states().contains_key(client_id) && intro_stuck(self.states()[client_id].intro_scene_since, threshold, now)),
    {
        match self.client_states.get(client_id) {
            Some(st) => st.is_intro_stuck(threshold, now),
            None => false,
        }
    }

    /// Appends a decision to a client's history, dropping the oldest once
    /// the history is longer than the bound.
    pub fn add_decision_to_history(&mut self, client_id: u128, decision: ActionDecision)
        ensures
            final(self).histories() == old(self).histories().insert(
                client_id,
                bounded_push(
                    if old(self).histories().contains_key(client_id) { old(self).histories()[client_id] } else { Seq::empty() },
                    decision,
                    old(self).max_history() as nat,
                ),
            ),
            final(self).states() == old(self).states(),
            final(self).state_entries() == old(self).state_entries(),
            final(self).max_history() == old(self).max_history(),
    {
        let mut history = match self.decision_history.remove(client_id) {
            Some(h) => h,
            None => Vec::new(),
        };
        let ghost before = history@;
        history.push(decision);
        if history.len() > self.max_history_per_client {
            history.remove(0);
            proof { assert(before.push(decision).drop_first() =~= before.push(decision).remove(0)); }
        }
        let ghost after = history@;
        self.decision_history.insert(client_id, history);
        proof {
            assert(after == bounded_push(before, decision, old(self).max_history() as nat));
            assert(self.histories() =~= old(self).histories().insert(client_id, after));
        }
    }

    /// A copy of a client's history, oldest first; empty for an unknown
    /// client.
    pub fn get_decision_history(&self, client_id: u128) -> (r: Vec<ActionDecision>)
        ensures
            r@ == (if self.histories().contains_key(client_id) { self.histories()[client_id] } else { Seq::empty() }),
    {
        match self.decision_history.get(client_id) {
            Some(h) => {
                let c = h.clone();
                proof { assert(c@ =~= h@); }
                c
            },
            None => Vec::new(),
        }
    }

    /// Up to `count` of a client's latest decisions, newest first.
    pub fn get_recent_decisions(&self, client_id: u128, count: usize) -> (r: Vec<ActionDecision>)
        ensures
            r@ == newest_first(
                if self.histories().contains_key(client_id) { self.histories()[client_id] } else { Seq::empty() },
                count as nat,
            ),
    {
        let mut r: Vec<ActionDecision> = Vec::new();
        match self.decision_history.get(client_id) {
            Some(h) => {
                let n = if count < h.len() { count } else { h.len() };
                let mut i: usize = 0;
                while i < n
                    invariant
                        n <= h@.len(),
                        n == (if count < h@.len() { count as nat } else { h@.len() }),
                        i <= n,
                        r@ == newest_first(h@, i as nat),
                    decreases n - i,
                {
                    let d = h[h.len() - 1 - i].clone();
                    r.push(d);
                    i = i + 1;
                    proof { assert(r@ =~= newest_first(h@, i as nat)); }
                }
                proof { assert(r@ =~= newest_first(h@, count as nat)); }
            },
            None => {
                proof { assert(r@ =~= newest_first(Seq::empty(), count as nat)); }
            },
        }
        r
    }

    /// Forgets a client.
    pub fn clear_client_data(&mut self, client_id: u128)
        ensures
            final(self).states() == old(self).states().remove(client_id),
            final(self).histories() == old(self).histories().remove(client_id),
            final(self).max_history() == old(self).max_history(),
    {
        let _ = self.client_states.remove(client_id);
        let _ = self.decision_history.remove(client_id);
        proof { assert(self.histories() =~= old(self).histories().remove(client_id)); }
    }

    /// Clients tracked, decisions stored over all clients, and the bound.
    pub fn get_stats(&self) -> (r: ClientStateStats)
        ensures
            r.active_clients == self.state_entries().len(),
            r.total_decisions_stored == saturated_count(self.decisions_total()),
            r.max_history_per_client == self.max_history(),
    {
        let entries = self.decision_history.as_vec();
        let mut total: usize = 0;
        let mut i: usize = 0;
        while i < entries.len()
            invariant
                i <= entries@.len(),
                total == saturated_count(total_decisions(entries@.take(i as int))),
            decreases entries@.len() - i,
        {
            proof { assert(entries@.take(i + 1).drop_last() =~= entries@.take(i as int)); }
            total = total.saturating_add(entries[i].1.len());
            i = i + 1;
        }
        proof { assert(entries@.take(i as int) =~= entries@); }
        ClientStateStats {
            active_clients: self.client_states.len(),
            total_decisions_stored: total,
            max_history_per_client: self.max_history_per_client,
        }
    }

    /// The tracked clients, oldest first.
    pub fn get_tracked_clients(&self) -> (r: Vec<u128>)
        ensures r@ == self.state_entries().map_values(|e: (u128, ClientState)| e.0),
    {
        self.client_states.client_ids()
    }

    /// The tracked clients whose intro has been showing for longer than
    /// `threshold` microseconds at `now`, oldest first.
    pub fn get_intro_stuck_clients(&self, threshold: u64, now: u64) -> (r: Vec<u128>)
        ensures r@ == stuck_clients(self.state_entries(), threshold, now),
    {
        let entries = self.client_states.as_vec();
        let mut r: Vec<u128> = Vec::new();
        let mut i: usize = 0;
        while i < entries.len()
            invariant
                i <= entries@.len(),
                r@ == stuck_clients(entries@.take(i as int), threshold, now),
            decreases entries@.len() - i,
        {
            proof { assert(entries@.take(i + 1).drop_last() =~= entries@.take(i as int)); }
            if entries[i].1.is_intro_stuck(threshold, now) {
                r.push(entries[i].0);
            }
            i = i + 1;
        }
        proof { assert(entries@.take(i as int) =~= entries@); }
        r
    }
}

/// The intro timer starts at the first intro frame and later intro frames
/// keep it; any other scene clears it.
pub proof fn lemma_intro_timer_kept(since: Option<u64>, scene: Scene, first: u64, later: u64)
    ensures
        intro_since_after(intro_since_after(since, Scene::Intro, first), Scene::Intro, later)
            == intro_since_after(since, Scene::Intro, first),
        scene != Scene::Intro ==> intro_since_after(since, scene, later) is None,
{
}

/// A client's decision history never grows beyond the manager's bound: a
/// new decision is appended, the oldest going when the bound is reached
/// (with a bound of 0 the history stays empty); the decision just added is
/// the newest one that `get_recent_decisions` hands out first.
pub proof fn lemma_decision_history_bounded(h: Seq<ActionDecision>, d: ActionDecision, max: nat)
    requires
        h.len() <= max,
    ensures
        bounded_push(h, d, max).len() <= max,
        h.len() < max ==> bounded_push(h, d, max) == h.push(d),
        0 < h.len() && h.len() == max ==> bounded_push(h, d, max) == h.drop_first().push(d),
        max == 0 ==> bounded_push(h, d, max).len() == 0,
        1 <= max ==> bounded_push(h, d, max).last() == d,
        1 <= max ==> newest_first(bounded_push(h, d, max), 1) == seq![d],
{
    assert(h.push(d).drop_first() =~= if h.len() > 0 { h.drop_first().push(d) } else { Seq::empty() });
    if 1 <= max {
        assert(newest_first(bounded_push(h, d, max), 1) =~= seq![d]);
    }
}

/// While the intro stays on screen and time does not go backwards, a later
/// read of how long it has shown is never smaller, and a client once stuck
/// in it stays stuck.
pub proof fn lemma_intro_duration_grows(since: Option<u64>, t1: u64, t2: u64, threshold: u64)
    requires
        t1 <= t2,
    ensures
        ({
            let s1 = intro_since_after(since, Scene::Intro, t1);
            let s2 = intro_since_after(s1, Scene::Intro, t2);
            &&& intro_duration(s1, t1) matches Some(d1)
            &&& intro_duration(s2, t2) matches Some(d2)
            &&& d1 <= d2
            &&& intro_stuck(s1, threshold, t1) ==> intro_stuck(s2, threshold, t2)
        }),
{
}

/// Recording an action at a time no earlier than the last update keeps the
/// update time from going backwards and the action count from falling.
pub proof fn lemma_action_update_moves_forward(before: ClientState, after: ClientState, now: u64)
    requires
        before.last_update <= now,
        after.last_update == now,
        after.total_actions_taken == (if before.total_actions_taken == u64::MAX { u64::MAX } else { (before.total_actions_taken + 1) as u64 }),
    ensures
        before.last_update <= after.last_update,
        before.total_actions_taken <= after.total_actions_taken,
        before.total_actions_taken < u64::MAX ==> after.total_actions_taken == before.total_actions_taken + 1,
{
}

} // verus!
