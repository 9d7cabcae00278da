//! Learning samples: a bounded first-in first-out buffer of experiences
//! and the collector that fills it and decides when a training batch is
//! due. Rewards are in thousandths.

use vstd::prelude::*;
use crate::rewards::Experience;
use crate::types::same_frame;
use crate::random::{new_uuid, sample_positions, is_v4_id};

verus! {

/// Two experiences that agree field by field, frames compared by content
/// and predictions related by their `clone`.
pub open spec fn same_experience<P: Clone>(a: Experience<P>, b: Experience<P>) -> bool {
    &&& a.id == b.id
    &&& a.reward == b.reward
    &&& a.action == b.action
    &&& a.episode_id == b.episode_id
    &&& vstd::pervasive::cloned(b.prediction, a.prediction)
    &&& same_frame(a.frame, b.frame)
    &&& match (a.next_frame, b.next_frame) {
        (Some(x), Some(y)) => same_frame(x, y),
        (None, None) => true,
        _ => false,
    }
    &&& a.detailed_reward == b.detailed_reward
}

impl<P: Clone> Clone for Experience<P> {
    fn clone(&self) -> (r: Self)
        ensures same_experience(r, *self),
    {
        Experience {
            id: self.id,
            reward: self.reward,
            action: self.action,
            episode_id: self.episode_id,
            prediction: self.prediction.clone(),
            next_frame: match &self.next_frame {
                Some(f) => Some(f.clone()),
                None => None,
            },
            frame: self.frame.clone(),
            detailed_reward: self.detailed_reward,
        }
    }
}

/// `r` holds, position by position, copies of `s`.
pub open spec fn copies_of<P: Clone>(r: Seq<Experience<P>>, s: Seq<Experience<P>>) -> bool {
    r.len() == s.len() && forall|i: int| 0 <= i < r.len() ==> same_experience(#[trigger] r[i], s[i])
}

/// The experiences of `s` that belong to episode `id`, in order.
pub open spec fn of_episode<P>(s: Seq<Experience<P>>, id: u128) -> Seq<Experience<P>>
    decreases s.len(),
{
    if s.len() == 0 {
        Seq::empty()
    } else {
        let rest = of_episode(s.drop_last(), id);
        if s.last().episode_id == id { rest.push(s.last()) } else { rest }
    }
}

/// The last `n` items of `s`, newest first.
pub open spec fn latest<P>(s: Seq<Experience<P>>, n: nat) -> Seq<Experience<P>> {
    let k = if n < s.len() { n } else { s.len() };
    Seq::new(k, |i: int| s[s.len() - 1 - i])
}

/// The buffer after adding `e`: the oldest goes once it holds more than
/// `max`.
pub open spec fn fifo_push<P>(s: Seq<Experience<P>>, e: Experience<P>, max: nat) -> Seq<Experience<P>> {
    let t = s.push(e);
    if t.len() > max { t.drop_first() } else { t }
}

/// `a + b`, held within the range of `i128`.
pub open spec fn clamp_add(a: i128, b: i128) -> i128 {
    let s = a + b;
    if s > i128::MAX { i128::MAX } else if s < i128::MIN { i128::MIN } else { s as i128 }
}

/// The running sum of the rewards of `s`, each addition held within the
/// range of `i128`.
pub open spec fn reward_sum<P>(s: Seq<Experience<P>>) -> i128
    decreases s.len(),
{
    if s.len() == 0 { 0 } else { clamp_add(reward_sum(s.drop_last()), s.last().reward) }
}

/// Division rounding toward zero, for a positive divisor.
pub open spec fn div_toward_zero(x: int, d: int) -> int {
    if x >= 0 { x / d } else { -((-x) / d) }
}

/// The mean reward of `s` in thousandths, rounded toward zero; 0 for an
/// empty buffer.
pub open spec fn mean_reward<P>(s: Seq<Experience<P>>) -> int {
    if s.len() == 0 { 0 } else { div_toward_zero(reward_sum(s) as int, s.len() as int) }
}

fn add_clamped(a: i128, b: i128) -> (r: i128)
    ensures r == clamp_add(a, b),
{
    match a.checked_add(b) {
        Some(s) => s,
        None => if b > 0 { i128::MAX } else { i128::MIN },
    }
}

/// Experiences in arrival order, at most `max_size` of them, with the
/// identifier of the current episode.
pub struct ExperienceBuffer<P> {
    experiences: Vec<Experience<P>>,
    max_size: usize,
    current_episode_id: u128,
}

impl<P> ExperienceBuffer<P> {
    /// The buffered experiences, oldest first.
    pub closed spec fn items(&self) -> Seq<Experience<P>> {
        self.experiences@
    }

    pub closed spec fn max(&self) -> usize {
        self.max_size
    }

    pub closed spec fn episode(&self) -> u128 {
        self.current_episode_id
    }
}

impl<P: Clone> ExperienceBuffer<P> {
    /// An empty buffer holding up to `max_size` experiences, in a fresh
    /// episode.
    pub fn new(max_size: usize) -> (r: ExperienceBuffer<P>)
        ensures
            r.items().len() == 0,
            r.max() == max_size,
    {
        ExperienceBuffer { experiences: Vec::new(), max_size, current_episode_id: new_uuid() }
    }

    /// Appends an experience; the oldest one goes once the buffer holds
    /// more than its bound.
    pub fn add_experience(&mut self, experience: Experience<P>)
        ensures
            final(self).items() == fifo_push(old(self).items(), experience, old(self).max() as nat),
            final(self).max() == old(self).max(),
            final(self).episode() == old(self).episode(),
    {
        let ghost before = self.experiences@;
        self.experiences.push(experience);
        if self.experiences.len() > self.max_size {
            self.experiences.remove(0);
            proof { assert(before.push(experience).drop_first() =~= before.push(experience).remove(0)); }
        }
    }

    /// The buffered experiences, oldest first.
    pub fn experiences(&self) -> (r: &Vec<Experience<P>>)
        ensures r@ == self.items(),
    {
        &self.experiences
    }

    /// Starts a new episode with a fresh random (version-4) identifier.
    pub fn start_new_episode(&mut self)
        ensures
            final(self).items() == old(self).items(),
            final(self).max() == old(self).max(),
            is_v4_id(final(self).episode()),
    {
        self.current_episode_id = new_uuid();
    }

    /// Copies of the experiences of an episode, in arrival order.
    pub fn get_episode_experiences(&self, episode_id: u128) -> (r: Vec<Experience<P>>)
        ensures copies_of(r@, of_episode(self.items(), episode_id)),
    {
        let mut r: Vec<Experience<P>> = Vec::new();
        let mut i: usize = 0;
        while i < self.experiences.len()
            invariant
                i <= self.experiences@.len(),
                copies_of(r@, of_episode(self.experiences@.take(i as int), episode_id)),
            decreases self.experiences@.len() - i,
        {
            proof { assert(self.experiences@.take(i + 1).drop_last() =~= self.experiences@.take(i as int)); }
            if self.experiences[i].episode_id == episode_id {
                r.push(self.experiences[i].clone());
            }
            i = i + 1;
        }
        proof { assert(self.experiences@.take(i as int) =~= self.experiences@); }
        r
    }

    /// Copies of the experiences of the current episode.
    pub fn get_current_episode_experiences(&self) -> (r: Vec<Experience<P>>)
        ensures copies_of(r@, of_episode(self.items(), self.episode())),
    {
        self.get_episode_experiences(self.current_episode_id)
    }

    /// Copies of up to `n` of the latest experiences, newest first.
    pub fn get_recent_experiences(&self, n: usize) -> (r: Vec<Experience<P>>)
        ensures copies_of(r@, latest(self.items(), n as nat)),
    {
        let len = self.experiences.len();
        let k = if n < len { n } else { len };
        let mut r: Vec<Experience<P>> = Vec::new();
        let mut i: usize = 0;
        while i < k
            invariant
                len == self.experiences@.len(),
                k == (if n < len { n } else { len }),
                i <= k,
                copies_of(r@, latest(self.experiences@, i as nat)),
            decreases k - i,
        {
            r.push(self.experiences[len - 1 - i].clone());
            i = i + 1;
            proof {
                let l = latest(self.experiences@, i as nat);
                assert forall|j: int| 0 <= j < r@.len() implies same_experience(#[trigger] r@[j], l[j]) by {
                    if j < i - 1 {
                        assert(l[j] == latest(self.experiences@, (i - 1) as nat)[j]);
                    }
                }
            }
        }
        r
    }

    /// Copies of up to `batch_size` distinct experiences chosen at random
    /// (all of them when there are fewer).
    pub fn get_training_batch(&self, batch_size: usize) -> (r: Vec<Experience<P>>)
        ensures
            r@.len() == (if batch_size < self.items().len() { batch_size as nat } else { self.items().len() }),
            exists|pos: Seq<usize>| {
                &&& pos.len() == r@.len()
                &&& pos.no_duplicates()
                &&& forall|i: int| 0 <= i < pos.len() ==> #[trigger] pos[i] < self.items().len()
                    && same_experience(r@[i], self.items()[pos[i] as int])
            },
    {
        let positions = sample_positions(self.experiences.len(), batch_size);
        let mut r: Vec<Experience<P>> = Vec::new();
        let mut i: usize = 0;
        while i < positions.len()
            invariant
                i <= positions@.len(),
                r@.len() == i,
                forall|j: int| 0 <= j < positions@.len() ==> #[trigger] positions@[j] < self.experiences@.len(),
                forall|j: int| 0 <= j < i ==> same_experience(#[trigger] r@[j], self.experiences@[positions@[j] as int]),
            decreases positions@.len() - i,
        {
            let p = positions[i];
            r.push(self.experiences[p].clone());
            i = i + 1;
        }
        proof {
            assert(forall|i: int| 0 <= i < positions@.len() ==> #[trigger] positions@[i] < self.experiences@.len()
                && same_experience(r@[i], self.experiences@[positions@[i] as int]));
        }
        r
    }

    /// The mean reward in thousandths, rounded toward zero (the running
    /// sum held within `i128`); 0 for an empty buffer.
    pub fn average_reward(&self) -> (r: i128)
        ensures r == mean_reward(self.items()),
    {
        let n = self.experiences.len();
        if n == 0 {
            return 0;
        }
        let mut total: i128 = 0;
        let mut i: usize = 0;
        while i < n
            invariant
                n == self.experiences@.len(),
                i <= n,
                total == reward_sum(self.experiences@.take(i as int)),
            decreases n - i,
        {
            proof { assert(self.experiences@.take(i + 1).drop_last() =~= self.experiences@.take(i as int)); }
            total = add_clamped(total, self.experiences[i].reward);
            i = i + 1;
        }
        proof { assert(self.experiences@.take(n as int) =~= self.experiences@); }
        let d = n as i128;
        match total.checked_div(d) {
            Some(q) => q,
            None => 0,
        }
    }
}

/// Counts kept by the collector; the average reward is in thousandths.
#[derive(Clone, Copy, Debug, PartialEq, Eq, Structural)]
pub struct ExperienceStats {
    pub total_experience_count: usize,
    pub total_episode_count: usize,
    pub buffer_size: usize,
    pub average_reward: i128,
}

/// Each item of `b` copies a different item of `items`: a sample drawn
/// from `items` without repetition.
pub open spec fn drawn_from<P: Clone>(b: Seq<Experience<P>>, items: Seq<Experience<P>>) -> bool {
    exists|pos: Seq<usize>| {
        &&& pos.len() == b.len()
        &&& pos.no_duplicates()
        &&& forall|i: int| 0 <= i < pos.len() ==> #[trigger] pos[i] < items.len()
            && same_experience(b[i], items[pos[i] as int])
    }
}

/// A training batch is due when the buffer holds at least 32 experiences
/// and a multiple of 16.
pub open spec fn batch_due(buffer_len: nat) -> bool {
    buffer_len >= 32 && buffer_len % 16 == 0
}

/// Fills the buffer and says when a training batch of up to 100 randomly
/// chosen experiences is due; sending it is left to the caller.
pub struct ExperienceCollector<P> {
    buffer: ExperienceBuffer<P>,
    total_experience_count: usize,
    total_episode_count: usize,
}

impl<P> ExperienceCollector<P> {
    /// The buffer being filled.
    pub closed spec fn buf(&self) -> ExperienceBuffer<P> {
        self.buffer
    }

    pub closed spec fn experience_count(&self) -> usize {
        self.total_experience_count
    }

    pub closed spec fn episode_count(&self) -> usize {
        self.total_episode_count
    }
}

impl<P: Clone> ExperienceCollector<P> {
    /// An empty collector whose buffer holds up to `max_size` experiences.
    pub fn new(max_size: usize) -> (r: ExperienceCollector<P>)
        ensures
            r.buf().items().len() == 0,
            r.buf().max() == max_size,
            r.experience_count() == 0,
            r.episode_count() == 0,
    {
        ExperienceCollector { buffer: ExperienceBuffer::new(max_size), total_experience_count: 0, total_episode_count: 0 }
    }

    /// Counts and buffers an experience; returns the training batch when
    /// one is due.
    pub fn collect_experience(&mut self, experience: Experience<P>) -> (r: Option<Vec<Experience<P>>>)
        ensures
            final(self).buf().items() == fifo_push(old(self).buf().items(), experience, old(self).buf().max() as nat),
            final(self).buf().max() == old(self).buf().max(),
            final(self).buf().episode() == old(self).buf().episode(),
            final(self).experience_count() == (if old(self).experience_count() == usize::MAX { usize::MAX } else { (old(self).experience_count() + 1) as usize }),
            final(self).episode_count() == old(self).episode_count(),
            r is Some <==> batch_due(final(self).buf().items().len()),
            r matches Some(b) ==> b@.len() == (if 100 < final(self).buf().items().len() { 100 } else { final(self).buf().items().len() }),
            r matches Some(b) ==> drawn_from(b@, final(self).buf().items()),
    {
        self.total_experience_count = self.total_experience_count.saturating_add(1);
        self.buffer.add_experience(experience);
        if self.should_send_training_batch() {
            Some(self.buffer.get_training_batch(100))
        } else {
            None
        }
    }

    fn should_send_training_batch(&self) -> (r: bool)
        ensures r == batch_due(self.buf().items().len()),
    {
        let buffer_size = self.buffer.experiences.len();
        buffer_size >= 32 && buffer_size % 16 == 0
    }

    /// The buffer being filled.
    pub fn buffer(&self) -> (r: &ExperienceBuffer<P>)
        ensures *r == self.buf(),
    {
        &self.buffer
    }

    /// Starts a new episode and counts it.
    pub fn start_new_episode(&mut self)
        ensures
            final(self).buf().items() == old(self).buf().items(),
            final(self).buf().max() == old(self).buf().max(),
            final(self).experience_count() == old(self).experience_count(),
            final(self).episode_count() == (if old(self).episode_count() == usize::MAX { usize::MAX } else { (old(self).episode_count() + 1) as usize }),
    {
        self.buffer.start_new_episode();
        self.total_episode_count = self.total_episode_count.saturating_add(1);
    }

    /// The counters, the buffer size and the mean reward.
    pub fn get_stats(&self) -> (r: ExperienceStats)
        ensures
            r.total_experience_count == self.experience_count(),
            r.total_episode_count == self.episode_count(),
            r.buffer_size == self.buf().items().len(),
            r.average_reward == mean_reward(self.buf().items()),
    {
        ExperienceStats {
            total_experience_count: self.total_experience_count,
            total_episode_count: self.total_episode_count,
            buffer_size: self.buffer.experiences.len(),
            average_reward: self.buffer.average_reward(),
        }
    }
}

/// A buffer at or under its bound stays so after an experience is added,
/// and the newest experience is kept.
pub proof fn lemma_fifo_bounded<P>(s: Seq<Experience<P>>, e: Experience<P>, max: nat)
    requires
        max >= 1,
        s.len() <= max,
    ensures
        fifo_push(s, e, max).len() <= max,
        fifo_push(s, e, max).last() == e,
{
}

} // verus!
