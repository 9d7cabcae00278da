//! Whether the picture of a client changed: perceptual hashes of 64 x 64
//! thumbnails of consecutive frames, compared bit by bit, with the median
//! of the last few distances held against a threshold.

use vstd::prelude::*;
use vstd::relations::{sorted_by, total_ordering};
use crate::client_table::ClientTable;
use crate::raster::{RgbBuffer, nearest_resized, perceptual_hash_bits, resize_nearest, perceptual_hash};

verus! {

broadcast use vstd::seq_lib::group_to_multiset_ensures;

/// The order by which distances are sorted.
pub open spec fn dist_leq() -> spec_fn(u64, u64) -> bool {
    |x: u64, y: u64| x <= y
}

/// The median of a non-empty window: the middle element, rounding up, of
/// its values in ascending order.
pub open spec fn median(s: Seq<u64>) -> u64 {
    s.sort_by(dist_leq())[(s.len() / 2) as int]
}

/// Number of positions below `n` at which `a` and `b` differ.
pub open spec fn differing(a: Seq<bool>, b: Seq<bool>, n: nat) -> nat
    decreases n,
{
    if n == 0 {
        0
    } else {
        differing(a, b, (n - 1) as nat) + if a[n - 1] != b[n - 1] { 1nat } else { 0nat }
    }
}

/// The Hamming distance of two hashes; `None` when their lengths differ.
pub open spec fn hamming(a: Seq<bool>, b: Seq<bool>) -> Option<nat> {
    if a.len() != b.len() { None } else { Some(differing(a, b, a.len())) }
}

/// The distance between the hashes of two thumbnails as the change
/// detector counts it: a failed hash or a shape mismatch counts as 0.
pub open spec fn hash_distance(prev: Option<Seq<bool>>, cur: Option<Seq<bool>>) -> nat {
    match (prev, cur) {
        (Some(a), Some(b)) => match hamming(a, b) { Some(d) => d, None => 0 },
        _ => 0,
    }
}

/// The 64 x 64 thumbnail of a raster, as a (width, height, bytes) triple.
pub open spec fn thumb_of(img: RgbBuffer) -> (nat, nat, Seq<u8>) {
    nearest_resized(img.spec_width(), img.spec_height(), img.spec_bytes(), 64, 64)
}

/// The raster shrunk to fit 64 x 64 pixels.
pub fn thumbnail(img: &RgbBuffer) -> (r: RgbBuffer)
    ensures (r.spec_width(), r.spec_height(), r.spec_bytes()) == thumb_of(*img),
{
    resize_nearest(img, 64, 64)
}

/// The hash of a raster given as a triple.
pub open spec fn hash_of(t: (nat, nat, Seq<u8>)) -> Option<Seq<bool>> {
    perceptual_hash_bits(t.0, t.1, t.2)
}

/// The window after a new distance: the oldest is dropped once the window
/// is full, and the new one is appended.
pub open spec fn push_window(h: Seq<u64>, d: u64, size: nat) -> Seq<u64> {
    if h.len() >= size && h.len() > 0 { h.drop_first().push(d) } else { h.push(d) }
}

proof fn lemma_dist_leq_total()
    ensures total_ordering(dist_leq()),
{
    assert(vstd::relations::reflexive(dist_leq()));
    assert(vstd::relations::antisymmetric(dist_leq()));
    assert(vstd::relations::transitive(dist_leq()));
    assert(vstd::relations::strongly_connected(dist_leq()));
}

/// The values of `v` in ascending order.
fn sorted_copy(v: &Vec<u64>) -> (r: Vec<u64>)
    ensures
        r@.to_multiset() == v@.to_multiset(),
        sorted_by(r@, dist_leq()),
        r@.len() == v@.len(),
{
    let mut r: Vec<u64> = Vec::new();
    let mut i: usize = 0;
    while i < v.len()
        invariant
            i <= v@.len(),
            r@.to_multiset() == v@.take(i as int).to_multiset(),
            r@.len() == i,
            sorted_by(r@, dist_leq()),
        decreases v@.len() - i,
    {
        let x = v[i];
        let mut j: usize = 0;
        while j < r.len() && r[j] <= x
            invariant
                j <= r@.len(),
                forall|k: int| 0 <= k < j ==> r@[k] <= x,
            decreases r@.len() - j,
        {
            j = j + 1;
        }
        let ghost old_r = r@;
        r.insert(j, x);
        proof {
            assert(r@ =~= old_r.insert(j as int, x));
            assert(forall|k: int| j <= k < old_r.len() ==> x < #[trigger] old_r[k]) by {
                assert forall|k: int| j <= k < old_r.len() implies x < #[trigger] old_r[k] by {
                    assert(j < old_r.len() ==> !(old_r[j as int] <= x));
                    if k > j {
                        assert(dist_leq()(old_r[j as int], old_r[k]));
                    }
                }
            }
            assert forall|a: int, b: int| 0 <= a < b < r@.len() implies #[trigger] dist_leq()(r@[a], r@[b]) by {
                if b < j {
                    assert(dist_leq()(old_r[a], old_r[b]));
                } else if b == j {
                } else if a < j {
                    assert(r@[b] == old_r[b - 1]);
                } else if a == j {
                    assert(r@[b] == old_r[b - 1]);
                } else {
                    assert(dist_leq()(old_r[a - 1], old_r[b - 1]));
                }
            }
            assert(v@.take(i + 1) =~= v@.take(i as int).push(x));
        }
        i = i + 1;
    }
    proof { assert(v@.take(v@.len() as int) =~= v@); }
    r
}

/// The median of a non-empty window.
pub fn median_of(v: &Vec<u64>) -> (r: u64)
    requires v@.len() > 0,
    ensures r == median(v@),
{
    let sorted = sorted_copy(v);
    proof {
        lemma_dist_leq_total();
        v@.lemma_sort_by_ensures(dist_leq());
        vstd::seq_lib::lemma_sorted_unique(sorted@, v@.sort_by(dist_leq()), dist_leq());
    }
    sorted[sorted.len() / 2]
}

/// The Hamming distance of two hashes; `None` when their lengths differ.
pub fn hamming_distance(a: &Vec<bool>, b: &Vec<bool>) -> (r: Option<u64>)
    ensures
        match hamming(a@, b@) {
            Some(d) => r matches Some(c) && c == d,
            None => r is None,
        },
{
    if a.len() != b.len() {
        return None;
    }
    let mut count: u64 = 0;
    let mut i: usize = 0;
    while i < a.len()
        invariant
            a@.len() == b@.len(),
            i <= a@.len(),
            count == differing(a@, b@, i as nat),
            count <= i,
        decreases a@.len() - i,
    {
        if a[i] != b[i] {
            count = count + 1;
        }
        i = i + 1;
    }
    Some(count)
}

/// The distance between the hashes of two thumbnails; a failed hash or a
/// shape mismatch counts as 0.
pub(crate) fn thumbnail_distance(prev: &RgbBuffer, cur: &RgbBuffer) -> (r: u64)
    ensures
        r == hash_distance(
            hash_of((prev.spec_width(), prev.spec_height(), prev.spec_bytes())),
            hash_of((cur.spec_width(), cur.spec_height(), cur.spec_bytes())),
        ),
{
    let a = perceptual_hash(prev);
    let b = perceptual_hash(cur);
    match (a, b) {
        (Some(x), Some(y)) => match hamming_distance(&x, &y) {
            Some(d) => d,
            None => 0,
        },
        _ => 0,
    }
}

/// Appends a distance to a window of the given size.
pub(crate) fn push_distance(h: &mut Vec<u64>, d: u64, size: usize)
    ensures final(h)@ == push_window(old(h)@, d, size as nat),
{
    if h.len() >= size && h.len() > 0 {
        h.remove(0);
    }
    h.push(d);
    proof {
        if old(h)@.len() >= size && old(h)@.len() > 0 {
            assert(old(h)@.drop_first() =~= old(h)@.remove(0));
        }
    }
}

/// Counts kept about change detection.
#[derive(Clone, Copy, Debug, PartialEq, Eq, Structural)]
pub struct ImageChangeStats {
    pub tracked_clients: usize,
    pub total_history_entries: usize,
    pub current_threshold: u64,
    pub history_window_size: usize,
}

/// Sum of the lengths of the windows in a list of entries.
pub open spec fn total_entries(e: Seq<(u128, Vec<u64>)>) -> nat
    decreases e.len(),
{
    if e.len() == 0 { 0 } else { total_entries(e.drop_last()) + e.last().1@.len() }
}

/// A count as a `usize`, stopping at the largest one.
pub open spec fn saturated(n: nat) -> usize {
    if n > usize::MAX { usize::MAX } else { n as usize }
}

/// Per client: the thumbnail of the last frame and the window of recent
/// hash distances. A client's picture counts as changed while the median
/// distance exceeds the threshold.
pub struct ImageChangeDetector {
    hash_distance_history: ClientTable<Vec<u64>>,
    cached_small_images: ClientTable<RgbBuffer>,
    change_threshold: u64,
    history_window_size: usize,
}

/// What a change check does for a client: the new thumbnail replaces the
/// old; where there was an old one, the distance between their hashes
/// enters the client's window, and the picture counts as changed when the
/// median of the window exceeds the threshold.
pub open spec fn change_outcome(
    histories: Map<u128, Seq<u64>>,
    thumbnails: Map<u128, (nat, nat, Seq<u8>)>,
    client: u128,
    thumb: (nat, nat, Seq<u8>),
    threshold: u64,
    size: nat,
) -> (bool, Map<u128, Seq<u64>>) {
    if thumbnails.contains_key(client) {
        let d = hash_distance(hash_of(thumbnails[client]), hash_of(thumb));
        let h = push_window(
            if histories.contains_key(client) { histories[client] } else { Seq::empty() },
            d as u64,
            size,
        );
        (median(h) > threshold, histories.insert(client, h))
    } else {
        (false, histories)
    }
}

impl ImageChangeDetector {
    /// The distance window of each client.
    pub closed spec fn histories(&self) -> Map<u128, Seq<u64>> {
        self.hash_distance_history@.map_values(|v: Vec<u64>| v@)
    }

    /// The thumbnail kept for each client.
    pub closed spec fn thumbnails(&self) -> Map<u128, (nat, nat, Seq<u8>)> {
        self.cached_small_images@.map_values(|b: RgbBuffer| (b.spec_width(), b.spec_height(), b.spec_bytes()))
    }

    pub closed spec fn threshold(&self) -> u64 {
        self.change_threshold
    }

    /// How many clients have a thumbnail.
    pub closed spec fn tracked_count(&self) -> nat {
        self.cached_small_images.entries().len()
    }

    /// How many distances all windows hold together.
    pub closed spec fn history_total(&self) -> nat {
        total_entries(self.hash_distance_history.entries())
    }

    pub closed spec fn window_size(&self) -> usize {
        self.history_window_size
    }

    /// Nothing tracked; threshold 5 over a window of 5.
    pub fn new() -> (r: ImageChangeDetector)
        ensures
            r.histories() == Map::<u128, Seq<u64>>::empty(),
            r.thumbnails() == Map::<u128, (nat, nat, Seq<u8>)>::empty(),
            r.threshold() == 5,
            r.window_size() == 5,
    {
        let r = ImageChangeDetector {
            hash_distance_history: ClientTable::new(),
            cached_small_images: ClientTable::new(),
            change_threshold: 5,
            history_window_size: 5,
        };
        proof {
            assert(r.histories() =~= Map::<u128, Seq<u64>>::empty());
            assert(r.thumbnails() =~= Map::<u128, (nat, nat, Seq<u8>)>::empty());
        }
        r
    }

    /// The same detector with another threshold.
    pub fn with_threshold(self, threshold: u64) -> (r: ImageChangeDetector)
        ensures
            r.threshold() == threshold,
            r.window_size() == self.window_size(),
            r.histories() == self.histories(),
            r.thumbnails() == self.thumbnails(),
    {
        ImageChangeDetector { change_threshold: threshold, ..self }
    }

    /// The same detector with another window size.
    pub fn with_history_window(self, window_size: usize) -> (r: ImageChangeDetector)
        ensures
            r.window_size() == window_size,
            r.threshold() == self.threshold(),
            r.histories() == self.histories(),
            r.thumbnails() == self.thumbnails(),
    {
        ImageChangeDetector { history_window_size: window_size, ..self }
    }

    /// Compares the thumbnail of a client's new frame with that of its
    /// previous one and keeps the new thumbnail. The first frame of a
    /// client never counts as a change.
    pub fn detect_change(&mut self, client_id: u128, current_image: &RgbBuffer) -> (r: bool)
        requires
        ensures
            ({
                let out = change_outcome(
                    old(self).histories(),
                    old(self).thumbnails(),
                    client_id,
                    thumb_of(*current_image),
                    old(self).threshold(),
                    old(self).window_size() as nat,
                );
                &&& r == out.0
                &&& final(self).histories() == out.1
            }),
            final(self).thumbnails() == old(self).thumbnails().insert(client_id, thumb_of(*current_image)),
            final(self).threshold() == old(self).threshold(),
            final(self).window_size() == old(self).window_size(),
    {
        let small_current = thumbnail(current_image);
        let changed = match self.cached_small_images.get(client_id) {
            Some(last_small) => {
                let distance = thumbnail_distance(last_small, &small_current);
                let mut history = match self.hash_distance_history.remove(client_id) {
                    Some(h) => h,
                    None => Vec::new(),
                };
                let ghost before = history@;
                push_distance(&mut history, distance, self.history_window_size);
                let median_distance = median_of(&history);
                let ghost after = history@;
                self.hash_distance_history.insert(client_id, history);
                proof {
                    assert(self.histories() =~= old(self).histories().insert(client_id, after));
                }
                median_distance > self.change_threshold
            },
            None => false,
        };
        self.cached_small_images.insert(client_id, small_current);
        proof {
            assert(self.thumbnails() =~= old(self).thumbnails().insert(client_id, thumb_of(*current_image)));
        }
        changed
    }

    /// The median of a client's window, if it has one.
    pub fn get_median_distance(&self, client_id: u128) -> (r: Option<u64>)
        ensures
            r == (if self.histories().contains_key(client_id) && self.histories()[client_id].len() > 0 {
                Some(median(self.histories()[client_id]))
            } else {
                None
            }),
    {
        match self.hash_distance_history.get(client_id) {
            Some(h) => if h.len() == 0 { None } else { Some(median_of(h)) },
            None => None,
        }
    }

    /// A copy of a client's window, oldest distance first.
    pub fn get_distance_history(&self, client_id: u128) -> (r: Option<Vec<u64>>)
        ensures
            match r {
                Some(v) => self.histories().contains_key(client_id) && v@ == self.histories()[client_id],
                None => !self.histories().contains_key(client_id),
            },
    {
        match self.hash_distance_history.get(client_id) {
            Some(h) => {
                let c = h.clone();
                proof { assert(c@ =~= h@); }
                Some(c)
            },
            None => None,
        }
    }

    /// Forgets a client.
    pub fn clear_client_data(&mut self, client_id: u128)
        ensures
            final(self).histories() == old(self).histories().remove(client_id),
            final(self).thumbnails() == old(self).thumbnails().remove(client_id),
            final(self).threshold() == old(self).threshold(),
            final(self).window_size() == old(self).window_size(),
    {
        let _ = self.hash_distance_history.remove(client_id);
        let _ = self.cached_small_images.remove(client_id);
        proof {
            assert(self.histories() =~= old(self).histories().remove(client_id));
            assert(self.thumbnails() =~= old(self).thumbnails().remove(client_id));
        }
    }

    /// The threshold the median is held against.
    pub fn get_threshold(&self) -> (r: u64)
        ensures r == self.threshold(),
    {
        self.change_threshold
    }

    /// Changes the threshold.
    pub fn set_threshold(&mut self, threshold: u64)
        ensures
            final(self).threshold() == threshold,
            final(self).window_size() == old(self).window_size(),
            final(self).histories() == old(self).histories(),
            final(self).thumbnails() == old(self).thumbnails(),
    {
        self.change_threshold = threshold;
    }

    /// Clients with a thumbnail, distances held in all windows, threshold
    /// and window size.
    pub fn get_stats(&self) -> (r: ImageChangeStats)
        ensures
            r.tracked_clients == self.tracked_count(),
            r.total_history_entries == saturated(self.history_total()),
            r.current_threshold == self.threshold(),
            r.history_window_size == self.window_size(),
    {
        let entries = self.hash_distance_history.as_vec();
        let mut total: usize = 0;
        let mut i: usize = 0;
        while i < entries.len()
            invariant
                i <= entries@.len(),
                total == saturated(total_entries(entries@.take(i as int))),
            decreases entries@.len() - i,
        {
            proof { assert(entries@.take(i + 1).drop_last() =~= entries@.take(i as int)); }
            let n = entries[i].1.len();
            total = total.saturating_add(n);
            i = i + 1;
        }
        proof { assert(entries@.take(i as int) =~= entries@); }
        ImageChangeStats {
            tracked_clients: self.cached_small_images.len(),
            total_history_entries: total,
            current_threshold: self.change_threshold,
            history_window_size: self.history_window_size,
        }
    }
}

/// A hash is at distance zero from itself, so a frame whose thumbnail
/// hashes as the previous one adds no distance.
pub proof fn lemma_same_hash_no_distance(h: Option<Seq<bool>>)
    ensures
        hash_distance(h, h) == 0,
{
    if let Some(a) = h {
        lemma_differing_self(a, a.len());
    }
}

proof fn lemma_differing_self(a: Seq<bool>, n: nat)
    ensures
        differing(a, a, n) == 0,
    decreases n,
{
    if n > 0 {
        lemma_differing_self(a, (n - 1) as nat);
    }
}

} // verus!
