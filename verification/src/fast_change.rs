//! Cheap change detection per client: a rolling checksum of a few sampled
//! pixels of a 32 x 32 thumbnail, or the mean brightness of a 16 x 16 one,
//! compared with the value kept from the client's previous frame. The
//! change threshold is in thousandths of the brightness range.

use vstd::prelude::*;
use crate::client_table::ClientTable;
use crate::raster::{RgbBuffer, px_of, px, pixel_at, nearest_resized, resize_nearest, lemma_px_of};
use crate::sampling::sample_count;

verus! {

/// A raster given as (width, height, bytes).
pub open spec fn triple(img: RgbBuffer) -> (nat, nat, Seq<u8>) {
    (img.spec_width(), img.spec_height(), img.spec_bytes())
}

/// The raster shrunk with the nearest filter to fit `n` x `n`.
pub open spec fn shrunk(img: RgbBuffer, n: nat) -> (nat, nat, Seq<u8>) {
    nearest_resized(img.spec_width(), img.spec_height(), img.spec_bytes(), n, n)
}

/// A pixel's colour packed into 24 bits.
pub open spec fn pixel_hash(c: (u8, u8, u8)) -> u64 {
    (c.0 as int * 65536 + c.1 as int * 256 + c.2 as int) as u64
}

/// One step of the rolling checksum.
pub open spec fn mix(acc: u64, v: u64) -> u64 {
    acc.wrapping_mul(31).wrapping_add(v)
}

/// The checksum and pixel count after the first `j` samples (every
/// `rate`-th column) of row `y`.
pub open spec fn fold_row(t: (nat, nat, Seq<u8>), rate: nat, y: int, j: nat, s: (u64, nat)) -> (u64, nat)
    decreases j,
{
    if j == 0 {
        s
    } else {
        let p = fold_row(t, rate, y, (j - 1) as nat, s);
        match px_of(t, (j - 1) * rate, y) {
            Some(c) => (mix(p.0, pixel_hash(c)), p.1 + 1),
            None => p,
        }
    }
}

/// The checksum and pixel count after the first `k` sampled rows.
pub open spec fn fold_rows(t: (nat, nat, Seq<u8>), rate: nat, k: nat) -> (u64, nat)
    decreases k,
{
    if k == 0 {
        (0, 0)
    } else {
        fold_row(t, rate, (k - 1) * rate, sample_count(0, t.0 as int, rate as int), fold_rows(t, rate, (k - 1) as nat))
    }
}

/// The checksum of a raster sampled every `rate` pixels, closed with the
/// number of pixels sampled.
pub open spec fn fast_checksum(t: (nat, nat, Seq<u8>), rate: nat) -> u64 {
    let s = fold_rows(t, rate, sample_count(0, t.1 as int, rate as int));
    mix(s.0, s.1 as u64)
}

/// Channel sums and pixel count over the 8 x 8 samples (every second
/// pixel of the first 16 rows and columns) of the first `k` rows.
pub open spec fn bright_rows(t: (nat, nat, Seq<u8>), k: nat) -> (nat, nat)
    decreases k,
{
    if k == 0 {
        (0, 0)
    } else {
        let p = bright_rows(t, (k - 1) as nat);
        let r = bright_row(t, 2 * (k - 1), 8);
        (p.0 + r.0, p.1 + r.1)
    }
}

/// Channel sums and pixel count over the first `j` samples of row `y`.
pub open spec fn bright_row(t: (nat, nat, Seq<u8>), y: int, j: nat) -> (nat, nat)
    decreases j,
{
    if j == 0 {
        (0, 0)
    } else {
        let p = bright_row(t, y, (j - 1) as nat);
        match px_of(t, 2 * (j - 1), y) {
            Some(c) => (p.0 + c.0 as nat + c.1 as nat + c.2 as nat, p.1 + 1),
            None => p,
        }
    }
}

/// Mean brightness of the samples, rounded down at each division; 128
/// when none was sampled.
pub open spec fn mean_brightness(t: (nat, nat, Seq<u8>)) -> u8 {
    let s = bright_rows(t, 8);
    if s.1 > 0 { (s.0 / s.1 / 3) as u8 } else { 128 }
}

/// A brightness change above the threshold: `|b - last| / 255` exceeds
/// `threshold` thousandths.
pub open spec fn brightness_changed(b: u64, last: u64, threshold: u64) -> bool {
    let d = if b >= last { b - last } else { last - b };
    1000 * d > 255 * threshold
}

/// Counts kept about fast change detection.
#[derive(Clone, Copy, Debug, PartialEq, Eq, Structural)]
pub struct FastChangeDetectorStats {
    pub tracked_clients: usize,
    pub sample_rate: u32,
    /// In thousandths.
    pub change_threshold: u64,
}

/// Keeps, per client, the checksum or brightness of its previous frame.
pub struct FastImageChangeDetector {
    cached_checksums: ClientTable<u64>,
    change_threshold: u64,
    sample_rate: u32,
}

impl FastImageChangeDetector {
    #[verifier::type_invariant]
    closed spec fn inv(self) -> bool {
        self.sample_rate >= 1
    }

    /// The value kept for each client.
    pub closed spec fn cached(&self) -> Map<u128, u64> {
        self.cached_checksums@
    }

    pub closed spec fn client_count(&self) -> nat {
        self.cached_checksums.entries().len()
    }

    pub closed spec fn threshold(&self) -> u64 {
        self.change_threshold
    }

    pub closed spec fn rate(&self) -> u32 {
        self.sample_rate
    }

    /// Nothing cached; threshold 50 (5%); every 16th pixel.
    pub fn new() -> (r: FastImageChangeDetector)
        ensures
            r.cached() == Map::<u128, u64>::empty(),
            r.threshold() == 50,
            r.rate() == 16,
    {
        FastImageChangeDetector { cached_checksums: ClientTable::new(), change_threshold: 50, sample_rate: 16 }
    }

    /// The same detector with the threshold held to at most 1000.
    pub fn with_threshold(self, threshold: u64) -> (r: FastImageChangeDetector)
        ensures
            r.threshold() == (if threshold > 1000 { 1000 } else { threshold }),
            r.rate() == self.rate(),
            r.cached() == self.cached(),
    {
        proof { use_type_invariant(&self); }
        let t = if threshold > 1000 { 1000 } else { threshold };
        FastImageChangeDetector { change_threshold: t, ..self }
    }

    /// The same detector sampling every `rate`-th pixel (at least every
    /// pixel).
    pub fn with_sample_rate(self, rate: u32) -> (r: FastImageChangeDetector)
        ensures
            r.rate() == (if rate < 1 { 1 } else { rate }),
            r.threshold() == self.threshold(),
            r.cached() == self.cached(),
    {
        let r = if rate < 1 { 1 } else { rate };
        FastImageChangeDetector { sample_rate: r, ..self }
    }

    /// The checksum of the 32 x 32 thumbnail sampled every `rate` pixels.
    fn compute_fast_checksum(&self, image: &RgbBuffer) -> (r: u64)
        requires
        ensures r == fast_checksum(shrunk(*image, 32), self.rate() as nat),
    {
        proof { use_type_invariant(self); }
        let small = resize_nearest(image, 32, 32);
        let ghost t = shrunk(*image, 32);
        proof {
            lemma_px_of(small);
            crate::raster::lemma_dims_bounded(small);
        }
        let rate = self.sample_rate as u64;
        let w = small.width() as u64;
        let h = small.height() as u64;
        let mut checksum: u64 = 0;
        let mut count: u64 = 0;
        let mut k: u64 = 0;
        let mut y: u64 = 0;
        proof { crate::sampling::lemma_sample_count_bound(0, h as int, rate as int); }
        while y < h
            invariant
                rate >= 1, rate <= u32::MAX,
                w == t.0, h == t.1, w <= u32::MAX, h <= u32::MAX,
                t == triple(small),
                forall|x: int, yy: int| #[trigger] px(small, x, yy) == px_of(t, x, yy),
                y == k * rate,
                k <= y,
                y <= h + rate,
                k + sample_count(y as int, h as int, rate as int) == sample_count(0, h as int, rate as int),
                (checksum, count as nat) == fold_rows(t, rate as nat, k as nat),
                count <= k * 0x1_0000_0000,
                k <= h,
            decreases h + rate - y,
        {
            let ghost start = (checksum, count as nat);
            let mut x: u64 = 0;
            let mut j: u64 = 0;
            proof { crate::sampling::lemma_sample_count_bound(0, w as int, rate as int); }
            while x < w
                invariant
                    rate >= 1, rate <= u32::MAX,
                    w == t.0, h == t.1, w <= u32::MAX, h <= u32::MAX,
                    forall|x: int, yy: int| #[trigger] px(small, x, yy) == px_of(t, x, yy),
                    x == j * rate,
                    j <= x,
                    k <= y,
                    y < h,
                    x <= w + rate,
                    j + sample_count(x as int, w as int, rate as int) == sample_count(0, w as int, rate as int),
                    (checksum, count as nat) == fold_row(t, rate as nat, y as int, j as nat, start),
                    count <= start.1 + j,
                    start.1 <= k * 0x1_0000_0000,
                    j <= w,
                    k <= h,
                decreases w + rate - x,
            {
                match pixel_at(&small, x, y) {
                    Some(c) => {
                        let ph: u64 = c.0 as u64 * 65536 + c.1 as u64 * 256 + c.2 as u64;
                        checksum = checksum.wrapping_mul(31).wrapping_add(ph);
                        count = count + 1;
                    },
                    None => {},
                }
                proof {
                    crate::sampling::lemma_sample_count_bound(x as int, w as int, rate as int);
                    crate::sampling::lemma_sample_count_bound(0, w as int, rate as int);
                    assert((j + 1) * rate == j * rate + rate) by (nonlinear_arith);
                }
                x = x + rate;
                j = j + 1;
            }
            proof {
                assert(sample_count(x as int, w as int, rate as int) == 0);
                crate::sampling::lemma_sample_count_bound(y as int, h as int, rate as int);
                crate::sampling::lemma_sample_count_bound(0, h as int, rate as int);
                assert((k + 1) * rate == k * rate + rate) by (nonlinear_arith);
                assert(count <= (k + 1) * 0x1_0000_0000);
            }
            y = y + rate;
            k = k + 1;
        }
        proof { assert(sample_count(y as int, h as int, rate as int) == 0); }
        checksum.wrapping_mul(31).wrapping_add(count)
    }

    fn remember(&mut self, client_id: u128, v: u64)
        ensures
            final(self).cached() == old(self).cached().insert(client_id, v),
            final(self).threshold() == old(self).threshold(),
            final(self).rate() == old(self).rate(),
    {
        proof { use_type_invariant(&*self); }
        let mut t: ClientTable<u64> = ClientTable::new();
        std::mem::swap(&mut t, &mut self.cached_checksums);
        t.insert(client_id, v);
        std::mem::swap(&mut t, &mut self.cached_checksums);
    }

    /// Whether the thumbnail checksum differs from the client's previous
    /// one; the first frame of a client never counts as a change. The new
    /// checksum is kept.
    pub fn detect_change_fast(&mut self, client_id: u128, current_image: &RgbBuffer) -> (r: bool)
        requires
        ensures
            ({
                let c = fast_checksum(shrunk(*current_image, 32), old(self).rate() as nat);
                &&& r == (old(self).cached().contains_key(client_id) && old(self).cached()[client_id] != c)
                &&& final(self).cached() == old(self).cached().insert(client_id, c)
            }),
            final(self).threshold() == old(self).threshold(),
            final(self).rate() == old(self).rate(),
    {
        let current = self.compute_fast_checksum(current_image);
        let changed = match self.cached_checksums.get(client_id) {
            Some(last) => current != *last,
            None => false,
        };
        self.remember(client_id, current);
        changed
    }

    /// Mean brightness of the 16 x 16 thumbnail.
    fn compute_average_brightness(&self, image: &RgbBuffer) -> (r: u8)
        requires
        ensures r == mean_brightness(shrunk(*image, 16)),
    {
        let small = resize_nearest(image, 16, 16);
        let ghost t = shrunk(*image, 16);
        proof { lemma_px_of(small); }
        let mut total: u64 = 0;
        let mut count: u64 = 0;
        let mut k: u64 = 0;
        while k < 8
            invariant
                k <= 8,
                t == triple(small),
                forall|x: int, yy: int| #[trigger] px(small, x, yy) == px_of(t, x, yy),
                (total as nat, count as nat) == bright_rows(t, k as nat),
                total <= 765 * count,
                count <= 8 * k,
            decreases 8 - k,
        {
            let mut row_total: u64 = 0;
            let mut row_count: u64 = 0;
            let mut j: u64 = 0;
            while j < 8
                invariant
                    j <= 8, k < 8,
                    forall|x: int, yy: int| #[trigger] px(small, x, yy) == px_of(t, x, yy),
                    (row_total as nat, row_count as nat) == bright_row(t, 2 * k as int, j as nat),
                    row_total <= 765 * row_count,
                    row_count <= j,
                decreases 8 - j,
            {
                match pixel_at(&small, 2 * j, 2 * k) {
                    Some(c) => {
                        row_total = row_total + c.0 as u64 + c.1 as u64 + c.2 as u64;
                        row_count = row_count + 1;
                    },
                    None => {},
                }
                j = j + 1;
            }
            total = total + row_total;
            count = count + row_count;
            k = k + 1;
        }
        if count > 0 {
            proof {
                assert(total / count / 3 <= 255) by (nonlinear_arith)
                    requires total <= 765 * count, count > 0;
            }
            (total / count / 3) as u8
        } else {
            128
        }
    }

    /// Whether the thumbnail's mean brightness moved by more than the
    /// threshold from the client's previous value; the first frame of a
    /// client never counts as a change. The new brightness is kept (in the
    /// same store as the checksums).
    pub fn detect_change_brightness(&mut self, client_id: u128, current_image: &RgbBuffer) -> (r: bool)
        requires
        ensures
            ({
                let b = mean_brightness(shrunk(*current_image, 16)) as u64;
                &&& r == (old(self).cached().contains_key(client_id)
                    && brightness_changed(b, old(self).cached()[client_id], old(self).threshold()))
                &&& final(self).cached() == old(self).cached().insert(client_id, b)
            }),
            final(self).threshold() == old(self).threshold(),
            final(self).rate() == old(self).rate(),
    {
        let brightness = self.compute_average_brightness(current_image) as u64;
        let changed = match self.cached_checksums.get(client_id) {
            Some(last) => {
                let d = if brightness >= *last { brightness - *last } else { *last - brightness };
                (d as u128) * 1000 > 255 * (self.change_threshold as u128)
            },
            None => false,
        };
        self.remember(client_id, brightness);
        changed
    }

    /// Forgets a client.
    pub fn clear_client_data(&mut self, client_id: u128)
        ensures
            final(self).cached() == old(self).cached().remove(client_id),
            final(self).threshold() == old(self).threshold(),
            final(self).rate() == old(self).rate(),
    {
        proof { use_type_invariant(&*self); }
        let mut t: ClientTable<u64> = ClientTable::new();
        std::mem::swap(&mut t, &mut self.cached_checksums);
        let _ = t.remove(client_id);
        std::mem::swap(&mut t, &mut self.cached_checksums);
    }

    /// Forgets every client.
    pub fn clear_all_caches(&mut self)
        ensures
            final(self).cached() == Map::<u128, u64>::empty(),
            final(self).threshold() == old(self).threshold(),
            final(self).rate() == old(self).rate(),
    {
        proof { use_type_invariant(&*self); }
        let mut t: ClientTable<u64> = ClientTable::new();
        std::mem::swap(&mut t, &mut self.cached_checksums);
        proof { assert(self.cached() =~= Map::<u128, u64>::empty()); }
    }

    /// Clients tracked, sampling rate and threshold.
    pub fn get_performance_stats(&self) -> (r: FastChangeDetectorStats)
        ensures
            r.tracked_clients == self.client_count(),
            r.sample_rate == self.rate(),
            r.change_threshold == self.threshold(),
    {
        FastChangeDetectorStats {
            tracked_clients: self.cached_checksums.len(),
            sample_rate: self.sample_rate,
            change_threshold: self.change_threshold,
        }
    }
}

/// A frame identical to the client's previous one is never a change: the
/// checksum kept is the one the repeated frame produces.
pub proof fn lemma_repeat_frame_no_change(cached: Map<u128, u64>, client_id: u128, img: RgbBuffer, rate: nat)
    ensures
        ({
            let c = fast_checksum(shrunk(img, 32), rate);
            let after = cached.insert(client_id, c);
            !(after.contains_key(client_id) && after[client_id] != c)
        }),
{
}

} // verus!
