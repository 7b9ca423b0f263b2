//! A bounded recording buffer that keeps the most recent samples of a stream
//! and remembers the absolute stream position of its oldest sample.
use vstd::prelude::*;

verus! {

/// The abstract state of a [`RingBuffer`]: the retained samples `window`,
/// the absolute stream position `start` of `window[0]`, and the `capacity`.
pub struct RingView<T> {
    pub start: nat,
    pub window: Seq<T>,
    pub capacity: nat,
}

/// Keeps at most `capacity` of the latest samples pushed into it.
/// Samples are addressed by their absolute position in the stream of all
/// samples ever pushed: position `p` lives at `window[p - start]`.
pub struct RingBuffer<T> {
    data: Vec<T>,
    start_pos: u64,
    capacity: usize,
}

/// The window after appending `samples` to `window` and dropping the oldest
/// samples beyond `capacity`.
pub open spec fn pushed_window<T>(window: Seq<T>, samples: Seq<T>, capacity: nat) -> Seq<T> {
    let all = window + samples;
    if all.len() > capacity {
        all.subrange(all.len() - capacity, all.len() as int)
    } else {
        all
    }
}

/// How many samples fall off the front when `samples` are appended.
pub open spec fn dropped_count<T>(window: Seq<T>, samples: Seq<T>, capacity: nat) -> nat {
    let all_len = window.len() + samples.len();
    if all_len > capacity {
        (all_len - capacity) as nat
    } else {
        0
    }
}

/// The state after `push_samples(samples)` on a buffer in state `v`.
pub open spec fn push_view<T>(v: RingView<T>, samples: Seq<T>) -> RingView<T> {
    RingView {
        start: v.start + dropped_count(v.window, samples, v.capacity),
        window: pushed_window(v.window, samples, v.capacity),
        capacity: v.capacity,
    }
}

/// The absolute position one past the newest sample of `v`.
pub open spec fn end_of<T>(v: RingView<T>) -> nat {
    v.start + v.window.len()
}

/// The samples that `read_range(from, len)` hands out: those retained at
/// positions `max(from, start)` onward, at most `len` of them.
pub open spec fn range_of<T>(v: RingView<T>, from: nat, len: nat) -> Seq<T> {
    let end = v.start + v.window.len();
    if from >= end {
        Seq::empty()
    } else {
        let offset: int = if from < v.start { 0 } else { from - v.start };
        let available: int = v.window.len() - offset;
        let count: int = if len < available { len as int } else { available };
        v.window.subrange(offset, offset + count)
    }
}

impl<T> RingBuffer<T> {
    pub closed spec fn view(&self) -> RingView<T> {
        RingView { start: self.start_pos as nat, window: self.data@, capacity: self.capacity as nat }
    }

    #[verifier::type_invariant]
    closed spec fn inv(&self) -> bool {
        &&& self.data@.len() <= self.capacity
        &&& self.start_pos + self.data@.len() <= u64::MAX
    }

    /// Total number of samples ever pushed (the position one past the newest).
    pub open spec fn written(&self) -> nat {
        end_of(self.view())
    }

    /// An empty buffer that will retain up to `capacity` samples.
    pub fn new(capacity: usize) -> (r: Self)
        ensures
            r.view() == (RingView::<T> { start: 0, window: Seq::empty(), capacity: capacity as nat }),
            r.view().window.len() <= r.view().capacity,
    {
        RingBuffer { data: Vec::with_capacity(capacity), start_pos: 0, capacity }
    }

    /// Appends `samples`; the oldest samples beyond the capacity are dropped
    /// and the start position advances past them.
    pub fn push_samples(&mut self, samples: &[T])
        where T: Copy,
        requires
            old(self).written() + samples@.len() <= u64::MAX,
        ensures
            final(self).view() == push_view(old(self).view(), samples@),
            final(self).written() == old(self).written() + samples@.len(),
            final(self).view().window.len() <= final(self).view().capacity,
    {
        proof {
            use_type_invariant(&*self);
        }
        let ghost all = self.data@ + samples@;
        let mut combined: Vec<T> = Vec::new();
        let mut i: usize = 0;
        while i < self.data.len()
            invariant
                i <= self.data@.len(),
                combined@ == self.data@.subrange(0, i as int),
            decreases self.data@.len() - i,
        {
            combined.push(self.data[i]);
            i = i + 1;
        }
        let mut j: usize = 0;
        while j < samples.len()
            invariant
                i == self.data@.len(),
                j <= samples@.len(),
                combined@ == self.data@ + samples@.subrange(0, j as int),
                self.data@.len() <= self.capacity,
                self.start_pos + self.data@.len() + samples@.len() <= u64::MAX,
            decreases samples@.len() - j,
        {
            combined.push(samples[j]);
            j = j + 1;
        }
        assert(combined@ =~= all);
        if combined.len() > self.capacity {
            let excess: usize = combined.len() - self.capacity;
            let mut kept: Vec<T> = Vec::with_capacity(self.capacity);
            let mut k: usize = excess;
            while k < combined.len()
                invariant
                    excess <= k <= combined@.len(),
                    kept@ == combined@.subrange(excess as int, k as int),
                decreases combined@.len() - k,
            {
                kept.push(combined[k]);
                k = k + 1;
            }
            assert(kept@ =~= all.subrange(all.len() - self.capacity, all.len() as int));
            self.data = kept;
            self.start_pos = self.start_pos + excess as u64;
        } else {
            self.data = combined;
        }
    }

    /// The number of samples ever pushed.
    pub fn total_written(&self) -> (r: u64)
        ensures
            r == self.written(),
    {
        proof {
            use_type_invariant(self);
        }
        self.start_pos + self.data.len() as u64
    }

    /// Copies out up to `len` retained samples starting at absolute position
    /// `from`; a position older than the oldest retained sample reads from
    /// the oldest retained one, and a position at or past the newest gives
    /// an empty result.
    pub fn read_range(&self, from_pos: u64, len: usize) -> (r: Vec<T>)
        where T: Copy,
        ensures
            r@ == range_of(self.view(), from_pos as nat, len as nat),
    {
        proof {
            use_type_invariant(self);
        }
        let end: u64 = self.start_pos + self.data.len() as u64;
        if from_pos >= end {
            return Vec::new();
        }
        let offset: usize = if from_pos < self.start_pos {
            0
        } else {
            (from_pos - self.start_pos) as usize
        };
        let available: usize = self.data.len() - offset;
        let count: usize = if len < available { len } else { available };
        let mut out: Vec<T> = Vec::with_capacity(count);
        let stop: usize = offset + count;
        let mut i: usize = offset;
        while i < stop
            invariant
                stop == offset + count,
                stop <= self.data@.len(),
                offset <= i <= stop,
                out@ == self.data@.subrange(offset as int, i as int),
            decreases stop - i,
        {
            out.push(self.data[i]);
            i = i + 1;
        }
        out
    }
}

/// Writing and reading back: right after `samples` are pushed, reading
/// `samples.len()` samples from the position where the push began gives
/// exactly `samples`, provided they fit in the buffer.
pub proof fn lemma_read_back_after_push<T>(v: RingView<T>, samples: Seq<T>)
    requires
        v.window.len() <= v.capacity,
        samples.len() <= v.capacity,
    ensures
        range_of(push_view(v, samples), end_of(v), samples.len()) =~= samples,
{
    let w = v.window;
    let all = w + samples;
    let after = push_view(v, samples);
    assert(end_of(after) == end_of(v) + samples.len());
    if all.len() > v.capacity {
        let cut = all.len() - v.capacity;
        assert(after.start == v.start + cut);
        assert(end_of(v) >= after.start);
        let offset = end_of(v) - after.start;
        assert(offset == w.len() - cut);
        assert forall|i: int| 0 <= i < samples.len() implies #[trigger] after.window[offset + i]
            == samples[i] by {
            assert(after.window[offset + i] == all[cut + offset + i]);
        }
    } else {
        assert(after.window =~= all);
    }
    if samples.len() == 0 {
        assert(range_of(after, end_of(v), 0) =~= Seq::<T>::empty());
    }
}

/// Pushing never moves or alters a retained sample: a position retained both
/// before and after a push holds the same sample, the start position never
/// goes back, and the end position moves forward by the number of samples.
pub proof fn lemma_push_keeps_positions<T>(v: RingView<T>, samples: Seq<T>, p: nat)
    requires
        v.window.len() <= v.capacity,
        v.start <= p < end_of(v),
        push_view(v, samples).start <= p,
    ensures
        push_view(v, samples).start >= v.start,
        end_of(push_view(v, samples)) == end_of(v) + samples.len(),
        push_view(v, samples).window[p - push_view(v, samples).start] == v.window[p - v.start],
{
    let all = v.window + samples;
    let after = push_view(v, samples);
    if all.len() > v.capacity {
        let cut = all.len() - v.capacity;
        assert(after.window[p - after.start] == all[cut + (p - after.start)]);
    }
}

/// A push keeps exactly the most recent samples: the new window is the tail
/// of the old window followed by the pushed samples, as long as the capacity
/// or everything there is, whichever is shorter; only samples beyond the
/// capacity are dropped, and the start position moves past exactly those.
pub proof fn lemma_push_keeps_latest<T>(v: RingView<T>, samples: Seq<T>)
    requires
        v.window.len() <= v.capacity,
    ensures
        ({
            let all = v.window + samples;
            let after = push_view(v, samples);
            let kept: nat = if all.len() <= v.capacity { all.len() } else { v.capacity };
            &&& after.window.len() == kept
            &&& after.window =~= all.subrange(all.len() - kept, all.len() as int)
            &&& after.start == v.start + (all.len() - kept)
            &&& after.capacity == v.capacity
        }),
{
}

/// A read hands out consecutive retained samples: sample `k` of the result is
/// the one at absolute position `max(from, start) + k`, and the result holds
/// `len` samples or all retained ones from that position on, whichever is
/// fewer (none when `from` is at or past the newest).
pub proof fn lemma_read_positions<T>(v: RingView<T>, from: nat, len: nat)
    ensures
        ({
            let first: nat = if from < v.start { v.start } else { from };
            let end = v.start + v.window.len();
            let r = range_of(v, from, len);
            &&& from >= end ==> r.len() == 0
            &&& from < end ==> r.len() == (if len <= end - first { len } else { (end - first) as nat })
            &&& forall|k: int| 0 <= k < r.len() ==> #[trigger] r[k] == v.window[first + k - v.start]
        }),
{
}

} // verus!
