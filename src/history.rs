//! The bounded history of resource samples and the sampling schedule.

use vstd::prelude::*;
use std::collections::VecDeque;

verus! {

/// The last `capacity` elements of `s` (all of them if there are fewer).
pub open spec fn keep_last<T>(s: Seq<T>, capacity: nat) -> Seq<T> {
    if s.len() <= capacity {
        s
    } else {
        s.subrange(s.len() - capacity, s.len() as int)
    }
}

/// The samples a history of `capacity` holds after it held `s` and
/// `sample` arrived: the oldest are evicted first.
pub open spec fn spec_push<T>(s: Seq<T>, capacity: nat, sample: T) -> Seq<T> {
    keep_last(s.push(sample), capacity)
}

/// The samples a history of `capacity` holds after it held `s` and the
/// samples of `arrivals` arrived, in order.
pub open spec fn push_all<T>(s: Seq<T>, capacity: nat, arrivals: Seq<T>) -> Seq<T>
    decreases arrivals.len(),
{
    if arrivals.len() == 0 {
        s
    } else {
        spec_push(push_all(s, capacity, arrivals.drop_last()), capacity, arrivals.last())
    }
}

/// A history as a value: its capacity and its samples, oldest first.
pub struct HistoryView<T> {
    pub capacity: nat,
    pub samples: Seq<T>,
}

/// A bounded first-in first-out history. It never holds more than its
/// capacity; when full, the oldest sample makes room for the newest.
#[derive(Debug)]
pub struct History<T> {
    capacity: usize,
    samples: VecDeque<T>,
}

impl<T> View for History<T> {
    type V = HistoryView<T>;

    closed spec fn view(&self) -> HistoryView<T> {
        HistoryView { capacity: self.capacity as nat, samples: self.samples@ }
    }
}

impl<T> History<T> {
    #[verifier::type_invariant]
    closed spec fn within_capacity(&self) -> bool {
        self.samples@.len() <= self.capacity
    }

    /// An empty history holding at most `capacity` samples.
    pub fn new(capacity: usize) -> (r: History<T>)
        ensures
            r@.capacity == capacity,
            r@.samples.len() == 0,
    {
        History { capacity, samples: VecDeque::new() }
    }

    /// The number of samples held; never more than the capacity.
    pub fn len(&self) -> (r: usize)
        ensures
            r == self@.samples.len(),
            r <= self@.capacity,
    {
        proof {
            use_type_invariant(self);
        }
        self.samples.len()
    }

    /// Whether no sample is held.
    pub fn is_empty(&self) -> (r: bool)
        ensures
            r == (self@.samples.len() == 0),
    {
        self.samples.len() == 0
    }

    /// The most samples held at once.
    pub fn capacity(&self) -> (r: usize)
        ensures
            r == self@.capacity,
    {
        self.capacity
    }

    /// The samples held, oldest first.
    pub fn samples(&self) -> (r: &VecDeque<T>)
        ensures
            r@ == self@.samples,
    {
        &self.samples
    }

    /// Drops the oldest samples until at most `capacity` are left.
    fn trim(samples: &mut VecDeque<T>, capacity: usize)
        ensures
            final(samples)@ == keep_last(old(samples)@, capacity as nat),
    {
        let ghost full = samples@;
        let ghost mut dropped: int = 0;
        while samples.len() > capacity
            invariant
                0 <= dropped <= full.len(),
                samples@ == full.subrange(dropped, full.len() as int),
                dropped > 0 ==> full.len() - dropped >= capacity,
            decreases samples@.len(),
        {
            samples.pop_front();
            proof {
                dropped = dropped + 1;
            }
        }
        proof {
            if dropped == 0 {
                assert(samples@ =~= full);
            }
        }
    }

    /// Appends `sample` as the newest, evicting the oldest if the history
    /// would exceed its capacity.
    pub fn push(&mut self, sample: T)
        ensures
            final(self)@.capacity == old(self)@.capacity,
            final(self)@.samples == spec_push(old(self)@.samples, old(self)@.capacity, sample),
    {
        let capacity = self.capacity;
        let mut samples: VecDeque<T> = VecDeque::new();
        std::mem::swap(&mut samples, &mut self.samples);
        samples.push_back(sample);
        History::<T>::trim(&mut samples, capacity);
        self.samples = samples;
    }

    /// Sets the capacity to `capacity`, evicting the oldest samples beyond
    /// it.
    pub fn set_capacity(&mut self, capacity: usize)
        ensures
            final(self)@.capacity == capacity,
            final(self)@.samples == keep_last(old(self)@.samples, capacity as nat),
    {
        proof {
            use_type_invariant(&*self);
        }
        let mut samples: VecDeque<T> = VecDeque::new();
        std::mem::swap(&mut samples, &mut self.samples);
        History::<T>::trim(&mut samples, capacity);
        self.samples = samples;
        self.capacity = capacity;
    }

    /// Drops every sample.
    pub fn clear(&mut self)
        ensures
            final(self)@.capacity == old(self)@.capacity,
            final(self)@.samples.len() == 0,
    {
        self.samples = VecDeque::new();
    }
}

impl<T: Clone> History<T> {
    /// Copies of the samples held, oldest first.
    pub fn to_vec(&self) -> (r: Vec<T>)
        ensures
            r@.len() == self@.samples.len(),
            forall|i: int| 0 <= i < r@.len() ==> cloned::<T>(self@.samples[i], #[trigger] r@[i]),
    {
        let mut out: Vec<T> = Vec::new();
        let mut i: usize = 0;
        while i < self.samples.len()
            invariant
                i <= self.samples@.len(),
                out@.len() == i,
                forall|j: int| 0 <= j < i ==> cloned::<T>(self.samples@[j], #[trigger] out@[j]),
            decreases self.samples@.len() - i,
        {
            out.push(self.samples[i].clone());
            i = i + 1;
        }
        out
    }
}

/// Samples arriving one by one at a history of `capacity` that held `s`
/// leave it holding the last `capacity` samples of everything it saw, in
/// arrival order. From empty, that is the last `capacity` arrivals.
pub proof fn lemma_history_keeps_latest<T>(s: Seq<T>, capacity: nat, arrivals: Seq<T>)
    requires
        s.len() <= capacity,
    ensures
        push_all(s, capacity, arrivals) == keep_last(s + arrivals, capacity),
        push_all(s, capacity, arrivals).len() <= capacity,
    decreases arrivals.len(),
{
    if arrivals.len() > 0 {
        let before = arrivals.drop_last();
        lemma_history_keeps_latest(s, capacity, before);
        let mid = keep_last(s + before, capacity);
        let all = s + arrivals;
        assert(all =~= (s + before).push(arrivals.last()));
        assert(keep_last(mid.push(arrivals.last()), capacity) =~= keep_last(all, capacity));
    } else {
        assert(s + arrivals =~= s);
    }
}

/// Whether a sample is due: none was ever taken, or at least
/// `interval_ms` milliseconds went by since the last one.
pub open spec fn spec_update_due(elapsed_ms: Option<u64>, interval_ms: u64) -> bool {
    match elapsed_ms {
        None => true,
        Some(e) => e >= interval_ms,
    }
}

/// Whether a sample is due, given the milliseconds since the last sample
/// (`None` if none was ever taken) and the sampling interval.
pub fn update_due(elapsed_ms: Option<u64>, interval_ms: u64) -> (r: bool)
    ensures
        r == spec_update_due(elapsed_ms, interval_ms),
{
    match elapsed_ms {
        None => true,
        Some(e) => e >= interval_ms,
    }
}

} // verus!
