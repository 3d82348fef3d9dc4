//! A bounded history of percentage samples, kept for the usage charts.

use vstd::prelude::*;

verus! {

/// `n` samples of value zero.
pub open spec fn zeros(n: nat) -> Seq<u64> {
    Seq::new(n, |i: int| 0u64)
}

/// The last `n` elements of `s`, or all of `s` where it has no more than `n`.
pub open spec fn newest(s: Seq<u64>, n: nat) -> Seq<u64> {
    if s.len() <= n {
        s
    } else {
        s.subrange(s.len() - n, s.len() as int)
    }
}

/// Every sample is a percentage.
pub open spec fn all_percent(s: Seq<u64>) -> bool {
    forall|i: int| 0 <= i < s.len() ==> s[i] <= 100
}

/// Mathematical model of a [`MetricRingBuffer`].
pub struct RingModel {
    pub capacity: nat,
    pub samples: Seq<u64>,
}

impl RingModel {
    /// The history holds no more samples than its capacity.
    pub open spec fn wf(self) -> bool {
        self.samples.len() <= self.capacity
    }

    /// A history of `capacity` zero samples.
    pub open spec fn filled(capacity: nat) -> RingModel {
        RingModel { capacity, samples: zeros(capacity) }
    }

    /// The history after `sample` is recorded: it is appended, and the oldest
    /// samples leave until no more than `capacity` are held.
    pub open spec fn push(self, sample: u64) -> RingModel {
        RingModel {
            capacity: self.capacity,
            samples: newest(self.samples.push(sample), self.capacity),
        }
    }

    /// The history after each of `samples` is recorded in turn.
    pub open spec fn push_all(self, samples: Seq<u64>) -> RingModel
        decreases samples.len(),
    {
        if samples.len() == 0 {
            self
        } else {
            self.push_all(samples.drop_last()).push(samples.last())
        }
    }

    /// The window that is charted: the newest `capacity` samples, with zeros
    /// in front where fewer are held.
    pub open spec fn snapshot(self) -> Seq<u64> {
        let recent = newest(self.samples, self.capacity);
        zeros((self.capacity - recent.len()) as nat) + recent
    }
}

/// After any run of recordings into a fresh history of capacity `capacity`,
/// the charted window has exactly `capacity` samples: the last `capacity` of
/// those recorded, in the order they came, behind as many zeros as are
/// needed to fill the window.
pub proof fn law_snapshot_after_pushes(capacity: nat, pushed: Seq<u64>)
    ensures
        RingModel::filled(capacity).push_all(pushed).wf(),
        RingModel::filled(capacity).push_all(pushed).snapshot().len() == capacity,
        RingModel::filled(capacity).push_all(pushed).snapshot() == zeros(
            (capacity - newest(pushed, capacity).len()) as nat,
        ) + newest(pushed, capacity),
{
    lemma_push_all(capacity, pushed);
}

/// A fresh history that then records `pushed` holds the newest `capacity` of
/// its zeros followed by `pushed`.
proof fn lemma_push_all(capacity: nat, pushed: Seq<u64>)
    ensures
        RingModel::filled(capacity).push_all(pushed).capacity == capacity,
        RingModel::filled(capacity).push_all(pushed).samples == newest(
            zeros(capacity) + pushed,
            capacity,
        ),
    decreases pushed.len(),
{
    if pushed.len() > 0 {
        lemma_push_all(capacity, pushed.drop_last());
    }
}

/// The samples of one usage metric, oldest first, never more than `capacity` of them.
pub struct MetricRingBuffer {
    capacity: usize,
    samples: Vec<u64>,
}

impl View for MetricRingBuffer {
    type V = RingModel;

    closed spec fn view(&self) -> RingModel {
        RingModel { capacity: self.capacity as nat, samples: self.samples@ }
    }
}

impl MetricRingBuffer {
    #[verifier::type_invariant]
    spec fn inv(self) -> bool {
        self.samples.len() <= self.capacity
    }

    /// A history of `capacity` samples, all zero.
    pub fn new(capacity: usize) -> (buffer: Self)
        ensures
            buffer@ == RingModel::filled(capacity as nat),
            buffer@.wf(),
    {
        let mut samples: Vec<u64> = Vec::new();
        let mut n: usize = 0;
        while n < capacity
            invariant
                n <= capacity,
                samples@ == zeros(n as nat),
            decreases capacity - n,
        {
            samples.push(0);
            n += 1;
        }
        MetricRingBuffer { capacity, samples }
    }

    /// Records `sample` as the newest; at capacity the oldest sample leaves.
    pub fn push(&mut self, sample: u64)
        ensures
            final(self)@ == old(self)@.push(sample),
            final(self)@.wf(),
            all_percent(old(self)@.samples) && sample <= 100 ==> all_percent(final(self)@.samples),
    {
        proof {
            use_type_invariant(&*self);
        }
        if self.capacity == 0 {
            assert(self@.push(sample).samples =~= self@.samples);
            return ;
        }
        let mut samples: Vec<u64> = Vec::new();
        core::mem::swap(&mut self.samples, &mut samples);
        if samples.len() == self.capacity {
            samples.remove(0);
        }
        samples.push(sample);
        assert(samples@ =~= old(self)@.push(sample).samples);
        self.samples = samples;
    }

    /// The window to chart: exactly `capacity` samples, oldest first, the
    /// held samples last and zeros in front of them where fewer are held.
    pub fn snapshot(&self) -> (window: Vec<u64>)
        ensures
            window@ == self@.snapshot(),
            window@.len() == self@.capacity,
    {
        proof {
            use_type_invariant(self);
        }
        let held: usize = self.samples.len();
        let padding: usize = self.capacity - held;
        let mut window: Vec<u64> = Vec::new();
        let mut n: usize = 0;
        while n < padding
            invariant
                n <= padding,
                window@ == zeros(n as nat),
            decreases padding - n,
        {
            window.push(0);
            n += 1;
        }
        let mut k: usize = 0;
        while k < held
            invariant
                k <= held,
                held == self.samples.len(),
                window@ == zeros(padding as nat) + self.samples@.subrange(0, k as int),
            decreases held - k,
        {
            window.push(self.samples[k]);
            k += 1;
        }
        window
    }

    /// The number of samples the charted window has.
    pub fn capacity(&self) -> (capacity: usize)
        ensures
            capacity == self@.capacity,
    {
        self.capacity
    }

    /// The samples held, oldest first.
    pub fn samples(&self) -> (samples: &Vec<u64>)
        ensures
            samples@ == self@.samples,
            samples@.len() <= self@.capacity,
    {
        proof {
            use_type_invariant(self);
        }
        &self.samples
    }
}

} // verus!
