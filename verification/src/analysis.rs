//! The motion-activity analysis pipeline.
//!
//! Per incoming earth-frame acceleration sample the pipeline runs three
//! stages: a smoothing window that removes slow bias, a windowed magnitude
//! estimator (arithmetic-mean or 0.75-quantile strategy), and a hysteresis
//! classifier that turns the (horizontal, vertical) energy pair into an
//! optional [`MovementDirection`].
//!
//! Scalars are IEEE-754 single-precision bit patterns carried in `u32`. All
//! values the estimator stores are non-negative magnitudes, and on
//! non-negative finite floats the unsigned order of the bit patterns is the
//! numeric order of the encoded values, so comparisons, sorting and order
//! statistics are performed directly on the bit patterns. The caller performs
//! the real-valued arithmetic the pipeline needs (the mean of a smoothing
//! window, the planar norm, `atan2`) and hands the results back as bit
//! patterns.
use std::collections::VecDeque;
use vstd::prelude::*;
use vstd::relations::{sorted_by, total_ordering};
use vstd::seq_lib::group_to_multiset_ensures;
use vstd::seq_lib::lemma_sorted_unique;

verus! {

/// The direction label emitted by the classifier while motion is latched.
#[derive(Debug, Clone, Copy, PartialEq, Eq, Structural)]
pub enum MovementDirection {
    Horizontal,
    Vertical,
    Diagonal,
}

/// The biased exponent field of an IEEE-754 single-precision bit pattern.
pub open spec fn exponent_bits(b: u32) -> u32 {
    (b >> 23) & 0xff
}

/// A bit pattern encodes a normal float exactly when its exponent field is
/// neither all zeros (zero or subnormal) nor all ones (infinity or NaN).
pub open spec fn is_normal_bits(b: u32) -> bool {
    exponent_bits(b) != 0 && exponent_bits(b) != 0xff
}

/// What the finite-value guard stores for an incoming bit pattern: the value
/// itself when it encodes a normal float, and positive zero otherwise.
pub open spec fn guard_bits(b: u32) -> u32 {
    if is_normal_bits(b) {
        b
    } else {
        0
    }
}

/// One step of a bounded FIFO of capacity `w`: the oldest element is evicted
/// when the window is already full, then the new element is appended.
pub open spec fn fifo_push<T>(s: Seq<T>, v: T, w: nat) -> Seq<T> {
    if s.len() >= w {
        s.skip(1).push(v)
    } else {
        s.push(v)
    }
}

/// `n` consecutive FIFO insertions of the same element.
pub open spec fn fifo_push_n<T>(s: Seq<T>, v: T, w: nat, n: nat) -> Seq<T>
    decreases n,
{
    if n == 0 {
        s
    } else {
        fifo_push(fifo_push_n(s, v, w, (n - 1) as nat), v, w)
    }
}

/// Law (window bound): a FIFO insertion never grows a window beyond its
/// capacity, so a buffer that starts within capacity stays within it forever.
pub proof fn lemma_window_bound<T>(s: Seq<T>, v: T, w: nat)
    requires
        w > 0,
        s.len() <= w,
    ensures
        fifo_push(s, v, w).len() <= w,
{
}

/// After `n` insertions of the same element the buffer length is the smaller
/// of capacity and start length plus `n`, and the last `min(n, len)` slots
/// all hold that element.
proof fn lemma_fifo_push_n_suffix<T>(s: Seq<T>, v: T, w: nat, n: nat)
    requires
        w > 0,
        s.len() <= w,
    ensures
        fifo_push_n(s, v, w, n).len() == vstd::math::min((s.len() + n) as int, w as int),
        forall|i: int|
            #![trigger fifo_push_n(s, v, w, n)[i]]
            {
                let r = fifo_push_n(s, v, w, n);
                r.len() - vstd::math::min(n as int, r.len() as int) <= i < r.len() ==> r[i] == v
            },
    decreases n,
{
    if n > 0 {
        lemma_fifo_push_n_suffix(s, v, w, (n - 1) as nat);
        let prev = fifo_push_n(s, v, w, (n - 1) as nat);
        let r = fifo_push_n(s, v, w, n);
        assert(r == fifo_push(prev, v, w));
        if prev.len() < w {
            assert(r =~= prev.push(v));
        } else {
            assert(r =~= prev.skip(1).push(v));
        }
    }
}

/// Law (smoothing idempotence on constant input): feeding the same value at
/// least as many times as the window holds leaves the window filled with
/// exactly that value. The mean of such a window is the value itself, so the
/// smoothed output of each further identical sample vanishes.
pub proof fn lemma_constant_input_fills_window<T>(s: Seq<T>, v: T, w: nat, n: nat)
    requires
        w > 0,
        s.len() <= w,
        n >= w,
    ensures
        fifo_push_n(s, v, w, n) =~= Seq::new(w, |i: int| v),
{
    lemma_fifo_push_n_suffix(s, v, w, n);
}

/// An earth-frame linear-acceleration sample, one bit pattern per axis.
#[derive(Debug, Clone, Copy, PartialEq, Eq, Structural)]
pub struct SampleVector {
    pub x: u32,
    pub y: u32,
    pub z: u32,
}

/// A copy of a deque's contents, oldest first.
fn deque_snapshot<T: Copy>(d: &VecDeque<T>) -> (r: Vec<T>)
    ensures
        r@ == d@,
{
    let mut r: Vec<T> = Vec::new();
    let n = d.len();
    let mut i: usize = 0;
    while i < n
        invariant
            i <= n,
            n == d@.len(),
            r@ == d@.subrange(0, i as int),
        decreases n - i,
    {
        r.push(d[i]);
        proof {
            assert(r@ =~= d@.subrange(0, i + 1));
        }
        i = i + 1;
    }
    proof {
        assert(r@ =~= d@);
    }
    r
}

/// The drift-compensating smoothing stage: a bounded FIFO of the last
/// `smoothing_window_size` samples.
///
/// The smoothed output is `sample - mean(window before insertion)`; the mean
/// is real-valued arithmetic, so [`Smoothing::add_measurement`] returns the
/// window as it stood before the insertion and the caller subtracts its mean
/// (zero for an empty window) from the sample it just recorded.
pub struct Smoothing {
    measurements: VecDeque<SampleVector>,
    smoothing_window_size: usize,
}

impl Smoothing {
    /// The configured window capacity.
    pub closed spec fn window(&self) -> nat {
        self.smoothing_window_size as nat
    }

    /// The buffered samples, oldest first.
    pub closed spec fn contents(&self) -> Seq<SampleVector> {
        self.measurements@
    }

    /// The window capacity is positive and the buffer never outgrows it.
    pub open spec fn wf(&self) -> bool {
        self.window() > 0 && self.contents().len() <= self.window()
    }

    pub fn new(smoothing_window_size: usize) -> (r: Self)
        requires
            smoothing_window_size > 0,
        ensures
            r.wf(),
            r.window() == smoothing_window_size,
            r.contents() == Seq::<SampleVector>::empty(),
    {
        let r = Smoothing {
            measurements: VecDeque::with_capacity(smoothing_window_size),
            smoothing_window_size,
        };
        proof {
            assert(r.contents() =~= Seq::<SampleVector>::empty());
        }
        r
    }

    /// The number of buffered samples.
    pub fn len(&self) -> (n: usize)
        ensures
            n == self.contents().len(),
    {
        self.measurements.len()
    }

    /// Records a sample: evicts the oldest buffered sample if the window is
    /// full, then appends the new one. Returns the window as it stood before
    /// the insertion, from which the caller computes the mean it subtracts.
    pub fn add_measurement(&mut self, linear_acceleration: SampleVector) -> (prior: Vec<
        SampleVector,
    >)
        requires
            old(self).wf(),
        ensures
            final(self).wf(),
            final(self).window() == old(self).window(),
            prior@ == old(self).contents(),
            final(self).contents() == fifo_push(
                old(self).contents(),
                linear_acceleration,
                old(self).window(),
            ),
    {
        let prior = deque_snapshot(&self.measurements);
        if self.measurements.len() >= self.smoothing_window_size {
            self.measurements.pop_front();
        }
        self.measurements.push_back(linear_acceleration);
        proof {
            assert(self.measurements@ =~= fifo_push(
                old(self).contents(),
                linear_acceleration,
                old(self).window(),
            ));
        }
        prior
    }
}

/// The finite-value guard: replaces any bit pattern that does not encode a
/// normal float (NaN, infinity, subnormal — and, vacuously, zero itself) by
/// positive zero, so one corrupt sample cannot poison a whole window.
pub fn no_invalid_float(f: u32) -> (r: u32)
    ensures
        r == guard_bits(f),
{
    let e: u32 = (f >> 23) & 0xff;
    if e != 0 && e != 0xff {
        f
    } else {
        0
    }
}

/// The Average magnitude-estimator strategy: bounded FIFO windows of the
/// last `detection_window_size` guarded (horizontal, vertical) magnitude
/// pairs.
///
/// Its statistic is the arithmetic mean of each column — real-valued
/// arithmetic, so the windows are exposed through
/// [`AverageMovementComputation::horizontal_window`] and
/// [`AverageMovementComputation::vertical_window`] and the caller averages
/// them.
pub struct AverageMovementComputation {
    horizontal_measurements: VecDeque<u32>,
    vertical_measurements: VecDeque<u32>,
    detection_window_size: usize,
}

impl AverageMovementComputation {
    /// The configured window capacity.
    pub closed spec fn window(&self) -> nat {
        self.detection_window_size as nat
    }

    /// The buffered horizontal magnitudes, oldest first.
    pub closed spec fn h_contents(&self) -> Seq<u32> {
        self.horizontal_measurements@
    }

    /// The buffered vertical magnitudes, oldest first.
    pub closed spec fn v_contents(&self) -> Seq<u32> {
        self.vertical_measurements@
    }

    /// The capacity is positive, the columns stay in step, and neither
    /// outgrows the window.
    pub open spec fn wf(&self) -> bool {
        &&& self.window() > 0
        &&& self.h_contents().len() == self.v_contents().len()
        &&& self.h_contents().len() <= self.window()
    }

    pub fn new(detection_window_size: usize) -> (r: Self)
        requires
            detection_window_size > 0,
        ensures
            r.wf(),
            r.window() == detection_window_size,
            r.h_contents() == Seq::<u32>::empty(),
            r.v_contents() == Seq::<u32>::empty(),
    {
        let r = AverageMovementComputation {
            detection_window_size,
            horizontal_measurements: VecDeque::with_capacity(detection_window_size),
            vertical_measurements: VecDeque::with_capacity(detection_window_size),
        };
        proof {
            assert(r.h_contents() =~= Seq::<u32>::empty());
            assert(r.v_contents() =~= Seq::<u32>::empty());
        }
        r
    }

    /// The number of buffered pairs.
    pub fn len(&self) -> (n: usize)
        ensures
            n == self.h_contents().len(),
    {
        self.horizontal_measurements.len()
    }

    /// Records a magnitude pair: evicts the oldest pair if the window is
    /// full, then appends the new pair, each value passed through the
    /// finite-value guard first.
    pub fn add_measurement(&mut self, x: u32, y: u32)
        requires
            old(self).wf(),
        ensures
            final(self).wf(),
            final(self).window() == old(self).window(),
            final(self).h_contents() == fifo_push(
                old(self).h_contents(),
                guard_bits(x),
                old(self).window(),
            ),
            final(self).v_contents() == fifo_push(
                old(self).v_contents(),
                guard_bits(y),
                old(self).window(),
            ),
    {
        if self.horizontal_measurements.len() >= self.detection_window_size {
            self.horizontal_measurements.pop_front();
            self.vertical_measurements.pop_front();
        }
        self.horizontal_measurements.push_back(no_invalid_float(x));
        self.vertical_measurements.push_back(no_invalid_float(y));
        proof {
            assert(self.horizontal_measurements@ =~= fifo_push(
                old(self).h_contents(),
                guard_bits(x),
                old(self).window(),
            ));
            assert(self.vertical_measurements@ =~= fifo_push(
                old(self).v_contents(),
                guard_bits(y),
                old(self).window(),
            ));
        }
    }

    /// A copy of the horizontal window, oldest first, for the caller's mean.
    pub fn horizontal_window(&self) -> (r: Vec<u32>)
        ensures
            r@ == self.h_contents(),
    {
        deque_snapshot(&self.horizontal_measurements)
    }

    /// A copy of the vertical window, oldest first, for the caller's mean.
    pub fn vertical_window(&self) -> (r: Vec<u32>)
        ensures
            r@ == self.v_contents(),
    {
        deque_snapshot(&self.vertical_measurements)
    }
}

/// The order on scalar bit patterns: plain unsigned order, which on the
/// non-negative finite floats the estimator stores is the numeric order of
/// the encoded values.
pub open spec fn u32_leq() -> spec_fn(u32, u32) -> bool {
    |a: u32, b: u32| a <= b
}

/// A sequence of bit patterns rearranged into ascending order.
pub open spec fn sorted_of(s: Seq<u32>) -> Seq<u32> {
    s.sort_by(u32_leq())
}

/// Unsigned order on `u32` is a total order.
pub proof fn lemma_u32_leq_total_ordering()
    ensures
        total_ordering(u32_leq()),
{
    let leq = u32_leq();
    assert forall|x: u32| #[trigger] leq(x, x) by {}
    assert forall|x: u32, y: u32| #[trigger] leq(x, y) && #[trigger] leq(y, x) implies x == y by {}
    assert forall|x: u32, y: u32, z: u32| #[trigger] leq(x, y) && #[trigger] leq(y, z) implies leq(
        x,
        z,
    ) by {}
    assert forall|x: u32, y: u32| !(#[trigger] leq(x, y)) implies leq(y, x) by {}
}

/// Inserting an element anywhere in a sequence inserts it into the
/// sequence's multiset.
proof fn lemma_insert_to_multiset(s: Seq<u32>, i: int, x: u32)
    requires
        0 <= i <= s.len(),
    ensures
        s.insert(i, x).to_multiset() =~= s.to_multiset().insert(x),
{
    broadcast use group_to_multiset_ensures;
    broadcast use vstd::multiset::group_multiset_axioms;

    let t = s.insert(i, x);
    assert(t.remove(i) =~= s);
    assert(t[i] == x);
    assert(t.to_multiset().remove(x) =~= s.to_multiset());
    assert(t.to_multiset().count(x) > 0) by {
        assert(t.contains(x));
    }
    assert forall|e: u32| t.to_multiset().count(e) == s.to_multiset().insert(x).count(e) by {
        if e == x {
            assert(t.to_multiset().remove(x).count(x) == t.to_multiset().count(x) - 1);
        } else {
            assert(t.to_multiset().remove(x).count(e) == t.to_multiset().count(e));
        }
    }
}

/// Sorts the given bit patterns into ascending unsigned order, by insertion
/// into a fresh vector.
fn sort_u32(input: &Vec<u32>) -> (r: Vec<u32>)
    ensures
        r@ == sorted_of(input@),
{
    let mut out: Vec<u32> = Vec::new();
    let mut i: usize = 0;
    proof {
        assert(out@ =~= input@.subrange(0, 0));
    }
    while i < input.len()
        invariant
            i <= input@.len(),
            sorted_by(out@, u32_leq()),
            out@.to_multiset() == input@.subrange(0, i as int).to_multiset(),
        decreases input@.len() - i,
    {
        let x = input[i];
        let mut k: usize = 0;
        while k < out.len() && out[k] <= x
            invariant
                k <= out@.len(),
                forall|t: int| 0 <= t < k ==> out@[t] <= x,
            decreases out@.len() - k,
        {
            k = k + 1;
        }
        proof {
            broadcast use group_to_multiset_ensures;

            lemma_insert_to_multiset(out@, k as int, x);
            assert(input@.subrange(0, i + 1) =~= input@.subrange(0, i as int).push(x));
        }
        let ghost prev = out@;
        out.insert(k, x);
        proof {
            let leq = u32_leq();
            assert forall|a: int, b: int| 0 <= a < b < out@.len() implies #[trigger] leq(
                out@[a],
                out@[b],
            ) by {
                if b < k {
                    assert(leq(prev[a], prev[b]));
                } else if a > k {
                    assert(leq(prev[a - 1], prev[b - 1]));
                } else if a < k && b == k {
                    assert(out@[a] == prev[a] && prev[a] <= x);
                } else if a == k && b > k {
                    assert(out@[b] == prev[b - 1]);
                    if k < prev.len() {
                        assert(!(prev[k as int] <= x));
                        if b - 1 > k {
                            assert(leq(prev[k as int], prev[b - 1]));
                        }
                    }
                } else if a < k && b > k {
                    assert(out@[a] == prev[a] && prev[a] <= x);
                    assert(out@[b] == prev[b - 1]);
                    if k < prev.len() {
                        assert(!(prev[k as int] <= x));
                        if b - 1 > k {
                            assert(leq(prev[k as int], prev[b - 1]));
                        }
                    }
                }
            }
            assert(sorted_by(out@, u32_leq()));
        }
        i = i + 1;
    }
    proof {
        assert(input@.subrange(0, input@.len() as int) =~= input@);
        lemma_u32_leq_total_ordering();
        input@.lemma_sort_by_ensures(u32_leq());
        lemma_sorted_unique(out@, sorted_of(input@), u32_leq());
    }
    out
}

/// The configured quantile, 0.75, as a ratio of integers.
pub const QUANTILE_NUMERATOR: usize = 3;

/// See [`QUANTILE_NUMERATOR`].
pub const QUANTILE_DENOMINATOR: usize = 4;

/// The rank the quantile statistic reads from an ascending column of length
/// `n`: the floor of `n` times the configured quantile. For `n >= 1` it is a
/// valid index, since the quantile is below one.
pub open spec fn quantile_index(n: nat) -> nat {
    ((n * QUANTILE_NUMERATOR) as int / (QUANTILE_DENOMINATOR as int)) as nat
}

/// The quantile rank of a non-empty column is a valid index into it.
pub proof fn lemma_quantile_index_in_range(n: nat)
    requires
        n >= 1,
    ensures
        quantile_index(n) < n,
{
    assert((n * 3) / 4 < n) by (nonlinear_arith)
        requires
            n >= 1,
    ;
}

/// Law (quantile correctness on a known ordering): a window that is already
/// ascending — for instance one filled with distinct increasing values — is
/// its own sorted order, so the quantile statistic is the window's element
/// at the quantile rank.
pub proof fn lemma_quantile_of_sorted(s: Seq<u32>)
    requires
        sorted_by(s, u32_leq()),
    ensures
        sorted_of(s) == s,
{
    lemma_u32_leq_total_ordering();
    s.lemma_sort_by_ensures(u32_leq());
    lemma_sorted_unique(s.sort_by(u32_leq()), s, u32_leq());
}

/// The Quantile magnitude-estimator strategy: bounded FIFO windows of the
/// last `detection_window_size` guarded (horizontal, vertical) magnitude
/// pairs, whose statistic is the value at the 0.75 quantile of each column —
/// the element at rank `floor(len * 0.75)` of the column sorted ascending,
/// recomputed from a scratch copy on every call.
pub struct QuantileMovementComputation {
    horizontal_measurements: VecDeque<u32>,
    vertical_measurements: VecDeque<u32>,
    detection_window_size: usize,
}

impl QuantileMovementComputation {
    /// The configured window capacity.
    pub closed spec fn window(&self) -> nat {
        self.detection_window_size as nat
    }

    /// The buffered horizontal magnitudes, oldest first.
    pub closed spec fn h_contents(&self) -> Seq<u32> {
        self.horizontal_measurements@
    }

    /// The buffered vertical magnitudes, oldest first.
    pub closed spec fn v_contents(&self) -> Seq<u32> {
        self.vertical_measurements@
    }

    /// The capacity is positive and small enough for the rank arithmetic,
    /// the columns stay in step, and neither outgrows the window.
    pub open spec fn wf(&self) -> bool {
        &&& self.window() > 0
        &&& self.window() <= usize::MAX as nat / (QUANTILE_DENOMINATOR as nat)
        &&& self.h_contents().len() == self.v_contents().len()
        &&& self.h_contents().len() <= self.window()
    }

    pub fn new(detection_window_size: usize) -> (r: Self)
        requires
            0 < detection_window_size <= usize::MAX / QUANTILE_DENOMINATOR,
        ensures
            r.wf(),
            r.window() == detection_window_size,
            r.h_contents() == Seq::<u32>::empty(),
            r.v_contents() == Seq::<u32>::empty(),
    {
        let r = QuantileMovementComputation {
            detection_window_size,
            horizontal_measurements: VecDeque::with_capacity(detection_window_size),
            vertical_measurements: VecDeque::with_capacity(detection_window_size),
        };
        proof {
            assert(r.h_contents() =~= Seq::<u32>::empty());
            assert(r.v_contents() =~= Seq::<u32>::empty());
        }
        r
    }

    /// The number of buffered pairs.
    pub fn len(&self) -> (n: usize)
        ensures
            n == self.h_contents().len(),
    {
        self.horizontal_measurements.len()
    }

    /// Records a magnitude pair — evicting the oldest pair if the window is
    /// full, then appending the new pair, each value passed through the
    /// finite-value guard — and returns the quantile statistic of the
    /// updated window.
    pub fn add_measurement(&mut self, x: u32, y: u32) -> (r: (u32, u32))
        requires
            old(self).wf(),
        ensures
            final(self).wf(),
            final(self).window() == old(self).window(),
            final(self).h_contents() == fifo_push(
                old(self).h_contents(),
                guard_bits(x),
                old(self).window(),
            ),
            final(self).v_contents() == fifo_push(
                old(self).v_contents(),
                guard_bits(y),
                old(self).window(),
            ),
            r.0 == sorted_of(final(self).h_contents())[quantile_index(
                final(self).h_contents().len(),
            ) as int],
            r.1 == sorted_of(final(self).v_contents())[quantile_index(
                final(self).v_contents().len(),
            ) as int],
    {
        if self.horizontal_measurements.len() >= self.detection_window_size {
            self.horizontal_measurements.pop_front();
            self.vertical_measurements.pop_front();
        }
        self.horizontal_measurements.push_back(no_invalid_float(x));
        self.vertical_measurements.push_back(no_invalid_float(y));
        proof {
            assert(self.horizontal_measurements@ =~= fifo_push(
                old(self).h_contents(),
                guard_bits(x),
                old(self).window(),
            ));
            assert(self.vertical_measurements@ =~= fifo_push(
                old(self).v_contents(),
                guard_bits(y),
                old(self).window(),
            ));
        }
        self.compute_quantile_detection_accel()
    }

    /// A copy of the horizontal window, oldest first.
    pub fn horizontal_window(&self) -> (r: Vec<u32>)
        ensures
            r@ == self.h_contents(),
    {
        deque_snapshot(&self.horizontal_measurements)
    }

    /// A copy of the vertical window, oldest first.
    pub fn vertical_window(&self) -> (r: Vec<u32>)
        ensures
            r@ == self.v_contents(),
    {
        deque_snapshot(&self.vertical_measurements)
    }

    /// The quantile statistic of the current window: each column is copied
    /// to scratch, sorted ascending, and read at the quantile rank. Querying
    /// an empty window is a programming error, excluded by precondition.
    pub fn compute_quantile_detection_accel(&self) -> (r: (u32, u32))
        requires
            self.wf(),
            self.h_contents().len() > 0,
        ensures
            r.0 == sorted_of(self.h_contents())[quantile_index(self.h_contents().len()) as int],
            r.1 == sorted_of(self.v_contents())[quantile_index(self.v_contents().len()) as int],
    {
        let horizontal_scratch = deque_snapshot(&self.horizontal_measurements);
        let horizontal_sorted = sort_u32(&horizontal_scratch);
        let vertical_scratch = deque_snapshot(&self.vertical_measurements);
        let vertical_sorted = sort_u32(&vertical_scratch);
        let len = horizontal_sorted.len();
        proof {
            lemma_u32_leq_total_ordering();
            self.h_contents().lemma_sort_by_ensures(u32_leq());
            self.v_contents().lemma_sort_by_ensures(u32_leq());
            broadcast use group_to_multiset_ensures;

            let hs = sorted_of(self.h_contents());
            let vs = sorted_of(self.v_contents());
            assert(hs.to_multiset() =~= self.h_contents().to_multiset());
            assert(hs.to_multiset().len() == hs.len());
            assert(self.h_contents().to_multiset().len() == self.h_contents().len());
            assert(vs.to_multiset() =~= self.v_contents().to_multiset());
            assert(vs.to_multiset().len() == vs.len());
            assert(self.v_contents().to_multiset().len() == self.v_contents().len());
            lemma_quantile_index_in_range(self.h_contents().len());
        }
        let pos = len * QUANTILE_NUMERATOR / QUANTILE_DENOMINATOR;
        (horizontal_sorted[pos], vertical_sorted[pos])
    }
}

/// Which magnitude-estimator strategy a pipeline runs.
#[derive(Debug, Clone, Copy, PartialEq, Eq, Structural)]
pub enum ComputationKind {
    Average,
    Quantile,
}

/// The magnitude estimator, one interchangeable strategy chosen at
/// construction.
///
/// Both strategies keep the same guarded FIFO windows; they differ in the
/// statistic. The Quantile strategy computes its statistic here and returns
/// it; the Average strategy's statistic is a real-valued mean, which the
/// caller computes from the exposed windows, so for it `add_measurement`
/// returns `None`.
pub enum MovementComputation {
    Average(AverageMovementComputation),
    Quantile(QuantileMovementComputation),
}

impl MovementComputation {
    /// The strategy this estimator runs.
    pub open spec fn kind(&self) -> ComputationKind {
        match self {
            MovementComputation::Average(_) => ComputationKind::Average,
            MovementComputation::Quantile(_) => ComputationKind::Quantile,
        }
    }

    /// The configured window capacity.
    pub open spec fn window(&self) -> nat {
        match self {
            MovementComputation::Average(a) => a.window(),
            MovementComputation::Quantile(q) => q.window(),
        }
    }

    /// The buffered horizontal magnitudes, oldest first.
    pub open spec fn h_contents(&self) -> Seq<u32> {
        match self {
            MovementComputation::Average(a) => a.h_contents(),
            MovementComputation::Quantile(q) => q.h_contents(),
        }
    }

    /// The buffered vertical magnitudes, oldest first.
    pub open spec fn v_contents(&self) -> Seq<u32> {
        match self {
            MovementComputation::Average(a) => a.v_contents(),
            MovementComputation::Quantile(q) => q.v_contents(),
        }
    }

    /// The chosen strategy's own well-formedness.
    pub open spec fn wf(&self) -> bool {
        match self {
            MovementComputation::Average(a) => a.wf(),
            MovementComputation::Quantile(q) => q.wf(),
        }
    }

    pub fn new(detection_window_size: usize, kind: ComputationKind) -> (r: Self)
        requires
            detection_window_size > 0,
            kind == ComputationKind::Quantile ==> detection_window_size <= usize::MAX
                / QUANTILE_DENOMINATOR,
        ensures
            r.wf(),
            r.kind() == kind,
            r.window() == detection_window_size,
            r.h_contents() == Seq::<u32>::empty(),
            r.v_contents() == Seq::<u32>::empty(),
    {
        match kind {
            ComputationKind::Average => MovementComputation::Average(
                AverageMovementComputation::new(detection_window_size),
            ),
            ComputationKind::Quantile => MovementComputation::Quantile(
                QuantileMovementComputation::new(detection_window_size),
            ),
        }
    }

    /// The number of buffered pairs.
    pub fn len(&self) -> (n: usize)
        ensures
            n == self.h_contents().len(),
    {
        match self {
            MovementComputation::Average(a) => a.len(),
            MovementComputation::Quantile(q) => q.len(),
        }
    }

    /// Records a guarded magnitude pair in the window and returns the
    /// strategy's statistic: the quantile pair for the Quantile strategy,
    /// `None` for the Average strategy, whose mean the caller computes from
    /// the windows.
    pub fn add_measurement(&mut self, x: u32, y: u32) -> (r: Option<(u32, u32)>)
        requires
            old(self).wf(),
        ensures
            final(self).wf(),
            final(self).kind() == old(self).kind(),
            final(self).window() == old(self).window(),
            final(self).h_contents() == fifo_push(
                old(self).h_contents(),
                guard_bits(x),
                old(self).window(),
            ),
            final(self).v_contents() == fifo_push(
                old(self).v_contents(),
                guard_bits(y),
                old(self).window(),
            ),
            old(self).kind() == ComputationKind::Average ==> r is None,
            old(self).kind() == ComputationKind::Quantile ==> (r matches Some(p) && p.0
                == sorted_of(final(self).h_contents())[quantile_index(
                final(self).h_contents().len(),
            ) as int] && p.1 == sorted_of(final(self).v_contents())[quantile_index(
                final(self).v_contents().len(),
            ) as int]),
    {
        match self {
            MovementComputation::Average(a) => {
                a.add_measurement(x, y);
                None
            },
            MovementComputation::Quantile(q) => Some(q.add_measurement(x, y)),
        }
    }

    /// A copy of the horizontal window, oldest first.
    pub fn horizontal_window(&self) -> (r: Vec<u32>)
        ensures
            r@ == self.h_contents(),
    {
        match self {
            MovementComputation::Average(a) => a.horizontal_window(),
            MovementComputation::Quantile(q) => q.horizontal_window(),
        }
    }

    /// A copy of the vertical window, oldest first.
    pub fn vertical_window(&self) -> (r: Vec<u32>)
        ensures
            r@ == self.v_contents(),
    {
        match self {
            MovementComputation::Average(a) => a.vertical_window(),
            MovementComputation::Quantile(q) => q.vertical_window(),
        }
    }
}

/// The angular sector a latch chooses when it engages: `Diagonal` strictly
/// between the two thresholds, `Horizontal` below the low threshold, and
/// `Vertical` at or above the high threshold. The angle and the thresholds
/// are bit patterns of non-negative floats, compared as unsigned integers.
pub open spec fn sector(angle: u32, angle_low: u32, angle_high: u32) -> MovementDirection {
    if angle_low < angle && angle < angle_high {
        MovementDirection::Diagonal
    } else if angle < angle_low {
        MovementDirection::Horizontal
    } else {
        MovementDirection::Vertical
    }
}

/// The classifier's transition function, on one (state, event) pair: `prev`
/// is the current latch, `below` whether both energies sit strictly below
/// the acceleration threshold, and `sector_label` the angular sector of the
/// energy pair's direction (consulted only when the latch engages).
pub open spec fn classifier_step(
    prev: Option<MovementDirection>,
    below: bool,
    sector_label: MovementDirection,
) -> Option<MovementDirection> {
    if below {
        None
    } else if prev is Some {
        prev
    } else {
        Some(sector_label)
    }
}

/// Law (hysteresis latch): a below-threshold step always returns the
/// classifier to its freshly-constructed state, whatever it held — no memory
/// of an earlier label survives — and while the signal stays at or above the
/// threshold a latched label is held, whatever the angle does.
pub proof fn lemma_hysteresis_latch(
    prev: Option<MovementDirection>,
    d: MovementDirection,
    s: MovementDirection,
)
    ensures
        classifier_step(prev, true, s) == None::<MovementDirection>,
        classifier_step(Some(d), false, s) == Some(d),
        classifier_step(None, false, s) == Some(s),
{
}

/// The hysteresis direction classifier: a two-state latch over the
/// (horizontal, vertical) energy pair.
///
/// While unlatched, a pair with either component at or above the
/// acceleration threshold engages the latch on the angular sector of the
/// pair's direction; while latched, the chosen label is held — whatever the
/// angle does — until both components drop below the threshold again.
///
/// The angle `atan2(vertical, horizontal)` is real-valued arithmetic, so the
/// caller computes it (only needed when [`MovementDetection::needs_angle`]
/// says so) and passes its bit pattern in. Energies, threshold and angles
/// are bit patterns of non-negative floats, compared as unsigned integers.
pub struct MovementDetection {
    acceleration_threshold: u32,
    angle_low_threshold: u32,
    angle_high_threshold: u32,
    prev_direction: Option<MovementDirection>,
}

impl MovementDetection {
    /// The configured acceleration threshold.
    pub closed spec fn threshold(&self) -> u32 {
        self.acceleration_threshold
    }

    /// The configured low angular-sector boundary.
    pub closed spec fn angle_low(&self) -> u32 {
        self.angle_low_threshold
    }

    /// The configured high angular-sector boundary.
    pub closed spec fn angle_high(&self) -> u32 {
        self.angle_high_threshold
    }

    /// The latch: the direction chosen when the signal last rose above the
    /// threshold, or `None` while the signal is below it.
    pub closed spec fn direction(&self) -> Option<MovementDirection> {
        self.prev_direction
    }

    /// The sector boundaries are ordered.
    pub open spec fn wf(&self) -> bool {
        self.angle_low() < self.angle_high()
    }

    /// Both energies sit strictly below the acceleration threshold.
    pub open spec fn below_spec(&self, x_accel: u32, y_accel: u32) -> bool {
        x_accel < self.threshold() && y_accel < self.threshold()
    }

    pub fn new(
        acceleration_threshold: u32,
        angle_low_threshold: u32,
        angle_high_threshold: u32,
    ) -> (r: Self)
        requires
            angle_low_threshold < angle_high_threshold,
        ensures
            r.wf(),
            r.threshold() == acceleration_threshold,
            r.angle_low() == angle_low_threshold,
            r.angle_high() == angle_high_threshold,
            r.direction() is None,
    {
        MovementDetection {
            acceleration_threshold,
            angle_low_threshold,
            angle_high_threshold,
            prev_direction: None,
        }
    }

    /// Whether both energies sit strictly below the acceleration threshold.
    pub fn below_acceleration_threshold(&self, x_accel: u32, y_accel: u32) -> (r: bool)
        ensures
            r == self.below_spec(x_accel, y_accel),
    {
        x_accel < self.acceleration_threshold && y_accel < self.acceleration_threshold
    }

    /// Whether the next call to [`MovementDetection::next_direction`] will
    /// read the angle: only an unlatched classifier seeing the signal rise
    /// above the threshold consults it.
    pub fn needs_angle(&self, x_accel: u32, y_accel: u32) -> (r: bool)
        ensures
            r == (self.direction() is None && !self.below_spec(x_accel, y_accel)),
    {
        self.prev_direction.is_none() && !self.below_acceleration_threshold(x_accel, y_accel)
    }

    /// One classifier step for the estimator's (horizontal, vertical) energy
    /// pair; `angle` is the bit pattern of `atan2(y_accel, x_accel)`, read
    /// only when the latch engages.
    ///
    /// Latched and below threshold: unlatch, emit nothing. Latched and not
    /// below: hold the label. Unlatched and below: stay quiet. Unlatched and
    /// not below: latch onto the angle's sector and emit it.
    pub fn next_direction(&mut self, x_accel: u32, y_accel: u32, angle: u32) -> (r: Option<
        MovementDirection,
    >)
        ensures
            final(self).wf() == old(self).wf(),
            final(self).threshold() == old(self).threshold(),
            final(self).angle_low() == old(self).angle_low(),
            final(self).angle_high() == old(self).angle_high(),
            r == final(self).direction(),
            r == classifier_step(
                old(self).direction(),
                old(self).below_spec(x_accel, y_accel),
                sector(angle, old(self).angle_low(), old(self).angle_high()),
            ),
    {
        let mut next_state = self.prev_direction;
        let below_thres = self.below_acceleration_threshold(x_accel, y_accel);

        if self.prev_direction.is_none() {
            if !below_thres {
                next_state = if self.angle_low_threshold < angle && angle
                    < self.angle_high_threshold {
                    Some(MovementDirection::Diagonal)
                } else if angle < self.angle_low_threshold {
                    Some(MovementDirection::Horizontal)
                } else {
                    Some(MovementDirection::Vertical)
                };
            }
        } else if below_thres {
            next_state = None;
        }
        self.prev_direction = next_state;
        next_state
    }
}

/// The whole analysis pipeline: smoothing window, magnitude estimator and
/// direction classifier, constructed together under the pipeline's
/// construction-time invariants.
///
/// Per sample the caller drives the stages in order — record the sample in
/// [`Analysis::smoothing`] and subtract the returned window's mean, decompose
/// the smoothed vector into the planar norm and the absolute vertical
/// component, feed that pair to [`Analysis::movement_computation`], and hand
/// the statistic (with its angle, when asked for) to
/// [`Analysis::movement_detection`] — performing the real-valued arithmetic
/// between the stages itself.
pub struct Analysis {
    pub smoothing: Smoothing,
    pub movement_computation: MovementComputation,
    pub movement_detection: MovementDetection,
}

impl Analysis {
    /// Every stage is well-formed and the detection window is shorter than
    /// the smoothing window — the ordering policy this library fixes between
    /// the two capacities.
    pub open spec fn wf(&self) -> bool {
        &&& self.smoothing.wf()
        &&& self.movement_computation.wf()
        &&& self.movement_detection.wf()
        &&& self.movement_computation.window() < self.smoothing.window()
    }

    /// Builds a pipeline. The construction-time invariants — positive window
    /// sizes, detection window strictly shorter than the smoothing window,
    /// ordered sector boundaries — are preconditions: an invalid pipeline
    /// cannot be constructed.
    pub fn new(
        smoothing_window_size: usize,
        detection_window_size: usize,
        acceleration_threshold: u32,
        angle_low_threshold: u32,
        angle_high_threshold: u32,
        kind: ComputationKind,
    ) -> (r: Analysis)
        requires
            smoothing_window_size > 0,
            detection_window_size > 0,
            kind == ComputationKind::Quantile ==> detection_window_size <= usize::MAX
                / QUANTILE_DENOMINATOR,
            detection_window_size < smoothing_window_size,
            angle_low_threshold < angle_high_threshold,
        ensures
            r.wf(),
            r.smoothing.window() == smoothing_window_size,
            r.smoothing.contents() == Seq::<SampleVector>::empty(),
            r.movement_computation.kind() == kind,
            r.movement_computation.window() == detection_window_size,
            r.movement_computation.h_contents() == Seq::<u32>::empty(),
            r.movement_computation.v_contents() == Seq::<u32>::empty(),
            r.movement_detection.threshold() == acceleration_threshold,
            r.movement_detection.angle_low() == angle_low_threshold,
            r.movement_detection.angle_high() == angle_high_threshold,
            r.movement_detection.direction() is None,
    {
        Analysis {
            smoothing: Smoothing::new(smoothing_window_size),
            movement_computation: MovementComputation::new(detection_window_size, kind),
            movement_detection: MovementDetection::new(
                acceleration_threshold,
                angle_low_threshold,
                angle_high_threshold,
            ),
        }
    }
}

} // verus!
