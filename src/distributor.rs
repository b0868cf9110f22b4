//! Receives buffers of any length at irregular times, measures the rate at
//! which elements arrive and hands them out again in amounts that follow that
//! rate, so that a consumer sees a steady stream.
//!
//! The rate is held exactly, as a number of elements per number of
//! nanoseconds. The fraction of an element that a pop could not hand out is
//! carried to the next pop, as a fraction with its own denominator, so that
//! rounding never makes the output drift away from the input.
use crate::clock::{micros_since, now};
use crate::utils::copy_range;
use std::time::Instant;
use vstd::prelude::*;

pub mod unittest;

verus! {

/// The largest number of microseconds whose nanoseconds fit in a `u64`.
pub const MAX_MICROS: u128 = 18_446_744_073_709_551;

/// A span of time, in one of three units.
pub enum Elapsed {
    Nanos(u128),
    Micros(u128),
    Millis(u64),
}

impl Elapsed {
    /// The span in nanoseconds.
    pub open spec fn nanos(self) -> int {
        match self {
            Elapsed::Nanos(n) => n as int,
            Elapsed::Micros(m) => m * 1000,
            Elapsed::Millis(m) => m * 1_000_000,
        }
    }

    /// The span in nanoseconds, capped at `u64::MAX` (about 584 years).
    pub open spec fn capped_nanos(self) -> int {
        if self.nanos() > u64::MAX {
            u64::MAX as int
        } else {
            self.nanos()
        }
    }

    /// The span in nanoseconds, capped at `u64::MAX` (about 584 years).
    pub fn as_nanos(&self) -> (r: u64)
        ensures
            r == self.capped_nanos(),
    {
        match self {
            Elapsed::Nanos(n) => if *n > u64::MAX as u128 {
                u64::MAX
            } else {
                *n as u64
            },
            Elapsed::Micros(m) => if *m > MAX_MICROS {
                u64::MAX
            } else {
                (*m * 1000) as u64
            },
            Elapsed::Millis(m) => {
                let n = *m as u128 * 1_000_000;
                if n > u64::MAX as u128 {
                    u64::MAX
                } else {
                    n as u64
                }
            },
        }
    }
}

/// A data rate: `elements` elements every `nanos` nanoseconds.
#[derive(Clone, Copy, Debug, PartialEq, Eq, Structural)]
pub struct DataRate {
    pub elements: u64,
    pub nanos: u64,
}

impl DataRate {
    /// A rate is usable where its span of time is not empty.
    pub open spec fn valid(self) -> bool {
        self.nanos > 0
    }

    /// `elements` elements per second.
    pub fn per_second(elements: u64) -> (r: DataRate)
        ensures
            r == (DataRate { elements, nanos: 1_000_000_000 }),
            r.valid(),
    {
        DataRate { elements, nanos: 1_000_000_000 }
    }
}

/// What a distributor holds, as mathematical values.
pub ghost struct DistributorView<T> {
    /// The elements waiting to be handed out, oldest first.
    pub queue: Seq<T>,
    /// The measured (or, before two pushes, the estimated) rate.
    pub rate: DataRate,
    /// The fraction of an element owed to the consumer is
    /// `excess / excess_unit`.
    pub excess: int,
    pub excess_unit: int,
    /// The number of elements of the most recent push.
    pub last_push: nat,
    /// Whether at least one push has happened, so that the next one can
    /// measure the rate.
    pub initialized: bool,
    /// How many of the oldest elements the last pop dropped because the
    /// queue had grown too long.
    pub dropped: nat,
}

impl<T> DistributorView<T> {
    pub open spec fn wf(self) -> bool {
        &&& self.rate.valid()
        &&& 0 < self.excess_unit <= u64::MAX
        &&& 0 <= self.excess < self.excess_unit
    }

    /// Whether a push of a batch `t` nanoseconds after the one before
    /// measures the rate anew.
    pub open spec fn measures(self, t: int) -> bool {
        self.initialized && t > 0
    }

    /// The state after pushing `batch`, `t` nanoseconds after the last push:
    /// the batch is queued and, from the second push on, the rate becomes
    /// `batch.len()` per `t`. The carried fraction stays as it is.
    pub open spec fn after_push(self, batch: Seq<T>, t: int) -> DistributorView<T> {
        if self.measures(t) {
            DistributorView {
                queue: self.queue + batch,
                rate: DataRate { elements: batch.len() as u64, nanos: t as u64 },
                last_push: batch.len(),
                initialized: true,
                ..self
            }
        } else {
            DistributorView {
                queue: self.queue + batch,
                last_push: batch.len(),
                initialized: true,
                ..self
            }
        }
    }

    /// The carried fraction in units of `1 / rate.nanos` elements. It is
    /// exact where the fraction was carried at the current rate, and
    /// otherwise rounded down, by less than `1 / rate.nanos` of an element.
    pub open spec fn aligned(self) -> int {
        self.excess * self.rate.nanos / self.excess_unit
    }

    /// The elements owed for `t` nanoseconds and the fraction carried over,
    /// in units of `1 / rate.nanos` elements.
    pub open spec fn owed(self, t: int) -> int {
        self.aligned() + t * self.rate.elements
    }

    /// How many elements a pop `t` nanoseconds after the last one asks for.
    pub open spec fn requested(self, t: int) -> int {
        self.owed(t) / (self.rate.nanos as int)
    }

    /// The fraction of an element carried to the next pop.
    pub open spec fn carried(self, t: int) -> int {
        self.owed(t) % (self.rate.nanos as int)
    }

    /// How many elements a pop hands out: what it asks for, or the whole
    /// queue where that holds fewer.
    pub open spec fn taken(self, t: int) -> int {
        if self.requested(t) < self.queue.len() {
            self.requested(t)
        } else {
            self.queue.len() as int
        }
    }

    /// The elements that a pop hands out, oldest first.
    pub open spec fn handed_out(self, t: int) -> Seq<T> {
        self.queue.take(self.taken(t))
    }

    /// Whether the queue left after handing out exceeds twice the last push
    /// (and what was asked for), so that its oldest elements are dropped.
    pub open spec fn overflows(self, t: int) -> bool {
        let left = self.queue.len() - self.taken(t);
        &&& self.last_push > 0
        &&& left > 2 * self.last_push
        &&& left > self.requested(t)
    }

    /// The queue after a pop: the rest after what was handed out, of which
    /// only the newest `requested(t)` elements stay on overflow.
    pub open spec fn kept(self, t: int) -> Seq<T> {
        let rest = self.queue.skip(self.taken(t));
        if self.overflows(t) {
            rest.skip(rest.len() - self.requested(t))
        } else {
            rest
        }
    }

    /// How many elements a pop drops on overflow.
    pub open spec fn drops(self, t: int) -> nat {
        if self.overflows(t) {
            (self.queue.len() - self.taken(t) - self.requested(t)) as nat
        } else {
            0
        }
    }

    /// The state after a pop `t` nanoseconds after the last one: the carry
    /// is now in units of `1 / rate.nanos` elements.
    pub open spec fn after_pop(self, t: int) -> DistributorView<T> {
        DistributorView {
            queue: self.kept(t),
            excess: self.carried(t),
            excess_unit: self.rate.nanos as int,
            dropped: self.drops(t),
            ..self
        }
    }

    /// The state after pops `ts[0]`, `ts[1]`, ... nanoseconds apart.
    pub open spec fn after_pops(self, ts: Seq<int>) -> DistributorView<T>
        decreases ts.len(),
    {
        if ts.len() == 0 {
            self
        } else {
            self.after_pop(ts[0]).after_pops(ts.skip(1))
        }
    }

    /// How many elements pops `ts[0]`, `ts[1]`, ... nanoseconds apart ask
    /// for in all.
    pub open spec fn requested_over(self, ts: Seq<int>) -> int
        decreases ts.len(),
    {
        if ts.len() == 0 {
            0
        } else {
            self.requested(ts[0]) + self.after_pop(ts[0]).requested_over(ts.skip(1))
        }
    }

    /// How many elements pops `ts[0]`, `ts[1]`, ... nanoseconds apart hand
    /// out in all.
    pub open spec fn handed_over(self, ts: Seq<int>) -> int
        decreases ts.len(),
    {
        if ts.len() == 0 {
            0
        } else {
            self.taken(ts[0]) + self.after_pop(ts[0]).handed_over(ts.skip(1))
        }
    }

    /// Whether each of the pops `ts[0]`, `ts[1]`, ... finds at least as many
    /// elements queued as it asks for.
    pub open spec fn never_short(self, ts: Seq<int>) -> bool
        decreases ts.len(),
    {
        ts.len() == 0 || (self.requested(ts[0]) <= self.queue.len() && self.after_pop(
            ts[0],
        ).never_short(ts.skip(1)))
    }

    /// The state after cycles of a push (`c.0`, `c.1` nanoseconds after the
    /// push before) followed by pops (`c.2`).
    pub open spec fn after_cycles(self, cycles: Seq<(Seq<T>, int, Seq<int>)>) -> DistributorView<T>
        decreases cycles.len(),
    {
        if cycles.len() == 0 {
            self
        } else {
            let c = cycles[0];
            self.after_push(c.0, c.1).after_pops(c.2).after_cycles(cycles.skip(1))
        }
    }

    /// How many elements the pops of these cycles hand out in all.
    pub open spec fn handed_cycles(self, cycles: Seq<(Seq<T>, int, Seq<int>)>) -> int
        decreases cycles.len(),
    {
        if cycles.len() == 0 {
            0
        } else {
            let c = cycles[0];
            let d = self.after_push(c.0, c.1);
            d.handed_over(c.2) + d.after_pops(c.2).handed_cycles(cycles.skip(1))
        }
    }

    /// Whether no pop of these cycles finds fewer elements than it asks for.
    pub open spec fn never_short_cycles(self, cycles: Seq<(Seq<T>, int, Seq<int>)>) -> bool
        decreases cycles.len(),
    {
        cycles.len() == 0 || {
            let c = cycles[0];
            let d = self.after_push(c.0, c.1);
            d.never_short(c.2) && d.after_pops(c.2).never_short_cycles(cycles.skip(1))
        }
    }
}

/// How many elements the pushes of these cycles bring in all.
pub open spec fn pushed_cycles<T>(cycles: Seq<(Seq<T>, int, Seq<int>)>) -> int
    decreases cycles.len(),
{
    if cycles.len() == 0 {
        0
    } else {
        cycles[0].0.len() + pushed_cycles(cycles.skip(1))
    }
}


/// Buffers elements and hands them out at the rate at which they arrived.
#[derive(Clone, Debug)]
pub struct Distributor<T> {
    last_buffer_size: usize,
    data_rate: DataRate,
    fully_initialized: bool,
    send_amount_excess: u64,
    excess_unit: u64,
    dropped: usize,
    buffer: Vec<T>,
    push_elapsed: Instant,
    pop_elapsed: Instant,
}

impl<T> View for Distributor<T> {
    type V = DistributorView<T>;

    closed spec fn view(&self) -> DistributorView<T> {
        DistributorView {
            queue: self.buffer@,
            rate: self.data_rate,
            excess: self.send_amount_excess as int,
            excess_unit: self.excess_unit as int,
            last_push: self.last_buffer_size as nat,
            initialized: self.fully_initialized,
            dropped: self.dropped as nat,
        }
    }
}

impl<T: Copy> Distributor<T> {
    pub open spec fn wf(&self) -> bool {
        self@.wf()
    }

    /// An empty distributor that hands out at `estimated_data_rate` until two
    /// pushes have measured the real rate.
    pub fn new(estimated_data_rate: DataRate) -> (r: Self)
        requires
            estimated_data_rate.valid(),
        ensures
            r.wf(),
            r@ == (DistributorView::<T> {
                queue: Seq::empty(),
                rate: estimated_data_rate,
                excess: 0,
                excess_unit: estimated_data_rate.nanos as int,
                last_push: 0,
                initialized: false,
                dropped: 0,
            }),
    {
        Distributor {
            last_buffer_size: 0,
            data_rate: estimated_data_rate,
            fully_initialized: false,
            send_amount_excess: 0,
            excess_unit: estimated_data_rate.nanos,
            dropped: 0,
            buffer: Vec::new(),
            push_elapsed: now(),
            pop_elapsed: now(),
        }
    }

    /// The current data rate.
    pub fn data_rate(&self) -> (r: DataRate)
        ensures
            r == self@.rate,
    {
        self.data_rate
    }

    /// How many of the oldest elements the last pop dropped because the
    /// queue had grown past twice the last push.
    pub fn dropped(&self) -> (r: usize)
        ensures
            r == self@.dropped,
    {
        self.dropped
    }

    /// A copy of the waiting elements, oldest first.
    pub fn clone_buffer(&self) -> (r: Vec<T>)
        ensures
            r@ == self@.queue,
    {
        copy_range(self.buffer.as_slice(), 0, self.buffer.len())
    }

    /// Drops every waiting element.
    pub fn clear(&mut self)
        ensures
            final(self)@ == (DistributorView { queue: Seq::<T>::empty(), ..old(self)@ }),
    {
        self.buffer.clear();
    }

    /// Appends `buffer`, pushed `elapsed` after the push before. From the
    /// second push on, the rate becomes `buffer.len()` per `elapsed` (capped
    /// at `u64::MAX` nanoseconds). The carried fraction is kept exactly.
    pub fn push(&mut self, buffer: &[T], elapsed: Elapsed)
        requires
            old(self).wf(),
        ensures
            final(self).wf(),
            final(self)@ == old(self)@.after_push(buffer@, elapsed.capped_nanos()),
            final(self)@.excess == old(self)@.excess,
            final(self)@.excess_unit == old(self)@.excess_unit,
    {
        let t = elapsed.as_nanos();
        self.last_buffer_size = buffer.len();
        if self.fully_initialized && t > 0 {
            self.data_rate = DataRate { elements: buffer.len() as u64, nanos: t };
        }
        let mut extra = copy_range(buffer, 0, buffer.len());
        assert(buffer@.subrange(0, buffer@.len() as int) =~= buffer@);
        self.buffer.append(&mut extra);
        self.fully_initialized = true;
    }

    /// Same as `push`, with the time since the last push read from the clock.
    pub fn push_auto(&mut self, buffer: &[T])
        requires
            old(self).wf(),
        ensures
            final(self).wf(),
            exists|t: int| 0 <= t <= u64::MAX && final(self)@ == old(self)@.after_push(buffer@, t),
    {
        let micros = micros_since(&self.push_elapsed);
        self.push_elapsed = now();
        self.push(buffer, Elapsed::Micros(micros));
    }

    /// Hands out, oldest first, the elements owed for `elapsed` (capped at
    /// `u64::MAX` nanoseconds) at the current rate, or the whole queue where
    /// it holds fewer. Where the queue left is larger than twice the last
    /// push and than what was asked for, its oldest elements are dropped
    /// down to what was asked for, and `dropped` says how many.
    pub fn pop(&mut self, elapsed: Elapsed) -> (r: Vec<T>)
        requires
            old(self).wf(),
        ensures
            final(self).wf(),
            r@ == old(self)@.handed_out(elapsed.capped_nanos()),
            final(self)@ == old(self)@.after_pop(elapsed.capped_nanos()),
            old(self)@.last_push > 0 && old(self)@.requested(elapsed.capped_nanos()) <= 2
                * old(self)@.last_push ==> final(self)@.queue.len() <= 2 * old(self)@.last_push,
    {
        let ghost v = self@;
        let t = elapsed.as_nanos();
        let elements = self.data_rate.elements;
        let span = self.data_rate.nanos;
        let e = self.send_amount_excess;
        let unit = self.excess_unit;
        proof {
            assert((e as int) * (span as int) < (unit as int) * (span as int)) by (nonlinear_arith)
                requires
                    e < unit,
                    span > 0,
            ;
            assert((e as int) * (span as int) / (unit as int) < span) by (nonlinear_arith)
                requires
                    (e as int) * (span as int) < (unit as int) * (span as int),
                    unit > 0,
            ;
            assert((e as int) * (span as int) <= u64::MAX as int * u64::MAX as int)
                by (nonlinear_arith)
                requires
                    e <= u64::MAX,
                    span <= u64::MAX,
            ;
            assert((t as int) * (elements as int) <= u64::MAX as int * u64::MAX as int)
                by (nonlinear_arith)
                requires
                    t <= u64::MAX,
                    elements <= u64::MAX,
            ;
        }
        let aligned: u128 = (e as u128) * (span as u128) / (unit as u128);
        let owed: u128 = aligned + (t as u128) * (elements as u128);
        let want: u128 = owed / (span as u128);
        let carry: u128 = owed % (span as u128);
        self.send_amount_excess = carry as u64;
        self.excess_unit = span;

        let len = self.buffer.len();
        let n: usize = if want < len as u128 {
            want as usize
        } else {
            len
        };
        let mut rest = self.buffer.split_off(n);
        std::mem::swap(&mut self.buffer, &mut rest);
        let out = rest;
        assert(out@ == v.handed_out(t as int));

        let left = self.buffer.len();
        let cap: u128 = 2 * (self.last_buffer_size as u128);
        if left as u128 > cap && cap != 0 && left as u128 > want {
            let oversize: usize = left - want as usize;
            self.buffer = self.buffer.split_off(oversize);
            self.dropped = oversize;
        } else {
            self.dropped = 0;
        }
        assert(self@.queue =~= v.kept(t as int));
        out
    }

    /// Same as `pop`, with the time since the last pop read from the clock.
    pub fn pop_auto(&mut self) -> (r: Vec<T>)
        requires
            old(self).wf(),
        ensures
            final(self).wf(),
            exists|t: int|
                0 <= t <= u64::MAX && r@ == old(self)@.handed_out(t) && final(self)@ == old(
                    self,
                )@.after_pop(t),
    {
        let micros = micros_since(&self.pop_elapsed);
        self.pop_elapsed = now();
        self.pop(Elapsed::Micros(micros))
    }
}

/// The sum of a run of spans of time.
pub open spec fn total_time(ts: Seq<int>) -> int
    decreases ts.len(),
{
    if ts.len() == 0 {
        0
    } else {
        ts[0] + total_time(ts.skip(1))
    }
}

proof fn lemma_aligned_bounds<T>(d: DistributorView<T>)
    requires
        d.wf(),
    ensures
        0 <= d.aligned() < d.rate.nanos,
        d.excess_unit == d.rate.nanos ==> d.aligned() == d.excess,
{
    let n = d.rate.nanos as int;
    let u = d.excess_unit;
    let x = d.excess;
    assert(0 <= x * n / u < n) by (nonlinear_arith)
        requires
            0 <= x < u,
            n > 0,
    ;
    if u == n {
        assert(x * n / n == x) by (nonlinear_arith)
            requires
                n > 0,
        ;
    }
}

/// No drift: over any run of pops at an unchanged rate, the elements asked
/// for in all are exactly the whole elements owed for the total time and
/// the carried fraction (the rest is carried), so they differ from rate
/// times total time by less than one element, however many pops there are.
pub proof fn lemma_no_drift<T>(d: DistributorView<T>, ts: Seq<int>)
    requires
        d.wf(),
    ensures
        d.after_pops(ts).wf(),
        d.after_pops(ts).rate == d.rate,
        d.after_pops(ts).initialized == d.initialized,
        d.requested_over(ts) * d.rate.nanos + d.after_pops(ts).aligned() == d.aligned()
            + d.rate.elements * total_time(ts),
        d.rate.elements * total_time(ts) - d.rate.nanos < d.requested_over(ts) * d.rate.nanos,
        d.requested_over(ts) * d.rate.nanos < d.rate.elements * total_time(ts) + d.rate.nanos,
    decreases ts.len(),
{
    lemma_aligned_bounds(d);
    if ts.len() > 0 {
        let t = ts[0];
        let d1 = d.after_pop(t);
        let n = d.rate.nanos as int;
        let e = d.rate.elements as int;
        let o = d.owed(t);
        assert(d.requested(t) * n + d.carried(t) == o) by {
            vstd::arithmetic::div_mod::lemma_fundamental_div_mod(o, n);
            assert(n * (o / n) == (o / n) * n) by (nonlinear_arith);
        }
        assert(0 <= d.carried(t) < n) by {
            vstd::arithmetic::div_mod::lemma_mod_bound(o, n);
        }
        assert(d1.wf());
        lemma_aligned_bounds(d1);
        lemma_no_drift(d1, ts.skip(1));
        let r1 = d1.requested_over(ts.skip(1));
        let t1 = total_time(ts.skip(1));
        assert((d.requested(t) + r1) * n == d.requested(t) * n + r1 * n) by (nonlinear_arith);
        assert(e * (t + t1) == t * e + e * t1) by (nonlinear_arith);
    }
    lemma_aligned_bounds(d.after_pops(ts));
}

/// Balance over whole periods: where the rate was measured from pushes of
/// `rate.elements` elements every `rate.nanos` nanoseconds, pops that span
/// `k` such periods in all ask for exactly the `k * rate.elements` elements
/// pushed meanwhile, and carry the fraction on unchanged.
pub proof fn lemma_whole_periods_balance<T>(d: DistributorView<T>, ts: Seq<int>, k: int)
    requires
        d.wf(),
        total_time(ts) == k * d.rate.nanos,
    ensures
        d.requested_over(ts) == k * d.rate.elements,
        d.after_pops(ts).aligned() == d.aligned(),
{
    lemma_no_drift(d, ts);
    lemma_aligned_bounds(d);
    lemma_aligned_bounds(d.after_pops(ts));
    let n = d.rate.nanos as int;
    let e = d.rate.elements as int;
    let r = d.requested_over(ts);
    let af = d.after_pops(ts).aligned();
    assert(e * total_time(ts) == (k * e) * n) by (nonlinear_arith)
        requires
            total_time(ts) == k * n,
    ;
    assert(r == k * e) by (nonlinear_arith)
        requires
            r * n + af == d.aligned() + (k * e) * n,
            0 <= d.aligned() < n,
            0 <= af < n,
    ;
}

/// Pops that never find the queue short hand out what they ask for.
pub proof fn lemma_handed_as_requested<T>(d: DistributorView<T>, ts: Seq<int>)
    requires
        d.never_short(ts),
    ensures
        d.handed_over(ts) == d.requested_over(ts),
    decreases ts.len(),
{
    if ts.len() > 0 {
        lemma_handed_as_requested(d.after_pop(ts[0]), ts.skip(1));
    }
}

/// No drift across cycles: once a first push has happened, cycles that each
/// push a batch and then pop over exactly the time since the push before
/// ask for, in all, exactly the elements pushed; where no pop finds the
/// queue short, exactly the elements pushed are handed out.
pub proof fn lemma_cycles_balance<T>(d: DistributorView<T>, cycles: Seq<(Seq<T>, int, Seq<int>)>)
    requires
        d.wf(),
        d.initialized,
        forall|i: int|
            0 <= i < cycles.len() ==> {
                let c = #[trigger] cycles[i];
                &&& 0 < c.1 <= u64::MAX
                &&& c.0.len() <= u64::MAX
                &&& total_time(c.2) == c.1
            },
    ensures
        d.after_cycles(cycles).wf(),
        d.after_cycles(cycles).initialized,
        d.never_short_cycles(cycles) ==> d.handed_cycles(cycles) == pushed_cycles(cycles),
    decreases cycles.len(),
{
    if cycles.len() > 0 {
        let c = cycles[0];
        assert(0 < c.1 <= u64::MAX && c.0.len() <= u64::MAX && total_time(c.2) == c.1);
        let d1 = d.after_push(c.0, c.1);
        assert(d1.rate.nanos == c.1 && d1.rate.elements == c.0.len());
        lemma_whole_periods_balance(d1, c.2, 1);
        lemma_no_drift(d1, c.2);
        let d2 = d1.after_pops(c.2);
        assert forall|i: int| 0 <= i < cycles.skip(1).len() implies {
            let c = #[trigger] cycles.skip(1)[i];
            &&& 0 < c.1 <= u64::MAX
            &&& c.0.len() <= u64::MAX
            &&& total_time(c.2) == c.1
        } by {
            assert(cycles.skip(1)[i] == cycles[i + 1]);
        }
        lemma_cycles_balance(d2, cycles.skip(1));
        if d.never_short_cycles(cycles) {
            lemma_handed_as_requested(d1, c.2);
        }
    }
}

} // verus!
