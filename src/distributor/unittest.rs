//! A fixed run of a distributor: nine elements pushed every fifth tick of a
//! millisecond, one pop every tick.
use crate::distributor::{DataRate, Distributor, Elapsed};
use vstd::prelude::*;

verus! {

/// What the pop of tick `i` of `test` hands out, and how many elements stay
/// queued after it.
pub open spec fn expected_tick(i: int) -> (int, int) {
    if i == 0 {
        (1, 8)
    } else if i == 1 {
        (2, 6)
    } else if i == 2 {
        (1, 5)
    } else if i == 3 {
        (2, 3)
    } else if i == 4 {
        (2, 1)
    } else if i % 5 == 0 {
        (1, 9)
    } else {
        (2, 9 - 2 * (i % 5))
    }
}

/// The carry (in units of `1 / 1_000_000_000` element) after the pop of
/// tick `i < 5`, at the estimated rate.
spec fn early_carry(i: int) -> int {
    if i == 0 {
        600_000_000
    } else if i == 1 {
        200_000_000
    } else if i == 2 {
        800_000_000
    } else if i == 3 {
        400_000_000
    } else {
        0
    }
}

/// Runs 101 ticks of a millisecond on a distributor that estimates 1600
/// elements per second, pushing nine elements on every fifth tick (from the
/// first) and popping on every tick; the schedule of the `distributor` test.
/// Returns, for each tick, how many elements the pop handed out and how
/// many stayed queued. From the second push on the measured rate is nine per
/// five milliseconds, and the pops hand out 1, 2, 2, 2, 2 elements per five
/// ticks, leaving 9, 7, 5, 3, 1 queued. The estimate matters to the bound
/// on the queue: at 32 elements per second the first five pops would hand
/// out nothing, and the queue would hold 17 elements after the pop of tick 10.
pub fn test() -> (r: Vec<(usize, usize)>)
    ensures
        r@.len() == 101,
        forall|i: int|
            0 <= i < 101 ==> (#[trigger] r@[i]).0 == expected_tick(i).0 && r@[i].1 == expected_tick(
                i,
            ).1,
{
    let estimate = DataRate::per_second(8 * 1000 / 5);
    let measured = DataRate { elements: 9, nanos: 5_000_000 };
    let mut distributor: Distributor<u64> = Distributor::new(estimate);
    let mut r: Vec<(usize, usize)> = Vec::new();
    let mut counter: u64 = 0;
    while counter <= 100
        invariant
            distributor.wf(),
            r@.len() == counter,
            counter <= 101,
            estimate == (DataRate { elements: 1600, nanos: 1_000_000_000 }),
            measured == (DataRate { elements: 9, nanos: 5_000_000 }),
            counter == 0 ==> distributor@.queue.len() == 0 && !distributor@.initialized
                && distributor@.rate == estimate && distributor@.excess == 0
                && distributor@.excess_unit == 1_000_000_000,
            counter > 0 ==> distributor@.last_push == 9 && distributor@.initialized,
            1 <= counter <= 5 ==> {
                &&& distributor@.rate == estimate
                &&& distributor@.excess_unit == 1_000_000_000
                &&& distributor@.excess == early_carry(counter - 1)
                &&& distributor@.queue.len() == expected_tick(counter - 1).1
            },
            counter >= 6 ==> {
                &&& distributor@.rate == measured
                &&& distributor@.excess_unit == 5_000_000
                &&& distributor@.excess == (4 - (counter - 1) % 5) * 1_000_000
                &&& distributor@.queue.len() == expected_tick(counter - 1).1
            },
            forall|i: int|
                0 <= i < counter ==> (#[trigger] r@[i]).0 == expected_tick(i).0 && r@[i].1
                    == expected_tick(i).1,
        decreases 101 - counter,
    {
        if counter % 5 == 0 {
            let mut batch: Vec<u64> = Vec::new();
            let mut i: u64 = 0;
            while i <= 8
                invariant
                    batch@.len() == i,
                    i <= 9,
                    counter <= 100,
                decreases 9 - i,
            {
                batch.push(counter + i);
                i += 1;
            }
            let since_last_push: u64 = if counter == 0 {
                0
            } else {
                5
            };
            distributor.push(batch.as_slice(), Elapsed::Millis(since_last_push));
        }
        let ghost before = distributor@;
        proof {
            let c = counter as int;
            if c >= 5 {
                assert(before.rate == measured);
                assert(before.excess_unit == 5_000_000 || c == 5);
            }
            if c == 5 {
                assert(before.excess == 0);
                assert(before.aligned() == 0);
            } else if c > 5 {
                assert(before.aligned() == before.excess) by (nonlinear_arith)
                    requires
                        before.excess_unit == before.rate.nanos,
                        before.rate.nanos > 0,
                        before.aligned() == before.excess * before.rate.nanos
                            / before.excess_unit,
                ;
            } else if c > 0 {
                assert(before.aligned() == before.excess) by (nonlinear_arith)
                    requires
                        before.excess_unit == before.rate.nanos,
                        before.rate.nanos > 0,
                        before.aligned() == before.excess * before.rate.nanos
                            / before.excess_unit,
                ;
            } else {
                assert(before.aligned() == 0);
            }
        }
        let data = distributor.pop(Elapsed::Millis(1));
        let queued = distributor.clone_buffer().len();
        proof {
            let c = counter as int;
            assert(!before.overflows(1_000_000));
            assert(data@.len() == expected_tick(c).0);
            assert(queued == expected_tick(c).1);
        }
        r.push((data.len(), queued));
        counter += 1;
    }
    r
}

} // verus!
