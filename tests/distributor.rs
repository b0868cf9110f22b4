use audioviz::distributor::{DataRate, Distributor, Elapsed, MAX_MICROS};
use std::time::{Duration, Instant};

/// Waits until at least `millis` milliseconds have passed.
fn wait_millis(millis: u64) {
    let start = Instant::now();
    while start.elapsed() < Duration::from_millis(millis) {
        std::hint::spin_loop();
    }
}

#[test]
fn distributor() {
    let estimated_data_rate = DataRate::per_second(8 * 1000 / 5);
    let mut distributor: Distributor<u128> = Distributor::new(estimated_data_rate);

    let mut counter: u128 = 0;
    loop {
        if counter % 5 == 0 {
            let mut buffer: Vec<u128> = Vec::new();
            for _ in 0..=8 {
                buffer.push(0);
            }
            distributor.push_auto(&buffer);
        }

        let data = distributor.pop_auto();
        let buf_len = distributor.clone_buffer().len();

        // the rate is known after two pushes
        if counter >= 10 {
            assert!(data.len() > 0);
            assert!(buf_len <= 16);
        }

        counter += 1;
        wait_millis(1);

        if counter > 100 {
            break;
        }
    }
}

#[test]
fn pop_auto_restarts_its_clock() {
    let mut distributor: Distributor<u32> = Distributor::new(DataRate::per_second(1000));
    distributor.push(&(0..1000).collect::<Vec<u32>>(), Elapsed::Millis(0));
    distributor.pop_auto();
    wait_millis(50);
    // at least fifty milliseconds owe at least fifty elements
    let first = distributor.pop_auto();
    assert!(first.len() >= 50);
    assert_eq!(first[0], 0);
    // right away, far less is owed
    let second = distributor.pop_auto();
    assert!(second.len() < first.len());
}

#[test]
fn push_auto_restarts_its_clock() {
    let mut distributor: Distributor<u32> = Distributor::new(DataRate::per_second(1000));
    distributor.push_auto(&[0]);
    wait_millis(50);
    distributor.push_auto(&[1; 5]);
    let slow = distributor.data_rate();
    assert_eq!(slow.elements, 5);
    assert!(slow.nanos >= 50_000_000);
    wait_millis(2);
    distributor.push_auto(&[2; 5]);
    let fast = distributor.data_rate();
    // measured from the second push, not the first
    assert!(fast.nanos < 50_000_000);
}

#[test]
fn distributor_fixed_ticks() {
    // 1600 elements per second estimated, a tick every millisecond and a
    // push of nine elements every fifth tick
    let estimated_data_rate = DataRate::per_second(8 * 1000 / 5);
    let mut distributor: Distributor<u128> = Distributor::new(estimated_data_rate);

    let mut counter: u128 = 0;
    loop {
        if counter % 5 == 0 {
            let mut buffer: Vec<u128> = Vec::new();
            for _ in 0..=8 {
                buffer.push(0);
            }
            let since_last_push = if counter == 0 { 0 } else { 5 };
            distributor.push(&buffer, Elapsed::Millis(since_last_push));
        }

        let data = distributor.pop(Elapsed::Millis(1));
        let buf_len = distributor.clone_buffer().len();

        // the rate is known after two pushes
        if counter >= 10 {
            assert!(data.len() > 0);
            assert!(buf_len <= 16);
        }

        counter += 1;
        if counter > 100 {
            break;
        }
    }
}

#[test]
fn seeded_rate_twenty_ticks_per_second() {
    // 12.8 elements per second, 20 ticks per second, nine elements every
    // fifth tick
    let rate = DataRate { elements: 64, nanos: 5_000_000_000 };
    let mut distributor: Distributor<u32> = Distributor::new(rate);
    for tick in 0..100u32 {
        if tick % 5 == 0 {
            let batch: Vec<u32> = (tick..tick + 9).collect();
            let since = if tick == 0 { 0 } else { 250 };
            distributor.push(&batch, Elapsed::Millis(since));
        }
        let data = distributor.pop(Elapsed::Micros(50_000));
        if tick >= 10 {
            assert!(!data.is_empty());
            assert!(distributor.clone_buffer().len() <= 16);
        }
    }
}

#[test]
fn first_pops_follow_the_estimate() {
    let rate = DataRate { elements: 64, nanos: 5_000_000_000 };
    let mut distributor: Distributor<u32> = Distributor::new(rate);
    distributor.push(&(0..9).collect::<Vec<u32>>(), Elapsed::Millis(0));
    // 0.64 elements owed: nothing yet
    assert_eq!(distributor.pop(Elapsed::Millis(50)), Vec::<u32>::new());
    // 1.28 owed in all: one element, the oldest
    assert_eq!(distributor.pop(Elapsed::Millis(50)), vec![0]);
    assert_eq!(distributor.clone_buffer(), vec![1, 2, 3, 4, 5, 6, 7, 8]);
}

#[test]
fn second_push_measures_the_rate() {
    let mut distributor: Distributor<u8> = Distributor::new(DataRate::per_second(10));
    distributor.push(&[1, 2, 3], Elapsed::Millis(7));
    assert_eq!(distributor.data_rate(), DataRate::per_second(10));
    distributor.push(&[4, 5, 6, 7], Elapsed::Micros(2_000));
    assert_eq!(distributor.data_rate(), DataRate { elements: 4, nanos: 2_000_000 });
    assert_eq!(distributor.clone_buffer(), vec![1, 2, 3, 4, 5, 6, 7]);
    // four elements every two milliseconds
    assert_eq!(distributor.pop(Elapsed::Nanos(1_000_000)), vec![1, 2]);
    assert_eq!(distributor.pop(Elapsed::Nanos(500_000)), vec![3]);
}

#[test]
fn push_without_elapsed_time_keeps_the_rate() {
    let mut distributor: Distributor<u8> = Distributor::new(DataRate::per_second(10));
    distributor.push(&[1], Elapsed::Millis(3));
    distributor.push(&[2], Elapsed::Nanos(0));
    assert_eq!(distributor.data_rate(), DataRate::per_second(10));
}

#[test]
fn pop_hands_out_whole_queue_when_short() {
    let mut distributor: Distributor<u8> = Distributor::new(DataRate::per_second(1000));
    distributor.push(&[9, 8, 7], Elapsed::Millis(0));
    assert_eq!(distributor.pop(Elapsed::Millis(1000)), vec![9, 8, 7]);
    assert!(distributor.clone_buffer().is_empty());
}

#[test]
fn no_drift_over_many_cycles() {
    let mut distributor: Distributor<u64> = Distributor::new(DataRate::per_second(1600));
    let mut pushed: u64 = 0;
    let mut popped: u64 = 0;
    for tick in 0..10_000u64 {
        if tick % 5 == 0 {
            let batch: Vec<u64> = vec![tick; 9];
            let since = if tick == 0 { 0 } else { 5 };
            distributor.push(&batch, Elapsed::Millis(since));
            pushed += 9;
        }
        popped += distributor.pop(Elapsed::Millis(1)).len() as u64;
        if tick % 5 == 4 {
            assert!(pushed - popped <= 1);
        }
    }
}

#[test]
fn fractions_are_carried_between_pops() {
    // one element every three milliseconds, popped every millisecond
    let mut distributor: Distributor<u32> =
        Distributor::new(DataRate { elements: 1, nanos: 3_000_000 });
    distributor.push(&(0..100).collect::<Vec<u32>>(), Elapsed::Millis(0));
    let mut total = 0;
    for _ in 0..300 {
        total += distributor.pop(Elapsed::Millis(1)).len();
    }
    assert_eq!(total, 100);
}

#[test]
fn safety_valve_bounds_the_queue() {
    // far more arrives than the estimate hands out
    let mut distributor: Distributor<u32> = Distributor::new(DataRate::per_second(10));
    for round in 0..50u32 {
        let batch: Vec<u32> = (0..1000).map(|i| round * 1000 + i).collect();
        distributor.push(&batch, Elapsed::Millis(0));
        distributor.pop(Elapsed::Millis(10));
        assert!(distributor.clone_buffer().len() <= 2000);
    }
}

#[test]
fn safety_valve_keeps_the_newest_requested() {
    let mut distributor: Distributor<u32> = Distributor::new(DataRate::per_second(1000));
    distributor.push(&(0..10).collect::<Vec<u32>>(), Elapsed::Millis(0));
    distributor.push(&[10, 11], Elapsed::Nanos(0));
    // three owed: 0, 1, 2 go out; nine are left, over twice the last push
    // of two, so only the newest three stay
    assert_eq!(distributor.pop(Elapsed::Millis(3)), vec![0, 1, 2]);
    assert_eq!(distributor.clone_buffer(), vec![9, 10, 11]);
    assert_eq!(distributor.dropped(), 6);
    // the next pop drops nothing
    distributor.pop(Elapsed::Millis(1));
    assert_eq!(distributor.dropped(), 0);
}

#[test]
fn clear_empties_the_queue() {
    let mut distributor: Distributor<u8> = Distributor::new(DataRate::per_second(5));
    distributor.push(&[1, 2, 3], Elapsed::Millis(0));
    distributor.clear();
    assert!(distributor.clone_buffer().is_empty());
    assert_eq!(distributor.data_rate(), DataRate::per_second(5));
}

#[test]
fn automatic_timing_keeps_order() {
    let mut distributor: Distributor<u8> = Distributor::new(DataRate::per_second(1));
    distributor.push_auto(&[1, 2, 3]);
    let out = distributor.pop_auto();
    let mut all = out.clone();
    all.extend(distributor.clone_buffer());
    assert_eq!(all, vec![1, 2, 3]);
}

#[test]
fn elapsed_in_nanoseconds() {
    assert_eq!(Elapsed::Nanos(17).as_nanos(), 17);
    assert_eq!(Elapsed::Micros(17).as_nanos(), 17_000);
    assert_eq!(Elapsed::Millis(17).as_nanos(), 17_000_000);
}

#[test]
fn elapsed_caps_at_the_largest_u64() {
    assert_eq!(Elapsed::Nanos(u128::MAX).as_nanos(), u64::MAX);
    assert_eq!(Elapsed::Micros(MAX_MICROS).as_nanos(), 18_446_744_073_709_551_000);
    assert_eq!(Elapsed::Micros(MAX_MICROS + 1).as_nanos(), u64::MAX);
    assert_eq!(Elapsed::Millis(u64::MAX).as_nanos(), u64::MAX);
}

#[test]
fn huge_elapsed_hands_out_the_whole_queue() {
    let mut distributor: Distributor<u8> = Distributor::new(DataRate::per_second(1));
    distributor.push(&[1, 2, 3], Elapsed::Millis(0));
    assert_eq!(distributor.pop(Elapsed::Micros(u128::MAX)), vec![1, 2, 3]);
}

#[test]
fn push_keeps_the_carried_fraction() {
    // one element every four nanoseconds: three nanoseconds owe 3/4
    let mut distributor: Distributor<u8> = Distributor::new(DataRate { elements: 1, nanos: 4 });
    distributor.push(&[0; 10], Elapsed::Nanos(0));
    assert!(distributor.pop(Elapsed::Nanos(3)).is_empty());
    // the rate becomes one element every two nanoseconds
    distributor.push(&[1], Elapsed::Nanos(2));
    assert_eq!(distributor.data_rate(), DataRate { elements: 1, nanos: 2 });
    // 3/4 carried plus 1/2 owed: one element
    assert_eq!(distributor.pop(Elapsed::Nanos(1)), vec![0]);
}

#[test]
fn fixed_run_hands_out_every_tick() {
    let run = audioviz::distributor::unittest::test();
    assert_eq!(run.len(), 101);
    for (tick, (handed_out, queued)) in run.iter().enumerate() {
        if tick >= 10 {
            assert!(*handed_out > 0);
            assert!(*queued <= 16);
        }
    }
    assert_eq!(run[0..5], [(1, 8), (2, 6), (1, 5), (2, 3), (2, 1)]);
    assert_eq!(run[95..100], [(1, 9), (2, 7), (2, 5), (2, 3), (2, 1)]);
}

#[test]
fn whole_periods_hand_out_what_was_pushed() {
    let mut distributor: Distributor<u8> = Distributor::new(DataRate::per_second(1600));
    distributor.push(&[0; 9], Elapsed::Millis(0));
    distributor.push(&[1; 9], Elapsed::Millis(5));
    let mut total = 0;
    for _ in 0..5 {
        total += distributor.pop(Elapsed::Millis(1)).len();
    }
    assert_eq!(total, 9);
    assert_eq!(distributor.clone_buffer(), vec![1; 9]);
}
