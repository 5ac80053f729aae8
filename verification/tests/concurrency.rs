use std::sync::atomic::AtomicBool;
use std::sync::atomic::AtomicUsize;
use std::sync::atomic::Ordering;
use std::time::Duration;
use std::time::Instant;

use mpmc_queue::MpmcQueue;

/// Busy-waits for roughly `millis` milliseconds.
fn short_delay(millis: u64) {
    let start = Instant::now();
    while start.elapsed() < Duration::from_millis(millis) {
        std::hint::spin_loop();
    }
}

#[test]
fn basic_test() {
    let queue: MpmcQueue<u64> = MpmcQueue::new();
    let mut received: Vec<u64> = Vec::new();
    crossbeam_utils::thread::scope(|s| {
        s.spawn(|_| {
            for i in 0u64..5 {
                queue.push(i);
                println!("Pushed {}", i);
                short_delay(100);
            }
        });
        for _ in 0u64..5 {
            let value: u64 = queue.pop().unwrap();
            println!("Popped {}", value);
            received.push(value);
        }
    })
    .unwrap();
    assert_eq!(received, vec![0, 1, 2, 3, 4]);
}

#[test]
fn pop_blocks_until_push() {
    let queue: MpmcQueue<u32> = MpmcQueue::new();
    let returned: AtomicBool = AtomicBool::new(false);
    crossbeam_utils::thread::scope(|s| {
        let consumer = s.spawn(|_| {
            let value: Option<u32> = queue.pop();
            returned.store(true, Ordering::SeqCst);
            value
        });
        short_delay(80);
        assert!(
            !returned.load(Ordering::SeqCst),
            "pop returned from an empty queue before any push"
        );
        queue.push(7);
        assert_eq!(consumer.join().unwrap(), Some(7));
    })
    .unwrap();
}

#[test]
fn no_lost_wakeup_under_tight_races() {
    let queue: MpmcQueue<u64> = MpmcQueue::new();
    for round in 0u64..200 {
        crossbeam_utils::thread::scope(|s| {
            let consumer = s.spawn(|_| queue.pop());
            queue.push(round);
            assert_eq!(consumer.join().unwrap(), Some(round));
        })
        .unwrap();
    }
}

#[test]
fn stress_producers_and_consumers() {
    let producers: u64 = 4;
    let per_producer: u64 = 50;
    let consumers: usize = 4;
    let total: usize = (producers * per_producer) as usize;

    let queue: MpmcQueue<u64> = MpmcQueue::new();
    let claimed: AtomicUsize = AtomicUsize::new(0);
    let queue_ref = &queue;
    let claimed_ref = &claimed;

    let mut batches: Vec<Vec<u64>> = Vec::new();
    crossbeam_utils::thread::scope(|s| {
        for p in 0u64..producers {
            s.spawn(move |_| {
                for k in 0u64..per_producer {
                    queue_ref.push(p * 1000 + k);
                }
            });
        }
        let mut handles = Vec::new();
        for _ in 0..consumers {
            handles.push(s.spawn(move |_| {
                let mut taken: Vec<u64> = Vec::new();
                loop {
                    let index: usize = claimed_ref.fetch_add(1, Ordering::SeqCst);
                    if index >= total {
                        break;
                    }
                    taken.push(queue_ref.pop().unwrap());
                }
                taken
            }));
        }
        for handle in handles {
            batches.push(handle.join().unwrap());
        }
    })
    .unwrap();

    // No loss, no duplication: the popped values are exactly the pushed
    // values, with the right multiplicities.
    let mut all_popped: Vec<u64> = batches.iter().flatten().copied().collect();
    assert_eq!(all_popped.len(), total);
    all_popped.sort_unstable();
    let mut expected: Vec<u64> = Vec::new();
    for p in 0u64..producers {
        for k in 0u64..per_producer {
            expected.push(p * 1000 + k);
        }
    }
    expected.sort_unstable();
    assert_eq!(all_popped, expected);

    // FIFO per producer: each consumer sees any one producer's values in the
    // order that producer pushed them.
    for batch in &batches {
        for p in 0u64..producers {
            let from_p: Vec<u64> = batch.iter().copied().filter(|v| v / 1000 == p).collect();
            for pair in from_p.windows(2) {
                assert!(pair[0] < pair[1], "producer {} delivered out of order", p);
            }
        }
    }
}
