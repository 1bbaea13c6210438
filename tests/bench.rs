use db_bench::bench::{first_failure, ConfigError, DbBench};
use db_bench::keygen::{KeyDistribution, KeyGenSupplier, KeyGenerator, RandomKeyGenerator};
use db_bench::limiter::{limiter_settings, rate_limiter_for, LimiterSettings};
use db_bench::metrics::{Counter, Metrics};
use db_bench::task::{
    should_stop, StopConditions, TaskAction, TaskEvent, TaskPhase, WriteOptions, WriteTask,
    WRITE_BATCH,
};
use db_bench::keygen::DistKeyGenerator;
use std::collections::HashSet;

fn bench(
    key_len: usize,
    val_len: usize,
    rate: Option<u32>,
    tasks: u32,
    rows: Option<u64>,
    duration_ms: Option<u64>,
) -> DbBench {
    DbBench::new(
        KeyGenSupplier::new(KeyDistribution::Random, key_len),
        val_len,
        WriteOptions { await_flush: false },
        rate,
        tasks,
        rows,
        duration_ms,
    )
    .unwrap()
}

/// Drives one task against an in-memory store until it ends; returns whether it
/// failed. `fail_writes` makes every write fail.
fn drive(
    task: &mut WriteTask<DistKeyGenerator>,
    rows: &Counter,
    elapsed_ms: u64,
    fail_writes: bool,
    store: &mut Vec<(Vec<u8>, Vec<u8>)>,
    acquires: &mut u64,
) -> bool {
    let mut ev = TaskEvent::Check { elapsed_ms, rows_total: rows.get() };
    loop {
        match task.step(ev) {
            TaskAction::Stop => return false,
            TaskAction::Fail => return true,
            TaskAction::Acquire { permits } => {
                assert_eq!(permits, WRITE_BATCH);
                *acquires += 1;
                ev = TaskEvent::Admitted;
            }
            TaskAction::Write { key, value } => {
                if fail_writes {
                    ev = TaskEvent::WriteFailed;
                } else {
                    store.push((key.to_vec(), value));
                    ev = TaskEvent::WriteOk;
                }
            }
            TaskAction::Commit { rows: n } => {
                rows.add(n);
                ev = TaskEvent::Check { elapsed_ms, rows_total: rows.get() };
            }
        }
    }
}

#[test]
fn random_keys_have_the_configured_length() {
    let mut g = RandomKeyGenerator::new(16);
    for _ in 0..100 {
        assert_eq!(g.next_key().len(), 16);
    }
    let mut empty = RandomKeyGenerator::new(0);
    assert_eq!(empty.next_key().len(), 0);
}

#[test]
fn ten_thousand_random_keys_are_distinct() {
    let mut g = RandomKeyGenerator::new(16);
    let mut seen = HashSet::new();
    for _ in 0..10_000 {
        let k = g.next_key();
        assert_eq!(k.len(), 16);
        assert!(seen.insert(k));
    }
}

#[test]
fn random_keys_are_not_all_zero() {
    let mut g = RandomKeyGenerator::new(32);
    let k = g.next_key();
    assert!(k.iter().any(|b| *b != 0));
}

#[test]
fn supplied_generators_are_independent() {
    let s = KeyGenSupplier::new(KeyDistribution::Random, 8);
    let mut a = s.supply();
    let mut b = s.supply();
    assert_eq!(a.next_key().len(), 8);
    assert_ne!(a.next_key(), b.next_key());
}

#[test]
fn stop_conditions_are_independent() {
    let none = StopConditions { num_rows: None, duration_ms: None };
    assert!(!should_stop(&none, u64::MAX, u64::MAX));
    let rows = StopConditions { num_rows: Some(10), duration_ms: None };
    assert!(!should_stop(&rows, 1_000_000, 9));
    assert!(should_stop(&rows, 0, 10));
    let time = StopConditions { num_rows: None, duration_ms: Some(2000) };
    assert!(!should_stop(&time, 1999, 1_000_000));
    assert!(should_stop(&time, 2000, 0));
    let both = StopConditions { num_rows: Some(5), duration_ms: Some(100) };
    assert!(should_stop(&both, 100, 0));
    assert!(should_stop(&both, 0, 5));
    assert!(!should_stop(&both, 99, 4));
}

#[test]
fn limiter_settings_follow_the_rate() {
    assert_eq!(
        limiter_settings(1000),
        LimiterSettings { initial: 1000, max: 1000, interval_ms: 100, refill: 100 }
    );
    assert_eq!(
        limiter_settings(2500),
        LimiterSettings { initial: 2500, max: 2500, interval_ms: 40, refill: 100 }
    );
    assert_eq!(
        limiter_settings(300),
        LimiterSettings { initial: 300, max: 300, interval_ms: 334, refill: 100 }
    );
    assert_eq!(
        limiter_settings(1999),
        LimiterSettings { initial: 1999, max: 1999, interval_ms: 51, refill: 101 }
    );
    assert_eq!(
        limiter_settings(200_000),
        LimiterSettings { initial: 200_000, max: 200_000, interval_ms: 1, refill: 200 }
    );
    assert_eq!(
        limiter_settings(1),
        LimiterSettings { initial: 1, max: 1, interval_ms: 1000, refill: 1 }
    );
    assert_eq!(
        limiter_settings(u32::MAX),
        LimiterSettings {
            initial: u32::MAX as usize,
            max: u32::MAX as usize,
            interval_ms: 1,
            refill: (u32::MAX / 1000) as usize
        }
    );
}

#[test]
fn limiter_pace_stays_within_one_percent_below_the_rate() {
    for rate in [1u32, 7, 99, 100, 101, 333, 999, 1000, 1001, 1999, 12_345, 99_999, 1_000_000] {
        let s = limiter_settings(rate);
        let per_sec = s.refill as u64 * 1000;
        let want = rate as u64 * s.interval_ms;
        assert!(per_sec <= want, "rate {}", rate);
        assert!(per_sec * 100 >= 99 * want, "rate {}", rate);
    }
}

#[test]
fn rate_limiter_is_built_from_the_settings() {
    assert!(rate_limiter_for(None).is_none());
    let shared = rate_limiter_for(Some(5000)).unwrap();
    assert_eq!(shared.settings(), limiter_settings(5000));
    let l = shared.limiter();
    assert_eq!(l.max(), 5000);
    assert_eq!(l.balance(), 5000);
    assert_eq!(l.refill(), 100);
    assert_eq!(l.interval(), std::time::Duration::from_millis(20));
    let slow = rate_limiter_for(Some(50)).unwrap();
    assert_eq!(slow.limiter().refill(), 50);
    assert_eq!(slow.limiter().interval(), std::time::Duration::from_millis(1000));
    let again = shared.share();
    assert!(std::sync::Arc::ptr_eq(shared.limiter(), again.limiter()));
}

#[test]
fn zero_write_rate_is_refused() {
    let r = DbBench::new(
        KeyGenSupplier::new(KeyDistribution::Random, 16),
        100,
        WriteOptions { await_flush: true },
        Some(0),
        4,
        None,
        None,
    );
    assert_eq!(r, Err(ConfigError::ZeroWriteRate));
}

#[test]
fn one_task_per_writer_sharing_the_limiter() {
    let b = bench(16, 100, Some(1000), 4, Some(100), None);
    let tasks = b.write_task_set();
    assert_eq!(tasks.len(), 4);
    let first = tasks[0].rate_limiter().as_ref().unwrap().limiter();
    for t in &tasks {
        assert_eq!(t.current_phase(), TaskPhase::Idle);
        let l = t.rate_limiter().as_ref().unwrap();
        assert!(std::sync::Arc::ptr_eq(first, l.limiter()));
        assert_eq!(l.settings(), limiter_settings(1000));
    }
    let unthrottled = bench(16, 100, None, 2, None, None).write_task_set();
    assert!(unthrottled.iter().all(|t| t.rate_limiter().is_none()));
}

#[test]
fn single_writer_reaches_the_row_cap() {
    let b = bench(16, 100, None, 1, Some(1000), None);
    let mut tasks = b.write_task_set();
    let rows = Counter::new();
    let mut store = Vec::new();
    let mut acquires = 0;
    assert!(!drive(&mut tasks[0], &rows, 0, false, &mut store, &mut acquires));
    assert_eq!(rows.get(), 1000);
    assert_eq!(store.len(), 1000);
    assert!(store.iter().all(|(k, v)| k.len() == 16 && v.len() == 100));
    assert_eq!(acquires, 0);
    assert_eq!(tasks[0].current_phase(), TaskPhase::Stopped);
}

#[test]
fn interleaved_writers_overshoot_by_at_most_one_batch_each() {
    let cap = 10u64;
    let b = bench(4, 4, None, 3, Some(cap), None);
    let mut tasks = b.write_task_set();
    let rows = Counter::new();
    let mut evs: Vec<TaskEvent> = (0..3)
        .map(|_| TaskEvent::Check { elapsed_ms: 0, rows_total: 0 })
        .collect();
    let mut done = [false; 3];
    while done.iter().any(|d| !d) {
        for i in 0..3 {
            if done[i] {
                continue;
            }
            if let TaskEvent::Check { elapsed_ms, .. } = evs[i] {
                evs[i] = TaskEvent::Check { elapsed_ms, rows_total: rows.get() };
            }
            evs[i] = match tasks[i].step(evs[i]) {
                TaskAction::Stop => {
                    done[i] = true;
                    evs[i]
                }
                TaskAction::Write { .. } => TaskEvent::WriteOk,
                TaskAction::Commit { rows: n } => {
                    rows.add(n);
                    TaskEvent::Check { elapsed_ms: 0, rows_total: rows.get() }
                }
                TaskAction::Acquire { .. } | TaskAction::Fail => unreachable!(),
            };
        }
    }
    assert!(rows.get() >= cap);
    assert!(rows.get() < cap + 3 * WRITE_BATCH);
}

#[test]
fn deadline_stops_only_once_reached() {
    let b = bench(8, 8, None, 1, None, Some(2000));
    let mut tasks = b.write_task_set();
    let t = &mut tasks[0];
    match t.step(TaskEvent::Check { elapsed_ms: 1999, rows_total: 500 }) {
        TaskAction::Write { .. } => {}
        _ => panic!("expected a write before the deadline"),
    }
    for _ in 0..3 {
        t.step(TaskEvent::WriteOk);
    }
    match t.step(TaskEvent::WriteOk) {
        TaskAction::Commit { rows } => assert_eq!(rows, 4),
        _ => panic!("expected the batch to be committed"),
    }
    assert!(matches!(
        t.step(TaskEvent::Check { elapsed_ms: 2000, rows_total: 504 }),
        TaskAction::Stop
    ));
}

#[test]
fn unthrottled_task_never_acquires() {
    let b = bench(8, 8, None, 1, Some(400), None);
    let mut tasks = b.write_task_set();
    let rows = Counter::new();
    let mut store = Vec::new();
    let mut acquires = 0;
    drive(&mut tasks[0], &rows, 0, false, &mut store, &mut acquires);
    assert_eq!(acquires, 0);
    assert_eq!(rows.get(), 400);
}

#[test]
fn throttled_task_acquires_once_per_batch() {
    let b = bench(8, 8, Some(1000), 1, Some(40), None);
    let mut tasks = b.write_task_set();
    let rows = Counter::new();
    let mut store = Vec::new();
    let mut acquires = 0;
    drive(&mut tasks[0], &rows, 0, false, &mut store, &mut acquires);
    assert_eq!(acquires, 10);
    assert_eq!(rows.get(), 40);
}

#[test]
fn failing_store_ends_the_task_with_nothing_counted() {
    let b = bench(16, 100, None, 2, None, None);
    let mut tasks = b.write_task_set();
    let rows = Counter::new();
    let mut store = Vec::new();
    let mut acquires = 0;
    let mut outcomes: Vec<Result<(), usize>> = Vec::new();
    for (i, t) in tasks.iter_mut().enumerate() {
        let failed = drive(t, &rows, 0, true, &mut store, &mut acquires);
        assert!(failed);
        assert_eq!(t.current_phase(), TaskPhase::Failed);
        outcomes.push(if failed { Err(i) } else { Ok(()) });
    }
    assert_eq!(rows.get(), 0);
    assert!(store.is_empty());
    assert_eq!(first_failure(outcomes), Err(0));
}

#[test]
fn first_failure_picks_the_earliest_error() {
    assert_eq!(first_failure::<&str>(vec![]), Ok(()));
    assert_eq!(first_failure::<&str>(vec![Ok(()), Ok(())]), Ok(()));
    assert_eq!(first_failure(vec![Ok(()), Err("a"), Err("b")]), Err("a"));
}

#[test]
fn counters_count() {
    let c = Counter::new();
    assert_eq!(c.get(), 0);
    assert_eq!(c.inc(), 0);
    assert_eq!(c.inc(), 1);
    assert_eq!(c.add(4), 2);
    assert_eq!(c.get(), 6);
    let shared = c.clone();
    shared.inc();
    assert_eq!(c.get(), 7);
    assert_eq!(Counter::default().get(), 0);
    let m = Metrics::new();
    assert_eq!(m.immutable_memtable_flushes.get(), 0);
    assert_eq!(m.rows_written.get(), 0);
}

#[test]
fn four_rate_limited_writers_for_two_seconds() {
    let rt = tokio::runtime::Builder::new_multi_thread().enable_all().build().unwrap();
    let b = bench(16, 100, Some(1000), 4, None, Some(2000));
    let tasks = b.write_task_set();
    let rows = Counter::new();
    let start = std::time::Instant::now();
    rt.block_on(async {
        let mut handles = Vec::new();
        for mut t in tasks {
            let rows = rows.clone();
            handles.push(tokio::spawn(async move {
                let begun = std::time::Instant::now();
                let mut ev = TaskEvent::Check { elapsed_ms: 0, rows_total: rows.get() };
                loop {
                    let action = t.step(ev);
                    ev = match action {
                        TaskAction::Stop => return,
                        TaskAction::Fail => panic!("no write fails here"),
                        TaskAction::Acquire { permits } => {
                            let l = t.rate_limiter().as_ref().unwrap().limiter().clone();
                            l.acquire(permits as usize).await;
                            TaskEvent::Admitted
                        }
                        TaskAction::Write { .. } => TaskEvent::WriteOk,
                        TaskAction::Commit { rows: n } => {
                            rows.add(n);
                            TaskEvent::Check {
                                elapsed_ms: begun.elapsed().as_millis() as u64,
                                rows_total: rows.get(),
                            }
                        }
                    };
                }
            }));
        }
        for h in handles {
            h.await.unwrap();
        }
    });
    let took = start.elapsed().as_millis();
    assert!(took >= 2000, "took {} ms", took);
    assert!(took < 2600, "took {} ms", took);
    // A full bucket, the rate over the run, one more refill tick (100 tokens),
    // and one batch in flight per task.
    let bound = 1000 + took as u64 + 100 + 4 * WRITE_BATCH;
    assert!(rows.get() <= bound, "{} rows", rows.get());
    assert!(rows.get() >= 1000);
}
