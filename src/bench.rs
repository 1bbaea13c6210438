use crate::keygen::{DistKeyGenerator, KeyGenSupplier, KeyGenerator};
use crate::limiter::{rate_limiter_for, settings_spec, SharedLimiter};
use crate::task::{StopConditions, TaskPhase, WriteOptions, WriteTask};
use vstd::prelude::*;

verus! {

/// A configuration that cannot start a run.
#[derive(Debug, Clone, Copy, PartialEq, Eq)]
pub enum ConfigError {
    /// A write rate of zero would admit nothing; leave the rate out to run
    /// unthrottled.
    ZeroWriteRate,
}

/// A write benchmark: `write_tasks` concurrent tasks, each with its own key
/// generator, sharing one rate limiter and one store.
#[derive(Debug, Clone, Copy, PartialEq, Eq)]
pub struct DbBench {
    pub key_gen_supplier: KeyGenSupplier,
    pub val_size: usize,
    pub write_options: WriteOptions,
    /// Target operations per second over all tasks; none runs unthrottled.
    pub write_rate: Option<u32>,
    pub write_tasks: u32,
    /// Rows to write over all tasks; none sets no cap.
    pub num_keys: Option<u64>,
    /// Run time in milliseconds; none sets no limit.
    pub duration_ms: Option<u64>,
}

impl DbBench {
    pub open spec fn wf(&self) -> bool {
        self.write_rate != Some(0u32)
    }

    pub open spec fn stop_spec(&self) -> StopConditions {
        StopConditions { num_rows: self.num_keys, duration_ms: self.duration_ms }
    }

    pub fn new(
        key_gen_supplier: KeyGenSupplier,
        val_size: usize,
        write_options: WriteOptions,
        write_rate: Option<u32>,
        write_tasks: u32,
        num_keys: Option<u64>,
        duration_ms: Option<u64>,
    ) -> (r: Result<DbBench, ConfigError>)
        ensures
            r is Err <==> write_rate == Some(0u32),
            r matches Err(e) ==> e == ConfigError::ZeroWriteRate,
            r matches Ok(b) ==> b.wf() && b == (DbBench {
                key_gen_supplier,
                val_size,
                write_options,
                write_rate,
                write_tasks,
                num_keys,
                duration_ms,
            }),
    {
        if write_rate == Some(0u32) {
            return Err(ConfigError::ZeroWriteRate);
        }
        Ok(DbBench {
            key_gen_supplier,
            val_size,
            write_options,
            write_rate,
            write_tasks,
            num_keys,
            duration_ms,
        })
    }

    pub fn stop_conditions(&self) -> (r: StopConditions)
        ensures
            r == self.stop_spec(),
    {
        StopConditions { num_rows: self.num_keys, duration_ms: self.duration_ms }
    }

    /// The tasks of one run, ready to start: each gets a fresh key generator,
    /// and all share a single rate limiter, built here when a rate is set.
    pub fn write_task_set(&self) -> (r: Vec<WriteTask<DistKeyGenerator>>)
        requires
            self.wf(),
        ensures
            r.len() == self.write_tasks,
            forall|i: int|
                0 <= i < r.len() ==> {
                    let t = #[trigger] r[i];
                    &&& t.phase() == TaskPhase::Idle
                    &&& t.throttled() == self.write_rate is Some
                    &&& (t.limiter() matches Some(l) ==> l.configured() == settings_spec(
                        self.write_rate->0 as int,
                    ))
                    &&& t.stop_conditions() == self.stop_spec()
                    &&& t.key_len() == self.key_gen_supplier.key_len
                    &&& t.val_size() == self.val_size
                    &&& t.options() == self.write_options
                },
            forall|i: int, j: int|
                0 <= i < r.len() && 0 <= j < r.len() ==> (#[trigger] r[i]).limiter() == (#[trigger] r[j]).limiter(),
    {
        let limiter = rate_limiter_for(self.write_rate);
        let stop = self.stop_conditions();
        let mut tasks: Vec<WriteTask<DistKeyGenerator>> = Vec::new();
        let mut n: u32 = 0;
        while n < self.write_tasks
            invariant
                n <= self.write_tasks,
                tasks.len() == n,
                limiter is Some == self.write_rate is Some,
                stop == self.stop_spec(),
                forall|i: int|
                    0 <= i < tasks.len() ==> {
                        let t = #[trigger] tasks[i];
                        &&& t.phase() == TaskPhase::Idle
                    &&& t.throttled() == self.write_rate is Some
                        &&& (t.limiter() matches Some(l) ==> l.configured() == settings_spec(
                            self.write_rate->0 as int,
                            ))
                        &&& t.stop_conditions() == self.stop_spec()
                        &&& t.key_len() == self.key_gen_supplier.key_len
                        &&& t.val_size() == self.val_size
                        &&& t.options() == self.write_options
                    },
                forall|i: int| 0 <= i < tasks.len() ==> (#[trigger] tasks[i]).limiter() == limiter,
                limiter matches Some(l) ==> l.configured() == settings_spec(self.write_rate->0 as int),
            decreases self.write_tasks - n,
        {
            let task = WriteTask::new(
                self.key_gen_supplier.supply(),
                self.val_size,
                self.write_options,
                stop,
                share_limiter(&limiter),
            );
            tasks.push(task);
            n = n + 1;
        }
        tasks
    }
}

/// Another handle on the same rate limiter, if there is one.
fn share_limiter(l: &Option<SharedLimiter>) -> (r: Option<SharedLimiter>)
    ensures
        r == *l,
{
    match l {
        Some(a) => Some(a.share()),
        None => None,
    }
}

/// The outcome of a run from the outcomes of its tasks, all finished: success
/// when every task succeeded, else the failure of the first task that failed.
pub fn first_failure<E>(results: Vec<Result<(), E>>) -> (r: Result<(), E>)
    ensures
        r is Ok <==> forall|i: int| 0 <= i < results.len() ==> (#[trigger] results[i]) is Ok,
        r is Err ==> exists|i: int|
            0 <= i < results.len() && r == results[i] && (forall|j: int|
                0 <= j < i ==> (#[trigger] results[j]) is Ok),
{
    let mut rest = results;
    let mut i: usize = 0;
    while i < rest.len()
        invariant
            rest@ == results@,
            i <= rest.len(),
            forall|j: int| 0 <= j < i ==> (#[trigger] results[j]) is Ok,
        decreases rest.len() - i,
    {
        if rest[i].is_err() {
            let r = rest.remove(i);
            assert(r == results[i as int] && r is Err);
            return r;
        }
        i = i + 1;
    }
    Ok(())
}

} // verus!
