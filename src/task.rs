use crate::keygen::{bytes_content, random_bytes, seeded_rng, KeyGenerator};
use crate::limiter::SharedLimiter;
use bytes::Bytes;
use rand_xorshift::XorShiftRng;
use vstd::prelude::*;

verus! {

/// Operations issued between two admissions by the rate limiter.
pub const WRITE_BATCH: u64 = 4;

/// Options handed to the store with every write.
#[derive(Debug, Clone, Copy, PartialEq, Eq)]
pub struct WriteOptions {
    /// Whether a write returns only once it is durable.
    pub await_flush: bool,
}

/// The limits that end a writer task. Each is independent; an absent limit
/// never triggers.
#[derive(Debug, Clone, Copy, PartialEq, Eq)]
pub struct StopConditions {
    /// Cap on the rows written by all tasks of the run together.
    pub num_rows: Option<u64>,
    /// Cap on the time since the task started, in milliseconds.
    pub duration_ms: Option<u64>,
}

/// Whether a configured limit has been reached.
pub open spec fn stop_reached(c: StopConditions, elapsed_ms: int, rows_total: int) -> bool {
    ||| (c.duration_ms is Some && elapsed_ms >= c.duration_ms->0)
    ||| (c.num_rows is Some && rows_total >= c.num_rows->0)
}

pub fn should_stop(c: &StopConditions, elapsed_ms: u64, rows_total: u64) -> (r: bool)
    ensures
        r == stop_reached(*c, elapsed_ms as int, rows_total as int),
{
    let timed_out = match c.duration_ms {
        Some(d) => elapsed_ms >= d,
        None => false,
    };
    let capped = match c.num_rows {
        Some(n) => rows_total >= n,
        None => false,
    };
    timed_out || capped
}

/// Where a writer task stands.
#[derive(Debug, Clone, Copy, PartialEq, Eq)]
pub enum TaskPhase {
    /// Between batches: the next event checks the stop conditions.
    Idle,
    /// Waiting for the rate limiter to admit the next batch.
    Admitting,
    /// `done` writes of the current batch have completed; one is in flight.
    Writing { done: u64 },
    /// A stop condition was reached.
    Stopped,
    /// A write failed; the task does no more work.
    Failed,
}

/// What the driver of a task reports back to it.
#[derive(Debug, Clone, Copy, PartialEq, Eq)]
pub enum TaskEvent {
    /// Time to decide on a new batch: time since the task started and the
    /// rows written so far by the whole run.
    Check { elapsed_ms: u64, rows_total: u64 },
    /// The rate limiter admitted the batch.
    Admitted,
    /// The last write landed.
    WriteOk,
    /// The last write failed.
    WriteFailed,
}

/// What the driver of a task must do next.
pub enum TaskAction {
    /// Finish the task successfully.
    Stop,
    /// Wait for the rate limiter to admit `permits` operations.
    Acquire { permits: u64 },
    /// Write `value` under `key`, then report how it went.
    Write { key: Bytes, value: Vec<u8> },
    /// The batch is complete: add `rows` to the run's row counter.
    Commit { rows: u64 },
    /// Finish the task with the failure of the last write.
    Fail,
}

/// Whether `phase` expects `ev` next.
pub open spec fn accepts(phase: TaskPhase, ev: TaskEvent) -> bool {
    match phase {
        TaskPhase::Idle => ev is Check,
        TaskPhase::Admitting => ev is Admitted,
        TaskPhase::Writing { .. } => ev is WriteOk || ev is WriteFailed,
        _ => false,
    }
}

/// A finished task: it stopped or failed.
pub open spec fn is_terminal(phase: TaskPhase) -> bool {
    phase is Stopped || phase is Failed
}

/// The phase that follows `phase` on `ev`, for a task with stop conditions `c`,
/// throttled by a rate limiter exactly when `throttled`.
pub open spec fn phase_after(phase: TaskPhase, ev: TaskEvent, c: StopConditions, throttled: bool) -> TaskPhase {
    match (phase, ev) {
        (TaskPhase::Idle, TaskEvent::Check { elapsed_ms, rows_total }) => {
            if stop_reached(c, elapsed_ms as int, rows_total as int) {
                TaskPhase::Stopped
            } else if throttled {
                TaskPhase::Admitting
            } else {
                TaskPhase::Writing { done: 0 }
            }
        },
        (TaskPhase::Admitting, TaskEvent::Admitted) => TaskPhase::Writing { done: 0 },
        (TaskPhase::Writing { done }, TaskEvent::WriteOk) => {
            if done + 1 < WRITE_BATCH {
                TaskPhase::Writing { done: (done + 1) as u64 }
            } else {
                TaskPhase::Idle
            }
        },
        (TaskPhase::Writing { .. }, TaskEvent::WriteFailed) => TaskPhase::Failed,
        _ => phase,
    }
}

/// The action that leads into `next`: each phase is entered by one kind of
/// action only. Written keys and values have the configured lengths.
pub open spec fn action_fits(a: TaskAction, next: TaskPhase, key_len: nat, val_size: nat) -> bool {
    match a {
        TaskAction::Stop => next is Stopped,
        TaskAction::Acquire { permits } => next is Admitting && permits == WRITE_BATCH,
        TaskAction::Write { key, value } => {
            &&& next is Writing
            &&& bytes_content(key).len() == key_len
            &&& value@.len() == val_size
        },
        TaskAction::Commit { rows } => next is Idle && rows == WRITE_BATCH,
        TaskAction::Fail => next is Failed,
    }
}

/// One writer task: it owns its key generator and value source, and shares the
/// run's rate limiter. The driver feeds it events and carries out its actions.
pub struct WriteTask<K: KeyGenerator> {
    key_generator: K,
    val_rng: XorShiftRng,
    val_size: usize,
    write_options: WriteOptions,
    stop: StopConditions,
    rate_limiter: Option<SharedLimiter>,
    phase: TaskPhase,
}

impl<K: KeyGenerator> WriteTask<K> {
    pub closed spec fn phase(&self) -> TaskPhase {
        self.phase
    }

    /// The rate limiter the task waits on, if any.
    pub closed spec fn limiter(&self) -> Option<SharedLimiter> {
        self.rate_limiter
    }

    /// The task's own key generator.
    pub closed spec fn key_generator(&self) -> K {
        self.key_generator
    }

    pub open spec fn throttled(&self) -> bool {
        self.limiter() is Some
    }

    pub closed spec fn stop_conditions(&self) -> StopConditions {
        self.stop
    }

    pub closed spec fn val_size(&self) -> nat {
        self.val_size as nat
    }

    pub closed spec fn key_len(&self) -> nat {
        self.key_generator.key_len()
    }

    pub closed spec fn options(&self) -> WriteOptions {
        self.write_options
    }

    pub fn new(
        key_generator: K,
        val_size: usize,
        write_options: WriteOptions,
        stop: StopConditions,
        rate_limiter: Option<SharedLimiter>,
    ) -> (r: Self)
        ensures
            r.phase() == TaskPhase::Idle,
            r.limiter() == rate_limiter,
            r.key_generator() == key_generator,
            r.throttled() == rate_limiter is Some,
            r.stop_conditions() == stop,
            r.val_size() == val_size,
            r.key_len() == key_generator.key_len(),
            r.options() == write_options,
    {
        WriteTask {
            key_generator,
            val_rng: seeded_rng(),
            val_size,
            write_options,
            stop,
            rate_limiter,
            phase: TaskPhase::Idle,
        }
    }

    pub fn current_phase(&self) -> (r: TaskPhase)
        ensures
            r == self.phase(),
    {
        self.phase
    }

    pub fn rate_limiter(&self) -> (r: &Option<SharedLimiter>)
        ensures
            *r == self.limiter(),
    {
        &self.rate_limiter
    }

    pub fn write_options(&self) -> (r: WriteOptions)
        ensures
            r == self.options(),
    {
        self.write_options
    }

    /// Whether the task expects `ev` next.
    pub fn accepts(&self, ev: TaskEvent) -> (r: bool)
        ensures
            r == accepts(self.phase(), ev),
    {
        match (self.phase, ev) {
            (TaskPhase::Idle, TaskEvent::Check { .. }) => true,
            (TaskPhase::Admitting, TaskEvent::Admitted) => true,
            (TaskPhase::Writing { .. }, TaskEvent::WriteOk) => true,
            (TaskPhase::Writing { .. }, TaskEvent::WriteFailed) => true,
            _ => false,
        }
    }

    fn next_write(&mut self) -> (r: TaskAction)
        ensures
            r matches TaskAction::Write { key, value } && bytes_content(key).len() == old(self).key_len()
                && value@.len() == old(self).val_size(),
            final(self).phase == old(self).phase,
            final(self).rate_limiter == old(self).rate_limiter,
            final(self).stop == old(self).stop,
            final(self).val_size == old(self).val_size,
            final(self).write_options == old(self).write_options,
            final(self).key_len() == old(self).key_len(),
    {
        let key = self.key_generator.next_key();
        let value = random_bytes(&mut self.val_rng, self.val_size);
        TaskAction::Write { key, value }
    }

    /// Advances the task on `ev` and says what to do next.
    ///
    /// The stop conditions are checked only between batches, never during one;
    /// a batch asks the rate limiter for admission only when there is one; a
    /// failed write ends the task and its batch is not counted.
    pub fn step(&mut self, ev: TaskEvent) -> (r: TaskAction)
        requires
            accepts(old(self).phase(), ev),
        ensures
            final(self).phase() == phase_after(
                old(self).phase(),
                ev,
                old(self).stop_conditions(),
                old(self).throttled(),
            ),
            action_fits(r, final(self).phase(), old(self).key_len(), old(self).val_size()),
            !old(self).throttled() ==> !(r is Acquire),
            final(self).limiter() == old(self).limiter(),
            final(self).stop_conditions() == old(self).stop_conditions(),
            final(self).val_size() == old(self).val_size(),
            final(self).key_len() == old(self).key_len(),
            final(self).options() == old(self).options(),
    {
        match ev {
            TaskEvent::Check { elapsed_ms, rows_total } => {
                if should_stop(&self.stop, elapsed_ms, rows_total) {
                    self.phase = TaskPhase::Stopped;
                    TaskAction::Stop
                } else if self.rate_limiter.is_some() {
                    self.phase = TaskPhase::Admitting;
                    TaskAction::Acquire { permits: WRITE_BATCH }
                } else {
                    self.phase = TaskPhase::Writing { done: 0 };
                    self.next_write()
                }
            },
            TaskEvent::Admitted => {
                self.phase = TaskPhase::Writing { done: 0 };
                self.next_write()
            },
            TaskEvent::WriteOk => {
                let done = match self.phase {
                    TaskPhase::Writing { done } => done,
                    _ => 0,
                };
                if done < WRITE_BATCH - 1 {
                    self.phase = TaskPhase::Writing { done: done + 1 };
                    self.next_write()
                } else {
                    self.phase = TaskPhase::Idle;
                    TaskAction::Commit { rows: WRITE_BATCH }
                }
            },
            TaskEvent::WriteFailed => {
                self.phase = TaskPhase::Failed;
                TaskAction::Fail
            },
        }
    }
}

} // verus!

verus! {

/// With a time limit and no row cap, a task stops at a check exactly when the
/// limit has passed: never before it, and at the first check after it.
pub proof fn lemma_deadline_stop(d: u64, throttled: bool, elapsed_ms: u64, rows_total: u64)
    ensures
        phase_after(
            TaskPhase::Idle,
            TaskEvent::Check { elapsed_ms, rows_total },
            StopConditions { num_rows: None, duration_ms: Some(d) },
            throttled,
        ) is Stopped <==> elapsed_ms >= d,
{
}

/// A task without a rate limiter never waits for admission, whatever it is fed.
pub proof fn lemma_unthrottled_never_admits(p: TaskPhase, ev: TaskEvent, c: StopConditions)
    requires
        !(p is Admitting),
    ensures
        !(phase_after(p, ev, c, false) is Admitting),
{
}

} // verus!
