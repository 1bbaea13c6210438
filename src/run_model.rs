use crate::task::{accepts, phase_after, StopConditions, TaskEvent, TaskPhase, WRITE_BATCH};
use vstd::prelude::*;

verus! {

/// A run of concurrent writer tasks as seen from the shared row counter: its
/// value and the phase of each task. Tasks interleave in any order; each step
/// lets one task take the event its phase expects, as `WriteTask::step` does.
pub struct RunState {
    pub rows_total: nat,
    pub phases: Seq<TaskPhase>,
}

/// A batch is in flight: admitted or being written, not yet counted.
pub open spec fn in_flight(p: TaskPhase) -> bool {
    p is Admitting || p is Writing
}

/// Number of tasks with a batch in flight.
pub open spec fn in_flight_count(phases: Seq<TaskPhase>) -> nat
    decreases phases.len(),
{
    if phases.len() == 0 {
        0
    } else {
        in_flight_count(phases.drop_last()) + if in_flight(phases.last()) {
            1nat
        } else {
            0nat
        }
    }
}

/// The event that the task in phase `p` receives when scheduled: a check reads
/// the shared counter, an admission or a write completes. Writes never fail here.
pub open spec fn scheduled_event(p: TaskPhase, elapsed_ms: u64, rows_total: nat) -> TaskEvent {
    match p {
        TaskPhase::Idle => TaskEvent::Check { elapsed_ms, rows_total: rows_total as u64 },
        TaskPhase::Admitting => TaskEvent::Admitted,
        _ => TaskEvent::WriteOk,
    }
}

/// Task `task` takes one step at time `elapsed_ms`. A task that returns to
/// `Idle` has completed its batch and adds it to the shared counter.
pub open spec fn run_step(
    s: RunState,
    task: int,
    elapsed_ms: u64,
    c: StopConditions,
    throttled: bool,
) -> RunState {
    if 0 <= task < s.phases.len() && accepts(
        s.phases[task],
        scheduled_event(s.phases[task], elapsed_ms, s.rows_total),
    ) {
        let next = phase_after(
            s.phases[task],
            scheduled_event(s.phases[task], elapsed_ms, s.rows_total),
            c,
            throttled,
        );
        RunState {
            rows_total: s.rows_total + if next is Idle {
                WRITE_BATCH as nat
            } else {
                0nat
            },
            phases: s.phases.update(task, next),
        }
    } else {
        s
    }
}

/// The run after the steps of `schedule`, each a task and the time it acts at.
pub open spec fn run_after(
    s: RunState,
    schedule: Seq<(int, u64)>,
    c: StopConditions,
    throttled: bool,
) -> RunState
    decreases schedule.len(),
{
    if schedule.len() == 0 {
        s
    } else {
        run_step(
            run_after(s, schedule.drop_last(), c, throttled),
            schedule.last().0,
            schedule.last().1,
            c,
            throttled,
        )
    }
}

/// `tasks` tasks, none started, nothing written.
pub open spec fn run_start(tasks: nat) -> RunState {
    RunState { rows_total: 0, phases: Seq::new(tasks, |i: int| TaskPhase::Idle) }
}

proof fn lemma_in_flight_update(phases: Seq<TaskPhase>, i: int, x: TaskPhase)
    requires
        0 <= i < phases.len(),
    ensures
        in_flight_count(phases.update(i, x)) + (if in_flight(phases[i]) { 1int } else { 0int })
            == in_flight_count(phases) + (if in_flight(x) { 1int } else { 0int }),
    decreases phases.len(),
{
    let u = phases.update(i, x);
    if i == phases.len() - 1 {
        assert(u.drop_last() =~= phases.drop_last());
    } else {
        assert(u.drop_last() =~= phases.drop_last().update(i, x));
        lemma_in_flight_update(phases.drop_last(), i, x);
    }
}

proof fn lemma_in_flight_bound(phases: Seq<TaskPhase>)
    ensures
        in_flight_count(phases) <= phases.len(),
    decreases phases.len(),
{
    if phases.len() > 0 {
        lemma_in_flight_bound(phases.drop_last());
    }
}

proof fn lemma_none_in_flight(n: nat)
    ensures
        in_flight_count(Seq::new(n, |i: int| TaskPhase::Idle)) == 0,
    decreases n,
{
    if n > 0 {
        assert(Seq::new(n, |i: int| TaskPhase::Idle).drop_last() =~= Seq::new(
            (n - 1) as nat,
            |i: int| TaskPhase::Idle,
        ));
        lemma_none_in_flight((n - 1) as nat);
    }
}

/// What holds at every point of a run capped at `cap` rows.
spec fn capped_run_inv(s: RunState, cap: nat, tasks: nat) -> bool {
    &&& s.phases.len() == tasks
    &&& s.rows_total + WRITE_BATCH * in_flight_count(s.phases) < cap + WRITE_BATCH * tasks
    &&& forall|i: int| 0 <= i < tasks && (#[trigger] s.phases[i]) is Stopped ==> s.rows_total >= cap
    &&& forall|i: int| 0 <= i < tasks ==> !((#[trigger] s.phases[i]) is Failed)
}

proof fn lemma_capped_run_inv(
    cap: u64,
    throttled: bool,
    tasks: nat,
    schedule: Seq<(int, u64)>,
)
    requires
        tasks >= 1,
        cap + WRITE_BATCH * tasks <= u64::MAX,
    ensures
        capped_run_inv(
            run_after(
                run_start(tasks),
                schedule,
                StopConditions { num_rows: Some(cap), duration_ms: None },
                throttled,
            ),
            cap as nat,
            tasks,
        ),
    decreases schedule.len(),
{
    let c = StopConditions { num_rows: Some(cap), duration_ms: None };
    if schedule.len() == 0 {
        lemma_none_in_flight(tasks);
    } else {
        lemma_capped_run_inv(cap, throttled, tasks, schedule.drop_last());
        let s = run_after(run_start(tasks), schedule.drop_last(), c, throttled);
        let task = schedule.last().0;
        let elapsed_ms = schedule.last().1;
        let s2 = run_step(s, task, elapsed_ms, c, throttled);
        if 0 <= task < s.phases.len() {
            let p = s.phases[task];
            let ev = scheduled_event(p, elapsed_ms, s.rows_total);
            if accepts(p, ev) {
                let next = phase_after(p, ev, c, throttled);
                lemma_in_flight_update(s.phases, task, next);
                if p is Idle {
                    assert(!in_flight(p));
                    if !(s.rows_total >= cap) {
                        lemma_in_flight_update(s.phases, task, TaskPhase::Admitting);
                        lemma_in_flight_bound(s.phases.update(task, TaskPhase::Admitting));
                        assert(in_flight_count(s.phases) + 1 <= tasks);
                    }
                }
                assert(forall|i: int|
                    0 <= i < tasks && i != task ==> s2.phases[i] == s.phases[i]);
            }
        }
    }
}

/// In a run capped at `cap` rows, with no time limit and no failing write, the
/// rows written by `tasks` concurrent tasks together stay below `cap` plus one
/// batch per task, however the tasks interleave; and once every task has
/// stopped, at least `cap` rows have been written.
pub proof fn lemma_row_cap_bounds(
    cap: u64,
    throttled: bool,
    tasks: nat,
    schedule: Seq<(int, u64)>,
)
    requires
        tasks >= 1,
        cap + WRITE_BATCH * tasks <= u64::MAX,
    ensures
        ({
            let s = run_after(
                run_start(tasks),
                schedule,
                StopConditions { num_rows: Some(cap), duration_ms: None },
                throttled,
            );
            &&& s.rows_total < cap + WRITE_BATCH * tasks
            &&& (forall|i: int| 0 <= i < tasks ==> (#[trigger] s.phases[i]) is Stopped)
                ==> s.rows_total >= cap
        }),
{
    lemma_capped_run_inv(cap, throttled, tasks, schedule);
    let s = run_after(
        run_start(tasks),
        schedule,
        StopConditions { num_rows: Some(cap), duration_ms: None },
        throttled,
    );
    if forall|i: int| 0 <= i < tasks ==> (#[trigger] s.phases[i]) is Stopped {
        assert(s.phases[0] is Stopped);
    }
}

} // verus!
