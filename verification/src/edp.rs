use vstd::prelude::*;

verus! {

/// Number of worker threads.
pub const WORKERS: usize = 4;

/// Number of tasks each worker runs.
pub const TASKS_PER_WORKER: usize = 25;

/// Number of tasks in all.
pub const TOTAL_TASKS: usize = 100;

/// The number of the `step`-th task of worker `worker` (numbers start at 1).
pub open spec fn task_number(worker: int, step: int) -> int {
    worker * TASKS_PER_WORKER + step + 1
}

/// The number of the `step`-th task of worker `worker`.
pub fn task_id(worker: usize, step: usize) -> (id: usize)
    requires
        worker * TASKS_PER_WORKER + step + 1 <= usize::MAX,
    ensures
        id == task_number(worker as int, step as int),
{
    worker * TASKS_PER_WORKER + step + 1
}

/// How long task `id` works, in milliseconds: 20 plus the last decimal
/// digit of its number.
pub fn task_millis(id: usize) -> (ms: u64)
    ensures
        ms == 20 + id % 10,
{
    20 + (id % 10) as u64
}

/// The sum of a sequence of durations.
pub open spec fn seq_sum(s: Seq<usize>) -> int
    decreases s.len(),
{
    if s.len() == 0 {
        0
    } else {
        seq_sum(s.drop_last()) + s.last()
    }
}

/// The largest of a sequence of durations (0 for none).
pub open spec fn seq_max(s: Seq<usize>) -> int
    decreases s.len(),
{
    if s.len() == 0 {
        0
    } else if seq_max(s.drop_last()) < s.last() {
        s.last() as int
    } else {
        seq_max(s.drop_last())
    }
}

/// Three counters shared by the workers: tasks done, total time taken and
/// the longest single time. Counters wrap around as atomic additions do.
///
/// Each counter is updated by its own step, so a reading taken between a
/// worker's steps sees a task only partly recorded.
pub struct TaskStats {
    done: usize,
    total: usize,
    peak: usize,
}

/// What the watching thread reports from one reading of the counters.
#[derive(Debug, PartialEq, Eq)]
pub enum Progress {
    /// Every task is done; the watcher stops.
    Finished,
    /// No task is done yet.
    Waiting,
    /// Some tasks are done: how many, their total and average time, and the
    /// longest.
    Working { done: usize, total: usize, average: usize, peak: usize },
}

impl TaskStats {
    /// Tasks done.
    pub closed spec fn done(self) -> usize {
        self.done
    }

    /// Total time taken.
    pub closed spec fn total(self) -> usize {
        self.total
    }

    /// Longest single time.
    pub closed spec fn peak(self) -> usize {
        self.peak
    }

    /// All counters at zero.
    pub closed spec fn zero() -> TaskStats {
        TaskStats { done: 0, total: 0, peak: 0 }
    }

    /// The counters once all three updates for one task that took
    /// `time_taken` are done.
    pub closed spec fn after_record(self, time_taken: usize) -> TaskStats {
        TaskStats {
            done: self.done.wrapping_add(1),
            total: self.total.wrapping_add(time_taken),
            peak: if self.peak < time_taken {
                time_taken
            } else {
                self.peak
            },
        }
    }

    /// The counters after `time_taken` is added to the total.
    pub closed spec fn after_add_time(self, time_taken: usize) -> TaskStats {
        TaskStats { total: self.total.wrapping_add(time_taken), ..self }
    }

    /// The counters after one more task is counted.
    pub closed spec fn after_add_done(self) -> TaskStats {
        TaskStats { done: self.done.wrapping_add(1), ..self }
    }

    /// The counters after the peak is raised to `time_taken` if larger.
    pub closed spec fn after_raise_peak(self, time_taken: usize) -> TaskStats {
        TaskStats {
            peak: if self.peak < time_taken {
                time_taken
            } else {
                self.peak
            },
            ..self
        }
    }

    /// The counters after each time of `times` is recorded, in order.
    pub closed spec fn replay(self, times: Seq<usize>) -> TaskStats
        decreases times.len(),
    {
        if times.len() == 0 {
            self
        } else {
            self.replay(times.drop_last()).after_record(times.last())
        }
    }

    /// Counters at zero.
    pub fn new() -> (s: TaskStats)
        ensures
            s == TaskStats::zero(),
            s.done() == 0 && s.total() == 0 && s.peak() == 0,
    {
        TaskStats { done: 0, total: 0, peak: 0 }
    }

    /// Adds `time_taken` to the total, wrapping around: the first of a
    /// worker's three separate updates after a task.
    pub fn add_time(&mut self, time_taken: usize)
        ensures
            *final(self) == old(self).after_add_time(time_taken),
            final(self).total() == old(self).total().wrapping_add(time_taken),
            final(self).done() == old(self).done(),
            final(self).peak() == old(self).peak(),
    {
        self.total = self.total.wrapping_add(time_taken);
    }

    /// Adds one to the count of tasks done, wrapping around.
    pub fn add_done(&mut self)
        ensures
            *final(self) == old(self).after_add_done(),
            final(self).done() == old(self).done().wrapping_add(1),
            final(self).total() == old(self).total(),
            final(self).peak() == old(self).peak(),
    {
        self.done = self.done.wrapping_add(1);
    }

    /// Raises the peak to `time_taken` if it is larger, as a fetch-max does.
    pub fn raise_peak(&mut self, time_taken: usize)
        ensures
            *final(self) == old(self).after_raise_peak(time_taken),
            final(self).peak() == if old(self).peak() < time_taken {
                time_taken
            } else {
                old(self).peak()
            },
            final(self).done() == old(self).done(),
            final(self).total() == old(self).total(),
    {
        if self.peak < time_taken {
            self.peak = time_taken;
        }
    }

    /// Reads the number of tasks done.
    pub fn done_count(&self) -> (n: usize)
        ensures
            n == self.done(),
    {
        self.done
    }

    /// Reads the total time.
    pub fn total_time(&self) -> (t: usize)
        ensures
            t == self.total(),
    {
        self.total
    }

    /// Reads the longest time.
    pub fn peak_time(&self) -> (t: usize)
        ensures
            t == self.peak(),
    {
        self.peak
    }
}

/// The report for one reading of the counters: `Finished` once all
/// `TOTAL_TASKS` are done, `Waiting` before the first, and otherwise the
/// count, total, average (total divided by count) and peak.
pub fn progress(done: usize, total: usize, peak: usize) -> (p: Progress)
    ensures
        done == TOTAL_TASKS ==> p is Finished,
        done == 0 ==> p is Waiting,
        done != TOTAL_TASKS && done != 0 ==> p == (Progress::Working {
            done,
            total,
            average: total / done,
            peak,
        }),
{
    if done == TOTAL_TASKS {
        Progress::Finished
    } else if done == 0 {
        Progress::Waiting
    } else {
        Progress::Working { done, total, average: total / done, peak }
    }
}

/// The three updates of one task, done in either order the workers use
/// (time, count, peak; or count, time, peak), leave the counters as one
/// complete record. Between the steps a reading sees the task only partly:
/// after one task of 10, a second task of 100 whose time is added before
/// its count and peak gives one task, total 110 and peak 10, an average
/// above the peak.
pub proof fn lemma_steps_make_a_record(s: TaskStats, time_taken: usize)
    ensures
        s.after_add_time(time_taken).after_add_done().after_raise_peak(time_taken)
            == s.after_record(time_taken),
        s.after_add_done().after_add_time(time_taken).after_raise_peak(time_taken)
            == s.after_record(time_taken),
        TaskStats::zero().after_record(10).after_add_time(100).done() == 1,
        TaskStats::zero().after_record(10).after_add_time(100).total() == 110,
        TaskStats::zero().after_record(10).after_add_time(100).peak() == 10,
{
}

/// Every task number from 1 to `TOTAL_TASKS` is given to exactly one
/// (worker, step) pair, and different pairs get different numbers.
pub proof fn lemma_task_numbers_cover(id: int, w1: int, s1: int, w2: int, s2: int)
    requires
        0 <= w1 < WORKERS,
        0 <= s1 < TASKS_PER_WORKER,
        0 <= w2 < WORKERS,
        0 <= s2 < TASKS_PER_WORKER,
    ensures
        1 <= id <= TOTAL_TASKS ==> {
            let w = (id - 1) / TASKS_PER_WORKER as int;
            let s = (id - 1) % TASKS_PER_WORKER as int;
            &&& 0 <= w < WORKERS
            &&& 0 <= s < TASKS_PER_WORKER
            &&& task_number(w, s) == id
        },
        1 <= task_number(w1, s1) <= TOTAL_TASKS,
        task_number(w1, s1) == task_number(w2, s2) ==> w1 == w2 && s1 == s2,
{
}

proof fn lemma_sum_bounded_by_max(s: Seq<usize>)
    ensures
        0 <= seq_sum(s) <= s.len() * seq_max(s),
        seq_max(s) >= 0,
        forall|i: int| 0 <= i < s.len() ==> s[i] <= seq_max(s),
    decreases s.len(),
{
    if s.len() > 0 {
        let p = s.drop_last();
        lemma_sum_bounded_by_max(p);
        assert(p.len() * seq_max(p) <= p.len() * seq_max(s)) by (nonlinear_arith)
            requires
                seq_max(p) <= seq_max(s),
                p.len() >= 0,
        ;
        assert(s.len() * seq_max(s) == p.len() * seq_max(s) + seq_max(s)) by (nonlinear_arith)
            requires
                s.len() == p.len() + 1,
        ;
        assert forall|i: int| 0 <= i < s.len() implies s[i] <= seq_max(s) by {
            if i < p.len() {
                assert(s[i] == p[i]);
            }
        }
    }
}

/// The average never exceeds the peak: for any non-empty history of task
/// times, their sum divided by their count is at most the longest, and
/// every single time is at most the longest.
pub proof fn lemma_average_within_peak(times: Seq<usize>)
    requires
        times.len() > 0,
    ensures
        seq_sum(times) / (times.len() as int) <= seq_max(times),
        forall|i: int| 0 <= i < times.len() ==> times[i] <= seq_max(times),
{
    lemma_sum_bounded_by_max(times);
    let n = times.len() as int;
    let t = seq_sum(times);
    let m = seq_max(times);
    assert(t / n <= m) by (nonlinear_arith)
        requires
            0 <= t <= n * m,
            n > 0,
    ;
}

/// Recording a history of task times from zero counts the tasks, sums
/// their times and keeps the longest, as long as the sum does not wrap.
pub proof fn lemma_replay_counts(times: Seq<usize>)
    requires
        seq_sum(times) <= usize::MAX,
        times.len() <= usize::MAX,
    ensures
        TaskStats::zero().replay(times).done() == times.len(),
        TaskStats::zero().replay(times).total() == seq_sum(times),
        TaskStats::zero().replay(times).peak() == seq_max(times),
    decreases times.len(),
{
    if times.len() > 0 {
        let p = times.drop_last();
        lemma_sum_bounded_by_max(p);
        lemma_replay_counts(p);
    }
}

} // verus!
