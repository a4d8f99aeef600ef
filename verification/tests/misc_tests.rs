use atomics_lab::cp::{flip_and_notify, flip_and_wait};
use atomics_lab::edp::{progress, task_id, task_millis, Progress, TaskStats, TOTAL_TASKS};
use atomics_lab::mutlock::LockedText;
use atomics_lab::scheduler::{add_ten_and_check, un as sched_un, un1 as sched_un1};
use atomics_lab::seqcst::FlagPair;
use atomics_lab::uncell::{un, un1, MyCell, RefCellPlain};

#[test]
fn flips_alternate() {
    let mut f = false;
    assert!(flip_and_notify(&mut f));
    assert!(f);
    assert!(flip_and_wait(&mut f));
    assert!(!f);
    let mut g = true;
    assert!(!flip_and_notify(&mut g));
    assert!(!g);
}

#[test]
fn even_number_of_flips_restores() {
    let mut f = false;
    for _ in 0..100 {
        flip_and_notify(&mut f);
        flip_and_wait(&mut f);
    }
    assert!(!f);
}

#[test]
fn task_ids_cover_one_to_hundred() {
    let mut seen = vec![false; TOTAL_TASKS + 1];
    for t in 0..4 {
        for i in 0..25 {
            let id = task_id(t, i);
            assert!(id >= 1 && id <= TOTAL_TASKS);
            assert!(!seen[id]);
            seen[id] = true;
        }
    }
    assert!(seen[1..].iter().all(|b| *b));
    assert_eq!(task_id(0, 0), 1);
    assert_eq!(task_id(3, 24), 100);
}

#[test]
fn task_durations() {
    assert_eq!(task_millis(1), 21);
    assert_eq!(task_millis(10), 20);
    assert_eq!(task_millis(99), 29);
}

#[test]
fn stats_record_and_report() {
    let mut s = TaskStats::new();
    assert_eq!(progress(s.done_count(), s.total_time(), s.peak_time()), Progress::Waiting);
    for t in [30usize, 10, 20] {
        s.add_time(t);
        s.add_done();
        s.raise_peak(t);
    }
    assert_eq!(s.done_count(), 3);
    assert_eq!(s.total_time(), 60);
    assert_eq!(s.peak_time(), 30);
    assert_eq!(
        progress(3, 60, 30),
        Progress::Working { done: 3, total: 60, average: 20, peak: 30 }
    );
    assert_eq!(progress(TOTAL_TASKS, 60, 30), Progress::Finished);
}

#[test]
fn average_never_above_peak() {
    let mut s = TaskStats::new();
    for t in [5usize, 7, 100, 1, 1] {
        s.add_done();
        s.add_time(t);
        s.raise_peak(t);
    }
    match progress(s.done_count(), s.total_time(), s.peak_time()) {
        Progress::Working { average, peak, .. } => {
            assert_eq!(average, 22);
            assert_eq!(peak, 100);
            assert!(average <= peak);
        }
        other => panic!("unexpected {:?}", other),
    }
}

#[test]
fn stats_total_wraps() {
    let mut s = TaskStats::new();
    for t in [usize::MAX, 2] {
        s.add_time(t);
        s.add_done();
        s.raise_peak(t);
    }
    assert_eq!(s.total_time(), 1);
    assert_eq!(s.peak_time(), usize::MAX);
}

#[test]
fn locked_text_marks() {
    let mut t = LockedText::new();
    assert!(t.visit());
    assert!(t.visit());
    assert_eq!(t.data().as_str(), "!!");
    t.hold();
    assert!(!t.visit());
    assert_eq!(t.data().as_str(), "!!");
}

#[test]
fn seq_marks_once() {
    assert_eq!(atomics_lab::seqcst::seq(), "!");
}

#[test]
fn flag_pair_second_after_first_does_not_mark() {
    let mut p = FlagPair::new();
    p.first_thread();
    let mut q = FlagPair::new();
    assert!(q.first_thread());
    assert!(!q.second_thread());
    assert!(!p.second_thread());
    assert_eq!(p.into_text(), "!");
}

#[test]
fn bumps_report_from_fifth() {
    let mut x = 10;
    let reports: Vec<bool> = (0..10).map(|_| add_ten_and_check(&mut x)).collect();
    assert_eq!(x, 110);
    assert_eq!(reports, vec![false, false, false, false, true, true, true, true, true, true]);
}

#[test]
fn cells_read_back_writes() {
    assert_eq!(un(), (10, 20));
    assert_eq!(un1(), (10, 20));
    assert_eq!(sched_un(), (10, 20));
    assert_eq!(sched_un1(), (10, 20));
    let mut c = MyCell::new(3u8);
    c.set(4);
    assert_eq!(c.get(), 4);
    let mut d = RefCellPlain::new(String::from("a"));
    d.set(String::from("b"));
    assert_eq!(d.get().as_str(), "b");
}

#[test]
fn partial_record_can_show_average_above_peak() {
    let mut s = TaskStats::new();
    s.add_time(10);
    s.add_done();
    s.raise_peak(10);
    s.add_time(100);
    assert_eq!(
        progress(s.done_count(), s.total_time(), s.peak_time()),
        Progress::Working { done: 1, total: 110, average: 110, peak: 10 }
    );
    s.add_done();
    s.raise_peak(100);
    assert_eq!(
        progress(s.done_count(), s.total_time(), s.peak_time()),
        Progress::Working { done: 2, total: 110, average: 55, peak: 100 }
    );
}

#[test]
fn task_id_outside_worker_ranges() {
    assert_eq!(task_id(4, 0), 101);
    assert_eq!(task_id(0, 30), 31);
}

#[test]
fn interleaved_flag_steps_mark_at_most_once() {
    let mut p = FlagPair::new();
    p.set_a();
    p.set_b();
    assert!(!p.check_b());
    assert!(!p.check_a());
    assert_eq!(p.into_text(), "");
    let mut q = FlagPair::new();
    q.set_b();
    assert!(q.check_a());
    q.set_a();
    assert!(!q.check_b());
    assert_eq!(q.into_text(), "!");
}
