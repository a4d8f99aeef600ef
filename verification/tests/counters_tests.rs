use atomics_lab::prac::{
    bump_below_limit, comp, sp, Counter32, GuardedTally, IdCounter, ID_LIMIT, NAME_LIMIT,
};

#[test]
fn sp_runs() {
    sp();
}

#[test]
fn comp_duration() {
    assert_eq!(comp(4), 124);
    assert_eq!(comp(0), 0);
}

#[test]
fn ids_come_in_order_until_limit() {
    let mut c = IdCounter::new();
    let mut expected = 1u64;
    while let Some(id) = c.claim() {
        assert_eq!(id, expected);
        expected += 1;
    }
    assert_eq!(expected, ID_LIMIT);
    assert_eq!(c.load(), ID_LIMIT);
    assert_eq!(c.claim(), None);
}

#[test]
fn id_compare_exchange_fails_on_mismatch() {
    let mut c = IdCounter::new();
    assert_eq!(c.compare_exchange(5, 6), Err(1));
    assert_eq!(c.compare_exchange(1, 2), Ok(1));
    assert_eq!(c.load(), 2);
}

#[test]
fn bump_stops_at_limit() {
    assert_eq!(bump_below_limit(0), Some(1));
    assert_eq!(bump_below_limit(NAME_LIMIT - 1), Some(NAME_LIMIT));
    assert_eq!(bump_below_limit(NAME_LIMIT), None);
}

#[test]
fn fetch_update_counts_to_limit_then_errs() {
    let mut c = Counter32::new(0);
    for i in 0..NAME_LIMIT {
        assert_eq!(c.fetch_update_below_limit(), Ok(i));
    }
    assert_eq!(c.fetch_update_below_limit(), Err(NAME_LIMIT));
    assert_eq!(c.load(), NAME_LIMIT);
}

#[test]
fn fetch_adds_in_any_order_reach_same_total() {
    let mut a = Counter32::new(10);
    let mut b = Counter32::new(10);
    for _ in 0..100 {
        a.fetch_add(20);
    }
    for _ in 0..100 {
        a.fetch_add(120);
    }
    for _ in 0..100 {
        b.fetch_add(120);
        b.fetch_add(20);
    }
    assert_eq!(a.load(), 14010);
    assert_eq!(b.load(), 14010);
}

#[test]
fn fetch_add_wraps() {
    let mut c = Counter32::new(u32::MAX);
    assert_eq!(c.fetch_add(2), u32::MAX);
    assert_eq!(c.load(), 1);
}

#[test]
fn compare_exchange_increment() {
    let mut c = Counter32::new(10);
    let cur = c.load();
    assert_eq!(c.compare_exchange(cur, cur + 1), Ok(10));
    assert_eq!(c.compare_exchange(cur, cur + 1), Err(11));
    c.store(3);
    assert_eq!(c.load(), 3);
}

#[test]
fn guarded_tally_visits() {
    let mut t = GuardedTally::new(10);
    for _ in 0..100 {
        assert!(t.visit());
    }
    assert_eq!(t.read(), 1010);
    t.hold();
    assert!(!t.visit());
    assert_eq!(t.read(), 1010);
    assert!(t.visit());
    assert_eq!(t.read(), 1020);
}
