use sgxtop::{GlobalSnapshot, Memory, RateTracker};

fn snapshot(alloced: u64, freed: u64, ewb: u64, eldu: u64, freed_backing: u64) -> GlobalSnapshot {
    GlobalSnapshot {
        created: 5,
        released: 2,
        pages_alloced: Memory(alloced),
        pages_freed: Memory(freed),
        total_epc: Memory(4000),
        va_pages: Memory(40),
        free_pages: Memory(800),
        ewb_cnt: Memory(ewb),
        eldu_cnt: Memory(eldu),
        freed_backing: Memory(freed_backing),
    }
}

#[test]
fn first_sample_reports_zero_whatever_the_value() {
    let mut t = RateTracker::new();
    let r = t.observe(&snapshot(123456, 999, 777, 555, 0));
    assert_eq!(r.eadd, Memory(0));
    assert_eq!(r.eremove, Memory(0));
    assert_eq!(r.ewb, Memory(0));
    assert_eq!(r.eldu, Memory(0));
}

#[test]
fn second_sample_reports_the_delta() {
    let mut t = RateTracker::new();
    t.observe(&snapshot(400, 200, 120, 80, 20));
    let r = t.observe(&snapshot(600, 200, 140, 90, 20));
    assert_eq!(r.eadd, Memory(200));
    assert_eq!(r.eremove, Memory(0));
    assert_eq!(r.ewb, Memory(20));
    assert_eq!(r.eldu, Memory(10));
}

#[test]
fn counter_reset_reports_zero_not_a_wrap() {
    let mut t = RateTracker::new();
    t.observe(&snapshot(1000, 1000, 1000, 1000, 0));
    let r = t.observe(&snapshot(1, 2, 3, 4, 0));
    assert_eq!(r.eadd, Memory(0));
    assert_eq!(r.eremove, Memory(0));
    assert_eq!(r.ewb, Memory(0));
    assert_eq!(r.eldu, Memory(0));
}

#[test]
fn swap_backlog_is_zero_on_the_first_tick() {
    let mut t = RateTracker::new();
    let r = t.observe(&snapshot(0, 0, 500, 100, 100));
    assert_eq!(r.swap_backlog, Memory(0));
}

#[test]
fn swap_backlog_after_the_first_tick() {
    let mut t = RateTracker::new();
    t.observe(&snapshot(0, 0, 0, 0, 0));
    let r = t.observe(&snapshot(0, 0, 500, 100, 150));
    assert_eq!(r.swap_backlog, Memory(250));
}

#[test]
fn swap_backlog_clamps_at_zero() {
    let mut t = RateTracker::new();
    t.observe(&snapshot(0, 0, 0, 0, 0));
    let r = t.observe(&snapshot(0, 0, 100, 300, 0));
    assert_eq!(r.swap_backlog, Memory(0));
}
