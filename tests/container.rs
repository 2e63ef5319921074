use std::cell::RefCell;
use std::rc::Rc;

use chrono::{TimeZone, Utc};
use di::{DependencyContainerImpl, Fetch, Print, Printer, RealFetcher, Timestamp, Worker};

const DAY: i64 = 86_400_000_000_000;

#[derive(Clone)]
struct Recorder(Rc<RefCell<Vec<String>>>);

impl Print for Recorder {
    fn print(&self, data: &str) {
        self.0.borrow_mut().push(data.to_string());
    }
}

fn at(nanos: i64) -> Timestamp {
    Timestamp { nanos }
}

fn may_14_2024_22h() -> Timestamp {
    let d = Utc.with_ymd_and_hms(2024, 5, 14, 22, 0, 0).unwrap();
    at(d.timestamp_nanos_opt().unwrap())
}

fn target(p: &Printer) -> Option<String> {
    match p {
        Printer::Console(_) => None,
        Printer::File(f) => Some(f.file().to_string()),
    }
}

#[test]
fn fetcher_reports_start_of_day() {
    let f = RealFetcher::new(may_14_2024_22h());
    assert_eq!(f.fetch(), "2024-05-14T00:00:00+00:00");
}

#[test]
fn fetcher_before_epoch_goes_to_earlier_midnight() {
    let f = RealFetcher::new(at(-1));
    assert_eq!(f.fetch(), "1969-12-31T00:00:00+00:00");
    let g = RealFetcher::new(at(0));
    assert_eq!(g.fetch(), "1970-01-01T00:00:00+00:00");
}

#[test]
fn fetchers_in_one_day_are_equal() {
    let t = may_14_2024_22h();
    assert!(RealFetcher::new(t) == RealFetcher::new(at(t.nanos - 3_600_000_000_000)));
    assert!(RealFetcher::new(t) != RealFetcher::new(at(t.nanos + DAY)));
}

#[test]
fn scoped_value_is_shared_by_clones() {
    let (c, mut l) = DependencyContainerImpl::new(None);
    let first = c.fetcher_at(&mut l, may_14_2024_22h());
    let second = c.clone().fetcher_at(&mut l, at(0));
    let third = c.clone().clone().fetcher_at(&mut l, at(5 * DAY));
    assert!(first == second && second == third);
    assert_eq!(first.fetch(), "2024-05-14T00:00:00+00:00");
    assert_eq!(l.scoped_builds(), 1);
}

#[test]
fn singleton_is_shared_by_clones_and_scopes() {
    let (c, mut l) = DependencyContainerImpl::new(Some("out.txt".to_string()));
    let s = c.new_scope(&mut l);
    let a = s.printer(&mut l);
    let b = c.printer(&mut l);
    let d = c.clone().new_scope(&mut l).printer(&mut l);
    assert_eq!(target(&a), Some("out.txt".to_string()));
    assert_eq!(target(&b), Some("out.txt".to_string()));
    assert_eq!(target(&d), Some("out.txt".to_string()));
    assert_eq!(l.singleton_builds(), 1);
}

#[test]
fn each_lineage_chooses_from_its_own_configuration() {
    let (console, mut l1) = DependencyContainerImpl::new(None);
    let (filed, mut l2) = DependencyContainerImpl::new(Some("log.txt".to_string()));
    assert_eq!(target(&console.printer(&mut l1)), None);
    assert_eq!(target(&filed.printer(&mut l2)), Some("log.txt".to_string()));
    assert_eq!(l1.singleton_builds(), 1);
    assert_eq!(l2.singleton_builds(), 1);
}

#[test]
fn fetcher_from_uses_the_given_time_only_for_an_empty_slot() {
    let (c, mut l) = DependencyContainerImpl::new(None);
    assert_eq!(c.fetcher_from(&mut l, None), None);
    assert_eq!(l.scoped_builds(), 0);
    let f = c.fetcher_from(&mut l, Some(at(2 * DAY))).unwrap();
    assert_eq!(f, RealFetcher::new(at(2 * DAY)));
    assert_eq!(c.fetcher_from(&mut l, None), Some(f));
    assert_eq!(c.clone().fetcher_from(&mut l, Some(at(0))), Some(f));
    assert_eq!(l.scoped_builds(), 1);
}

#[test]
fn worker_on_filled_slots_builds_nothing() {
    let (c, mut l) = DependencyContainerImpl::new(None);
    let first = c.worker_at(&mut l, at(DAY));
    let again = c.clone().worker(&mut l).unwrap();
    assert!(first.fetcher() == again.fetcher());
    assert_eq!(l.scoped_builds(), 1);
    assert_eq!(l.singleton_builds(), 1);
}

#[test]
fn earliest_instants_are_truncated() {
    let f = RealFetcher::new(at(i64::MIN));
    assert_eq!(f.fetch(), "1677-09-21T00:00:00+00:00");
    assert_eq!(RealFetcher::new(at(i64::MAX)).fetch(), "2262-04-11T00:00:00+00:00");
}

#[test]
fn new_scope_constructs_a_fresh_scoped_value() {
    let (c, mut l) = DependencyContainerImpl::new(None);
    let p0 = c.printer(&mut l);
    let root = c.fetcher_at(&mut l, at(0));
    let s = c.new_scope(&mut l);
    assert_eq!(l.scoped_builds(), 1);
    let scoped = s.fetcher_at(&mut l, at(3 * DAY));
    assert_eq!(l.scoped_builds(), 2);
    assert!(root != scoped);
    assert_eq!(scoped.fetch(), "1970-01-04T00:00:00+00:00");
    assert_eq!(c.fetcher_at(&mut l, at(9 * DAY)), root);
    assert_eq!(target(&s.printer(&mut l)), target(&p0));
    assert_eq!(l.singleton_builds(), 1);
}

#[test]
fn transient_value_reads_the_clock_every_time() {
    let (c, mut l) = DependencyContainerImpl::new(None);
    let a = c.date_time().unwrap();
    let b = c.date_time().unwrap();
    assert!(a.nanos <= b.nanos);
    assert_eq!(l.scoped_builds(), 0);
    assert_eq!(l.singleton_builds(), 0);
    let f = c.fetcher(&mut l).unwrap();
    assert_eq!(c.fetcher(&mut l).unwrap(), f);
    assert_eq!(l.scoped_builds(), 1);
}

fn run(w: &Worker<RealFetcher, Printer>, out: &Recorder) {
    Worker::new(w.fetcher(), out.clone()).work();
}

#[test]
fn three_clones_print_through_one_printer() {
    let (c, mut l) = DependencyContainerImpl::new(None);
    let out = Recorder(Rc::new(RefCell::new(Vec::new())));
    let t = may_14_2024_22h();
    for _ in 0..3 {
        let w = c.clone().worker_at(&mut l, t);
        assert_eq!(target(w.printer()), None);
        run(&w, &out);
    }
    assert_eq!(out.0.borrow().len(), 3);
    assert!(out.0.borrow().iter().all(|s| s == "2024-05-14T00:00:00+00:00"));
    assert_eq!(l.singleton_builds(), 1);
    assert_eq!(l.scoped_builds(), 1);
}

#[test]
fn two_scopes_construct_two_scoped_values_and_one_singleton() {
    let (c, mut l) = DependencyContainerImpl::new(None);
    let d2 = c.new_scope(&mut l);
    let d3 = c.new_scope(&mut l);
    let a = d2.worker_at(&mut l, at(DAY));
    let b = d2.worker_at(&mut l, at(2 * DAY));
    let e = d3.worker_at(&mut l, at(2 * DAY));
    let f = d3.worker_at(&mut l, at(DAY));
    assert_eq!(l.scoped_builds(), 2);
    assert_eq!(l.singleton_builds(), 1);
    assert!(a.fetcher() == b.fetcher());
    assert!(e.fetcher() == f.fetcher());
    assert_eq!(a.fetcher().fetch(), "1970-01-02T00:00:00+00:00");
    assert_eq!(e.fetcher().fetch(), "1970-01-03T00:00:00+00:00");
}

#[test]
fn worker_from_the_clock() {
    let (c, mut l) = DependencyContainerImpl::new(None);
    let w = c.worker(&mut l).unwrap();
    let again = c.clone().worker(&mut l).unwrap();
    assert!(w.fetcher() == again.fetcher());
    assert_eq!(l.scoped_builds(), 1);
    assert_eq!(l.singleton_builds(), 1);
}

