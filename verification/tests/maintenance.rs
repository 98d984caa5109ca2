use zingat::data::{ClipRecord, ClipStore};
use zingat::domain::maintenance::Maintenance;
use zingat::lifecycle::Phase;
use zingat::{ShortCode, Time};

fn record(code: &str, expires: Option<i64>) -> ClipRecord {
    ClipRecord { shortcode: ShortCode::new(code), hits: 0, expires: expires.map(Time::from_timestamp) }
}

#[test]
fn sweep_deletes_exactly_what_has_expired() {
    let now = Time::from_timestamp(1_000);
    let mut store = ClipStore::new();
    store.insert(record("before", Some(999))).unwrap();
    store.insert(record("at_now", Some(1_000))).unwrap();
    store.insert(record("after0", Some(1_001))).unwrap();
    store.insert(record("never0", None)).unwrap();
    assert_eq!(store.delete_expired(&now), 2);
    assert_eq!(store.len(), 2);
    assert_eq!(store.position(&ShortCode::new("before")), None);
    assert_eq!(store.position(&ShortCode::new("at_now")), None);
    assert_eq!(store.position(&ShortCode::new("after0")), Some(0));
    assert_eq!(store.position(&ShortCode::new("never0")), Some(1));
}

#[test]
fn sweep_of_an_empty_store_deletes_nothing() {
    let mut store = ClipStore::new();
    assert_eq!(store.delete_expired(&Time::from_timestamp(0)), 0);
    assert_eq!(store.len(), 0);
}

#[test]
fn sweep_keeps_hits_of_what_stays() {
    let mut store = ClipStore::new();
    store.insert(record("gone00", Some(5))).unwrap();
    store.insert(record("stays0", Some(50))).unwrap();
    store.increment_hits(&ShortCode::new("stays0"), 9).unwrap();
    assert_eq!(store.delete_expired(&Time::from_timestamp(10)), 1);
    assert_eq!(store.hits(&ShortCode::new("stays0")), Some(9));
    assert_eq!(store.hits(&ShortCode::new("gone00")), None);
}

#[test]
fn expired_clip_goes_within_one_interval_and_later_one_stays() {
    let start: i64 = 10_000;
    let mut store = ClipStore::new();
    store.insert(record("old000", Some(start - 1))).unwrap();
    store.insert(record("fresh0", Some(start + 3600))).unwrap();

    let mut schedule = Maintenance::new(60);
    assert!(schedule.start(&Time::from_timestamp(start)));
    assert!(schedule.poll(&Time::from_timestamp(start + 59)).is_none());
    assert_eq!(store.len(), 2);

    let mut sweeps = 0;
    for tick in 1..=5 {
        let now = Time::from_timestamp(start + 60 * tick);
        let cutoff = schedule.poll(&now).unwrap();
        assert_eq!(cutoff.timestamp(), start + 60 * tick);
        let deleted = store.delete_expired(&cutoff);
        assert_eq!(deleted, if tick == 1 { 1 } else { 0 });
        sweeps += 1;
        assert_eq!(store.position(&ShortCode::new("old000")), None);
        assert_eq!(store.position(&ShortCode::new("fresh0")), Some(0));
    }
    assert_eq!(sweeps, 5);
}

#[test]
fn sweep_is_due_once_per_interval() {
    let mut schedule = Maintenance::new(60);
    schedule.start(&Time::from_timestamp(0));
    assert!(schedule.poll(&Time::from_timestamp(60)).is_some());
    assert!(schedule.poll(&Time::from_timestamp(60)).is_none());
    assert!(schedule.poll(&Time::from_timestamp(119)).is_none());
    assert!(schedule.poll(&Time::from_timestamp(120)).is_some());
}

#[test]
fn schedule_at_the_end_of_time_does_not_wrap() {
    let mut schedule = Maintenance::new(u32::MAX);
    schedule.start(&Time::from_timestamp(i64::MAX - 1));
    assert!(schedule.poll(&Time::from_timestamp(i64::MAX - 1)).is_none());
    assert!(schedule.poll(&Time::from_timestamp(i64::MAX)).is_some());
}

#[test]
fn schedule_that_is_not_running_asks_for_no_sweep() {
    let mut schedule = Maintenance::new(1);
    assert_eq!(schedule.current_phase(), Phase::Created);
    assert!(schedule.poll(&Time::from_timestamp(100)).is_none());
    assert!(!schedule.shutdown());
    assert_eq!(schedule.current_phase(), Phase::Stopped);
    assert!(!schedule.start(&Time::from_timestamp(0)));
}

#[test]
fn shutdown_owes_one_last_sweep() {
    let mut schedule = Maintenance::new(1);
    schedule.start(&Time::from_timestamp(0));
    assert!(schedule.shutdown());
    assert_eq!(schedule.current_phase(), Phase::Stopping);
    assert!(schedule.poll(&Time::from_timestamp(100)).is_none());
    assert!(!schedule.shutdown());
    schedule.finish();
    assert_eq!(schedule.current_phase(), Phase::Stopped);
    schedule.finish();
    assert_eq!(schedule.current_phase(), Phase::Stopped);
}

#[test]
fn one_wake_up_sweeps_when_due() {
    let mut store = ClipStore::new();
    store.insert(record("old000", Some(99))).unwrap();
    store.insert(record("edge00", Some(160))).unwrap();
    store.insert(record("fresh0", Some(3_700))).unwrap();
    let mut schedule = Maintenance::new(60);
    schedule.start(&Time::from_timestamp(100));
    assert_eq!(schedule.sweep(&mut store, &Time::from_timestamp(130)), None);
    assert_eq!(store.len(), 3);
    assert_eq!(schedule.sweep(&mut store, &Time::from_timestamp(160)), Some(2));
    assert_eq!(schedule.sweep(&mut store, &Time::from_timestamp(161)), None);
    assert_eq!(schedule.sweep(&mut store, &Time::from_timestamp(220)), Some(0));
    assert_eq!(store.len(), 1);
    assert_eq!(store.position(&ShortCode::new("fresh0")), Some(0));
}
