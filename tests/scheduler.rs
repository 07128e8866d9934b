use imissmono::cache::PresenceCache;
use imissmono::presence::{PresenceState, VideoRecord, VideoStatus};
use imissmono::scheduler::{Action, FetchError, Scheduler, Trigger};

const SEC: i64 = 1000;

fn records() -> Vec<VideoRecord> {
    vec![VideoRecord { id: "v1".to_string(), status: VideoStatus::Past, published_at: Some(42) }]
}

#[test]
fn cache_starts_unknown() {
    let c = PresenceCache::new(500);
    assert!(matches!(c.read(), PresenceState::Unknown));
    assert_eq!(c.computed_at(), 500);
}

#[test]
fn store_at_replaces_state_and_time() {
    let mut c = PresenceCache::new(500);
    c.store_at(PresenceState::Live { video_id: "x".to_string() }, 900);
    assert!(matches!(c.read(), PresenceState::Live { video_id } if video_id == "x"));
    assert_eq!(c.computed_at(), 900);
    assert!(c.computed_at() > 500);
}

#[test]
fn store_uses_current_time() {
    let mut c = PresenceCache::new(0);
    c.store(PresenceState::NotLive { last_live: 7 });
    assert!(matches!(c.read(), PresenceState::NotLive { last_live: 7 }));
    assert!(c.computed_at() > 0);
}

#[test]
fn successful_refresh_is_stored() {
    let mut s = Scheduler::new(60 * SEC, 0);
    assert_eq!(s.trigger(Trigger::Periodic, 5 * SEC), Action::Fetch);
    assert!(s.is_refreshing());
    assert!(s.complete(Ok(records()), 6 * SEC).is_ok());
    assert!(!s.is_refreshing());
    assert_eq!(s.computed_at(), 6 * SEC);
    assert!(matches!(s.read(), PresenceState::NotLive { last_live: 42 }));
}

#[test]
fn failed_fetch_keeps_cache() {
    let mut s = Scheduler::new(60 * SEC, 0);
    s.trigger(Trigger::Periodic, SEC);
    s.complete(Ok(records()), 2 * SEC).unwrap();
    assert_eq!(s.trigger(Trigger::Periodic, 70 * SEC), Action::Fetch);
    let err = s.complete(Err(FetchError { message: "rate limited".to_string() }), 71 * SEC);
    assert_eq!(err.unwrap_err().message, "rate limited");
    assert_eq!(s.computed_at(), 2 * SEC);
    assert!(matches!(s.read(), PresenceState::NotLive { last_live: 42 }));
    assert!(!s.is_refreshing());
}

#[test]
fn on_demand_within_threshold_skips() {
    let mut s = Scheduler::new(60 * SEC, 0);
    s.trigger(Trigger::Periodic, 0);
    s.complete(Ok(records()), 100 * SEC).unwrap();
    assert_eq!(s.trigger(Trigger::OnDemand, 110 * SEC), Action::Skip);
    assert!(!s.is_refreshing());
    assert_eq!(s.computed_at(), 100 * SEC);
}

#[test]
fn on_demand_after_threshold_fetches_once() {
    let mut s = Scheduler::new(60 * SEC, 0);
    s.trigger(Trigger::Periodic, 0);
    s.complete(Ok(records()), 100 * SEC).unwrap();
    assert_eq!(s.trigger(Trigger::OnDemand, 161 * SEC), Action::Fetch);
    assert_eq!(s.trigger(Trigger::OnDemand, 161 * SEC), Action::Skip);
    assert_eq!(s.trigger(Trigger::Periodic, 162 * SEC), Action::Skip);
    s.complete(Ok(vec![]), 163 * SEC).unwrap();
    assert!(matches!(s.read(), PresenceState::Unknown));
}

#[test]
fn threshold_is_strict() {
    let s = Scheduler::new(60 * SEC, 0);
    assert!(!s.is_stale(60 * SEC));
    assert!(s.is_stale(60 * SEC + 1));
}

#[test]
fn staleness_at_time_extremes() {
    let s = Scheduler::new(60 * SEC, i64::MIN);
    assert!(s.is_stale(i64::MAX));
    let t = Scheduler::new(0, i64::MAX);
    assert!(!t.is_stale(i64::MIN));
}
