use imissmono::presence::{resolve, PresenceState, VideoRecord, VideoStatus};

fn ms(s: &str) -> i64 {
    chrono::DateTime::parse_from_rfc3339(s).unwrap().timestamp_millis()
}

fn rec(id: &str, status: VideoStatus, published_at: Option<i64>) -> VideoRecord {
    VideoRecord { id: id.to_string(), status, published_at }
}

fn is_live(s: &PresenceState, id: &str) -> bool {
    matches!(s, PresenceState::Live { video_id } if video_id == id)
}

fn is_not_live(s: &PresenceState, t: i64) -> bool {
    matches!(s, PresenceState::NotLive { last_live } if *last_live == t)
}

#[test]
fn two_past_records_give_latest() {
    let a = ms("2024-01-01T00:00:00Z");
    let b = ms("2024-02-01T00:00:00Z");
    assert_eq!(a, 1_704_067_200_000);
    assert_eq!(b, 1_706_745_600_000);
    let r = resolve(&vec![rec("a", VideoStatus::Past, Some(a)), rec("b", VideoStatus::Past, Some(b))]);
    assert!(is_not_live(&r, b));
}

#[test]
fn live_record_wins_over_past() {
    let b = ms("2024-02-01T00:00:00Z");
    let r = resolve(&vec![rec("a", VideoStatus::Live, None), rec("b", VideoStatus::Past, Some(b))]);
    assert!(is_live(&r, "a"));
}

#[test]
fn live_anywhere_in_list() {
    let r = resolve(&vec![
        rec("p", VideoStatus::Past, Some(5)),
        rec("u", VideoStatus::Upcoming, None),
        rec("l", VideoStatus::Live, Some(9)),
        rec("m", VideoStatus::Missing, Some(100)),
    ]);
    assert!(is_live(&r, "l"));
}

#[test]
fn first_live_wins() {
    let r = resolve(&vec![
        rec("x", VideoStatus::Upcoming, None),
        rec("first", VideoStatus::Live, None),
        rec("second", VideoStatus::Live, None),
    ]);
    assert!(is_live(&r, "first"));
}

#[test]
fn latest_of_three_past() {
    let t1 = ms("2023-05-01T12:00:00Z");
    let t2 = ms("2023-11-20T08:30:00Z");
    let t3 = ms("2023-07-04T00:00:00Z");
    let r = resolve(&vec![
        rec("1", VideoStatus::Past, Some(t1)),
        rec("2", VideoStatus::Past, Some(t2)),
        rec("3", VideoStatus::Past, Some(t3)),
        rec("4", VideoStatus::Upcoming, Some(t2 + 1000)),
    ]);
    assert!(is_not_live(&r, t2));
}

#[test]
fn equal_times_and_undated_past() {
    let r = resolve(&vec![
        rec("1", VideoStatus::Past, None),
        rec("2", VideoStatus::Past, Some(-7)),
        rec("3", VideoStatus::Past, Some(-7)),
    ]);
    assert!(is_not_live(&r, -7));
}

#[test]
fn empty_list_is_unknown() {
    assert!(matches!(resolve(&vec![]), PresenceState::Unknown));
}

#[test]
fn only_upcoming_is_unknown() {
    let r = resolve(&vec![rec("u1", VideoStatus::Upcoming, Some(10)), rec("u2", VideoStatus::New, None), rec("o", VideoStatus::Other, Some(3))]);
    assert!(matches!(r, PresenceState::Unknown));
}

#[test]
fn only_undated_past_is_unknown() {
    let r = resolve(&vec![rec("p1", VideoStatus::Past, None), rec("p2", VideoStatus::Past, None)]);
    assert!(matches!(r, PresenceState::Unknown));
}

#[test]
fn order_does_not_matter() {
    let recs = vec![
        rec("a", VideoStatus::Past, Some(30)),
        rec("b", VideoStatus::Upcoming, None),
        rec("c", VideoStatus::Past, Some(70)),
        rec("d", VideoStatus::Past, Some(50)),
    ];
    let mut rev = recs.clone();
    rev.reverse();
    let mut rotated = recs.clone();
    rotated.rotate_left(2);
    for list in [recs, rev, rotated] {
        assert!(is_not_live(&resolve(&list), 70));
    }
    let live = vec![rec("a", VideoStatus::Past, Some(1)), rec("z", VideoStatus::Live, None)];
    let mut live_rev = live.clone();
    live_rev.reverse();
    assert!(is_live(&resolve(&live), "z"));
    assert!(is_live(&resolve(&live_rev), "z"));
}
