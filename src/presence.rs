//! The presence resolver: a pure, total function from a list of video records
//! to one of three presence states.

use vstd::prelude::*;

verus! {

/// Status of a video as the provider reports it.
#[derive(Clone, Copy, Debug, PartialEq, Eq, Structural)]
pub enum VideoStatus {
    New,
    Upcoming,
    Live,
    Past,
    Missing,
    /// A status this library does not know.
    Other,
}

/// One video of the tracked channel. `published_at` is a Unix time in
/// milliseconds, absent for videos that are not published yet.
#[derive(Clone, Debug)]
pub struct VideoRecord {
    pub id: String,
    pub status: VideoStatus,
    pub published_at: Option<i64>,
}

pub struct VideoRecordView {
    pub id: Seq<char>,
    pub status: VideoStatus,
    pub published_at: Option<i64>,
}

impl View for VideoRecord {
    type V = VideoRecordView;

    open spec fn view(&self) -> VideoRecordView {
        VideoRecordView { id: self.id@, status: self.status, published_at: self.published_at }
    }
}

pub open spec fn records_view(v: Seq<VideoRecord>) -> Seq<VideoRecordView> {
    v.map_values(|r: VideoRecord| r@)
}

/// Whether the tracked channel is live, was live at some known time, or
/// neither can be told.
#[derive(Clone, Debug)]
pub enum PresenceState {
    Live { video_id: String },
    NotLive { last_live: i64 },
    Unknown,
}

pub enum PresenceView {
    Live { video_id: Seq<char> },
    NotLive { last_live: i64 },
    Unknown,
}

impl View for PresenceState {
    type V = PresenceView;

    open spec fn view(&self) -> PresenceView {
        match self {
            PresenceState::Live { video_id } => PresenceView::Live { video_id: video_id@ },
            PresenceState::NotLive { last_live } => PresenceView::NotLive { last_live: *last_live },
            PresenceState::Unknown => PresenceView::Unknown,
        }
    }
}

pub open spec fn is_live(r: VideoRecordView) -> bool {
    r.status == VideoStatus::Live
}

/// A finished video whose publication time is known.
pub open spec fn is_dated_past(r: VideoRecordView) -> bool {
    r.status == VideoStatus::Past && r.published_at is Some
}

pub open spec fn has_live(s: Seq<VideoRecordView>) -> bool {
    exists|i: int| 0 <= i < s.len() && is_live(#[trigger] s[i])
}

/// `i` is the position of the first live record of `s`.
pub open spec fn is_first_live(s: Seq<VideoRecordView>, i: int) -> bool {
    &&& 0 <= i < s.len()
    &&& is_live(s[i])
    &&& forall|j: int| 0 <= j < i ==> !is_live(#[trigger] s[j])
}

pub open spec fn first_live(s: Seq<VideoRecordView>) -> int {
    choose|i: int| is_first_live(s, i)
}

/// The later of two optional times.
pub open spec fn later(a: Option<i64>, b: Option<i64>) -> Option<i64> {
    match (a, b) {
        (Some(x), Some(y)) => if x >= y { Some(x) } else { Some(y) },
        (Some(x), None) => Some(x),
        (None, _) => b,
    }
}

/// The latest publication time among the dated past records of `s`.
pub open spec fn latest_past(s: Seq<VideoRecordView>) -> Option<i64>
    decreases s.len(),
{
    if s.len() == 0 {
        None
    } else {
        let r = s.last();
        let rest = latest_past(s.drop_last());
        if is_dated_past(r) {
            later(rest, r.published_at)
        } else {
            rest
        }
    }
}

/// The presence state that a list of records stands for: the first live
/// record wins; else the latest dated past record; else nothing is known.
pub open spec fn resolve_spec(s: Seq<VideoRecordView>) -> PresenceView {
    if has_live(s) {
        PresenceView::Live { video_id: s[first_live(s)].id }
    } else {
        match latest_past(s) {
            Some(t) => PresenceView::NotLive { last_live: t },
            None => PresenceView::Unknown,
        }
    }
}

/// Where `s` holds a live record, exactly one position is the first of them.
pub proof fn lemma_first_live(s: Seq<VideoRecordView>)
    requires
        has_live(s),
    ensures
        is_first_live(s, first_live(s)),
        forall|i: int| is_first_live(s, i) ==> i == first_live(s),
    decreases s.len(),
{
    if is_live(s[0]) {
        assert(is_first_live(s, 0));
    } else {
        let t = s.drop_first();
        let k = choose|k: int| 0 <= k < s.len() && is_live(#[trigger] s[k]);
        assert(is_live(t[k - 1]));
        lemma_first_live(t);
        let f = first_live(t);
        assert forall|j: int| 0 <= j < f + 1 implies !is_live(#[trigger] s[j]) by {
            if j > 0 {
                assert(s[j] == t[j - 1]);
            }
        }
        assert(is_first_live(s, f + 1));
    }
    let f = first_live(s);
    assert forall|i: int| is_first_live(s, i) implies i == f by {
        if i < f {
            assert(!is_live(s[i]));
        } else if f < i {
            assert(!is_live(s[f]));
        }
    }
}

/// What `latest_past` is: `None` exactly when no record is dated and past;
/// otherwise the time of one such record, no earlier than any other.
pub proof fn lemma_latest_past(s: Seq<VideoRecordView>)
    ensures
        latest_past(s) is None <==> forall|i: int| 0 <= i < s.len() ==> !is_dated_past(#[trigger] s[i]),
        latest_past(s) is Some ==> exists|i: int|
            0 <= i < s.len() && is_dated_past(#[trigger] s[i]) && s[i].published_at == latest_past(s),
        latest_past(s) is Some ==> forall|i: int|
            0 <= i < s.len() && is_dated_past(#[trigger] s[i]) ==> s[i].published_at->0 <= latest_past(s)->0,
    decreases s.len(),
{
    if s.len() > 0 {
        let t = s.drop_last();
        let n = s.len() - 1;
        let r = s[n];
        lemma_latest_past(t);
        assert forall|i: int| 0 <= i < n implies #[trigger] t[i] == s[i] by {}
        if latest_past(t) is Some {
            let w = choose|i: int|
                0 <= i < t.len() && is_dated_past(#[trigger] t[i]) && t[i].published_at == latest_past(t);
            assert(s[w] == t[w]);
        }
        assert forall|i: int| 0 <= i < s.len() && is_dated_past(#[trigger] s[i]) && latest_past(s) is Some
            implies s[i].published_at->0 <= latest_past(s)->0 by {
            if i < n {
                assert(is_dated_past(t[i]));
            }
        }
        if forall|i: int| 0 <= i < s.len() ==> !is_dated_past(#[trigger] s[i]) {
            assert forall|i: int| 0 <= i < t.len() implies !is_dated_past(#[trigger] t[i]) by {
                assert(!is_dated_past(s[i]));
            }
            assert(!is_dated_past(s[n]));
        }
        if exists|i: int| 0 <= i < s.len() && is_dated_past(#[trigger] s[i]) {
            let i = choose|i: int| 0 <= i < s.len() && is_dated_past(#[trigger] s[i]);
            if i < n {
                assert(is_dated_past(t[i]));
            }
        }
        if is_dated_past(r) {
            if latest_past(t) is None || latest_past(t)->0 < r.published_at->0 {
                assert(is_dated_past(s[n]) && s[n].published_at == latest_past(s));
            }
        }
    }
}

fn later_of(a: Option<i64>, b: Option<i64>) -> (r: Option<i64>)
    ensures
        r == later(a, b),
{
    match (a, b) {
        (Some(x), Some(y)) => if x >= y { Some(x) } else { Some(y) },
        (Some(x), None) => Some(x),
        (None, _) => b,
    }
}

/// Derives the presence state from the records, whatever their order.
pub fn resolve(records: &Vec<VideoRecord>) -> (r: PresenceState)
    ensures
        r@ == resolve_spec(records_view(records@)),
{
    let ghost s = records_view(records@);
    let mut i: usize = 0;
    while i < records.len()
        invariant
            s == records_view(records@),
            i <= records.len(),
            forall|j: int| 0 <= j < i ==> !is_live(#[trigger] s[j]),
        decreases records.len() - i,
    {
        if records[i].status == VideoStatus::Live {
            proof {
                assert(s[i as int] == records@[i as int]@);
                assert(is_first_live(s, i as int));
                lemma_first_live(s);
            }
            return PresenceState::Live { video_id: records[i].id.clone() };
        }
        assert(s[i as int] == records@[i as int]@);
        i = i + 1;
    }
    let mut latest: Option<i64> = None;
    let mut k: usize = 0;
    while k < records.len()
        invariant
            s == records_view(records@),
            k <= records.len(),
            latest == latest_past(s.take(k as int)),
        decreases records.len() - k,
    {
        let r = &records[k];
        proof {
            assert(s.take(k + 1).drop_last() =~= s.take(k as int));
            assert(s.take(k + 1).last() == r@);
        }
        if r.status == VideoStatus::Past && r.published_at.is_some() {
            latest = later_of(latest, r.published_at);
        }
        k = k + 1;
    }
    assert(s.take(records.len() as int) =~= s);
    match latest {
        Some(t) => PresenceState::NotLive { last_live: t },
        None => PresenceState::Unknown,
    }
}

/// A list that holds a live record resolves to the first live record, whatever
/// else it holds.
pub proof fn lemma_live_precedence(s: Seq<VideoRecordView>)
    requires
        has_live(s),
    ensures
        is_first_live(s, first_live(s)),
        resolve_spec(s) == (PresenceView::Live { video_id: s[first_live(s)].id }),
{
    lemma_first_live(s);
}

/// With no live record and at least one dated past record, the result is
/// `NotLive` with the latest publication time among the past records.
pub proof fn lemma_not_live_latest(s: Seq<VideoRecordView>)
    requires
        !has_live(s),
        exists|i: int| 0 <= i < s.len() && is_dated_past(#[trigger] s[i]),
    ensures
        resolve_spec(s) is NotLive,
        exists|i: int|
            0 <= i < s.len() && is_dated_past(#[trigger] s[i]) && s[i].published_at
                == Some(resolve_spec(s)->last_live),
        forall|i: int|
            0 <= i < s.len() && is_dated_past(#[trigger] s[i]) ==> s[i].published_at->0
                <= resolve_spec(s)->last_live,
{
    lemma_latest_past(s);
}

/// A list resolves to `Unknown` exactly when it holds neither a live record nor
/// a past record with a publication time: the empty list, a list of upcoming
/// videos, a list of past videos without times.
pub proof fn lemma_unknown_fallback(s: Seq<VideoRecordView>)
    ensures
        resolve_spec(s) is Unknown <==> forall|i: int|
            0 <= i < s.len() ==> !is_live(#[trigger] s[i]) && !is_dated_past(s[i]),
{
    lemma_latest_past(s);
}

/// Reordering the records does not change the result. Where two live records
/// carry different ids, the first of them wins and the order does matter, so
/// such lists are left out.
pub proof fn lemma_resolve_permutation(a: Seq<VideoRecordView>, b: Seq<VideoRecordView>)
    requires
        a.to_multiset() == b.to_multiset(),
        forall|i: int, j: int|
            0 <= i < a.len() && 0 <= j < a.len() && is_live(#[trigger] a[i]) && is_live(
                #[trigger] a[j],
            ) ==> a[i].id == a[j].id,
    ensures
        resolve_spec(a) == resolve_spec(b),
{
    broadcast use vstd::seq_lib::group_to_multiset_ensures;

    assert forall|x: VideoRecordView| a.contains(x) <==> b.contains(x) by {
        assert(a.contains(x) <==> a.to_multiset().count(x) > 0);
        assert(b.contains(x) <==> b.to_multiset().count(x) > 0);
    }
    if has_live(a) {
        let i = choose|i: int| 0 <= i < a.len() && is_live(#[trigger] a[i]);
        assert(a.contains(a[i]));
        assert(has_live(b));
    }
    if has_live(b) {
        let j = choose|j: int| 0 <= j < b.len() && is_live(#[trigger] b[j]);
        assert(b.contains(b[j]));
        assert(has_live(a));
    }
    if has_live(a) {
        lemma_first_live(a);
        lemma_first_live(b);
        let fb = first_live(b);
        assert(b.contains(b[fb]));
        let k = choose|k: int| 0 <= k < a.len() && a[k] == b[fb];
        assert(is_live(a[k]));
    } else {
        lemma_latest_past(a);
        lemma_latest_past(b);
        if latest_past(a) is Some {
            let i = choose|i: int|
                0 <= i < a.len() && is_dated_past(#[trigger] a[i]) && a[i].published_at == latest_past(a);
            assert(a.contains(a[i]));
            let k = choose|k: int| 0 <= k < b.len() && b[k] == a[i];
            assert(is_dated_past(b[k]));
        }
        if latest_past(b) is Some {
            let j = choose|j: int|
                0 <= j < b.len() && is_dated_past(#[trigger] b[j]) && b[j].published_at == latest_past(b);
            assert(b.contains(b[j]));
            let k = choose|k: int| 0 <= k < a.len() && a[k] == b[j];
            assert(is_dated_past(a[k]));
        }
    }
}

} // verus!
