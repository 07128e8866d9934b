//! The refresh scheduler: decides when a fetch runs and what its outcome does
//! to the cache. The caller performs the fetch and reports back, so no
//! network work ever happens while the state is held.

use vstd::prelude::*;
use crate::cache::{stored, CacheView, PresenceCache};
use crate::presence::{
    records_view, resolve, resolve_spec, PresenceState, PresenceView, VideoRecord, VideoRecordView,
};

verus! {

/// What asked for a refresh: the background timer, or a reader that wants
/// fresh data.
#[derive(Clone, Copy, Debug, PartialEq, Eq, Structural)]
pub enum Trigger {
    Periodic,
    OnDemand,
}

/// What the caller has to do next.
#[derive(Clone, Copy, Debug, PartialEq, Eq, Structural)]
pub enum Action {
    Fetch,
    Skip,
}

/// A failed fetch, with the provider's description of it.
#[derive(Clone, Debug)]
pub struct FetchError {
    pub message: String,
}

pub struct SchedulerView {
    pub cache: CacheView,
    pub staleness: i64,
    pub refreshing: bool,
}

/// The cached state is older than the staleness threshold at `now`.
pub open spec fn is_stale_at(s: SchedulerView, now: i64) -> bool {
    now - s.cache.computed_at > s.staleness
}

/// Only one refresh runs at a time; the timer always refreshes, a reader only
/// when the cached state is stale.
pub open spec fn decide(s: SchedulerView, trigger: Trigger, now: i64) -> Action {
    if s.refreshing {
        Action::Skip
    } else {
        match trigger {
            Trigger::Periodic => Action::Fetch,
            Trigger::OnDemand => if is_stale_at(s, now) { Action::Fetch } else { Action::Skip },
        }
    }
}

pub open spec fn after_trigger(s: SchedulerView, trigger: Trigger, now: i64) -> SchedulerView {
    SchedulerView { refreshing: s.refreshing || decide(s, trigger, now) == Action::Fetch, ..s }
}

/// The state once a fetch has ended at `now`: records that came back are
/// resolved and stored; a failure leaves the cache as it was.
pub open spec fn after_complete(
    s: SchedulerView,
    fetched: Option<Seq<VideoRecordView>>,
    now: i64,
) -> SchedulerView {
    match fetched {
        Some(records) => SchedulerView {
            cache: stored(s.cache, resolve_spec(records), now),
            refreshing: false,
            ..s
        },
        None => SchedulerView { refreshing: false, ..s },
    }
}

pub open spec fn fetched_view(outcome: Result<Vec<VideoRecord>, FetchError>) -> Option<
    Seq<VideoRecordView>,
> {
    match outcome {
        Ok(records) => Some(records_view(records@)),
        Err(_) => None,
    }
}

/// The presence cache together with its refresh policy. Times and the
/// staleness threshold are in milliseconds.
#[derive(Debug)]
pub struct Scheduler {
    cache: PresenceCache,
    staleness: i64,
    refreshing: bool,
}

impl View for Scheduler {
    type V = SchedulerView;

    closed spec fn view(&self) -> SchedulerView {
        SchedulerView { cache: self.cache@, staleness: self.staleness, refreshing: self.refreshing }
    }
}

impl Scheduler {
    /// A scheduler started at `started_at`, with an empty cache.
    pub fn new(staleness: i64, started_at: i64) -> (r: Self)
        ensures
            r@ == (SchedulerView {
                cache: CacheView { state: PresenceView::Unknown, computed_at: started_at },
                staleness,
                refreshing: false,
            }),
    {
        Scheduler { cache: PresenceCache::new(started_at), staleness, refreshing: false }
    }

    /// The cached state, never waiting for a refresh.
    pub fn read(&self) -> (r: PresenceState)
        ensures
            r@ == self@.cache.state,
    {
        self.cache.read()
    }

    /// When the cached state was computed.
    pub fn computed_at(&self) -> (r: i64)
        ensures
            r == self@.cache.computed_at,
    {
        self.cache.computed_at()
    }

    /// Whether a refresh is in flight.
    pub fn is_refreshing(&self) -> (r: bool)
        ensures
            r == self@.refreshing,
    {
        self.refreshing
    }

    /// Whether the cached state is older than the threshold at `now`.
    pub fn is_stale(&self, now: i64) -> (r: bool)
        ensures
            r == is_stale_at(self@, now),
    {
        (now as i128) - (self.cache.computed_at() as i128) > self.staleness as i128
    }

    /// Decides whether `trigger`, fired at `now`, starts a fetch. A fetch that
    /// starts marks the refresh as in flight until `complete`.
    pub fn trigger(&mut self, trigger: Trigger, now: i64) -> (r: Action)
        ensures
            r == decide(old(self)@, trigger, now),
            final(self)@ == after_trigger(old(self)@, trigger, now),
    {
        let action = if self.refreshing {
            Action::Skip
        } else {
            match trigger {
                Trigger::Periodic => Action::Fetch,
                Trigger::OnDemand => if self.is_stale(now) {
                    Action::Fetch
                } else {
                    Action::Skip
                },
            }
        };
        if action == Action::Fetch {
            self.refreshing = true;
        }
        action
    }

    /// Takes the outcome of a fetch that ended at `now`. Records are resolved
    /// and stored; a failure leaves the cache untouched and is handed back.
    pub fn complete(&mut self, outcome: Result<Vec<VideoRecord>, FetchError>, now: i64) -> (r: Result<
        (),
        FetchError,
    >)
        ensures
            final(self)@ == after_complete(old(self)@, fetched_view(outcome), now),
            r is Err <==> outcome is Err,
    {
        self.refreshing = false;
        match outcome {
            Ok(records) => {
                let state = resolve(&records);
                self.cache.store_at(state, now);
                Ok(())
            },
            Err(e) => Err(e),
        }
    }
}

/// A failed fetch changes neither the cached state nor its time.
pub proof fn lemma_failure_isolation(s: SchedulerView, now: i64)
    ensures
        after_complete(s, None, now).cache == s.cache,
{
}

/// A successful refresh at a time later than the cached one makes the cache
/// strictly fresher, and a read then sees the state resolved from the records.
pub proof fn lemma_refresh_freshness(s: SchedulerView, records: Seq<VideoRecordView>, now: i64)
    requires
        now > s.cache.computed_at,
    ensures
        after_complete(s, Some(records), now).cache.computed_at > s.cache.computed_at,
        after_complete(s, Some(records), now).cache.state == resolve_spec(records),
{
}

/// With no refresh in flight, a reader's trigger fetches exactly when the cache
/// is older than the threshold; once it fetches, no other trigger starts a
/// second fetch until that one completes.
pub proof fn lemma_staleness_gating(s: SchedulerView, now: i64, trigger: Trigger, later: i64)
    requires
        !s.refreshing,
    ensures
        decide(s, Trigger::OnDemand, now) == Action::Fetch <==> now - s.cache.computed_at
            > s.staleness,
        decide(s, Trigger::OnDemand, now) == Action::Fetch ==> decide(
            after_trigger(s, Trigger::OnDemand, now),
            trigger,
            later,
        ) == Action::Skip,
{
}

} // verus!
