//! The presence cache: the latest presence state and the time it was computed,
//! always replaced together.

use vstd::prelude::*;
use crate::presence::{PresenceState, PresenceView};

verus! {

pub struct CacheView {
    pub state: PresenceView,
    pub computed_at: i64,
}

/// The cache entry after `state` was stored at time `now`.
pub open spec fn stored(c: CacheView, state: PresenceView, now: i64) -> CacheView {
    CacheView { state, computed_at: now }
}

/// Relies on chrono's `Utc::now` and `DateTime::timestamp_millis`: the current
/// wall-clock time in Unix milliseconds. Nothing is promised of its value.
#[verifier::external_body]
fn current_millis() -> (r: i64) {
    chrono::Utc::now().timestamp_millis()
}

/// Holder of the latest presence state; times are Unix milliseconds.
#[derive(Debug)]
pub struct PresenceCache {
    state: PresenceState,
    computed_at: i64,
}

impl View for PresenceCache {
    type V = CacheView;

    closed spec fn view(&self) -> CacheView {
        CacheView { state: self.state@, computed_at: self.computed_at }
    }
}

impl PresenceCache {
    /// A cache created at `started_at`, knowing nothing yet.
    pub fn new(started_at: i64) -> (r: Self)
        ensures
            r@ == (CacheView { state: PresenceView::Unknown, computed_at: started_at }),
    {
        PresenceCache { state: PresenceState::Unknown, computed_at: started_at }
    }

    /// The cached state.
    pub fn read(&self) -> (r: PresenceState)
        ensures
            r@ == self@.state,
    {
        match &self.state {
            PresenceState::Live { video_id } => PresenceState::Live { video_id: video_id.clone() },
            PresenceState::NotLive { last_live } => PresenceState::NotLive { last_live: *last_live },
            PresenceState::Unknown => PresenceState::Unknown,
        }
    }

    /// When the cached state was computed.
    pub fn computed_at(&self) -> (r: i64)
        ensures
            r == self@.computed_at,
    {
        self.computed_at
    }

    /// Replaces the state and its time together.
    pub fn store_at(&mut self, state: PresenceState, now: i64)
        ensures
            final(self)@ == stored(old(self)@, state@, now),
    {
        self.state = state;
        self.computed_at = now;
    }

    /// Replaces the state, stamped with the current time.
    pub fn store(&mut self, state: PresenceState)
        ensures
            final(self)@.state == state@,
    {
        let now = current_millis();
        self.store_at(state, now);
    }
}

/// A store at a time later than the entry's makes the entry strictly fresher,
/// and a read right after it sees the stored state.
pub proof fn lemma_store_freshness(c: CacheView, state: PresenceView, now: i64)
    requires
        now > c.computed_at,
    ensures
        stored(c, state, now).computed_at > c.computed_at,
        stored(c, state, now).state == state,
{
}

} // verus!
