//! Rows of the image store.

use vstd::prelude::*;

verus! {

/// A stored image; `added_at` is a Unix time in milliseconds.
#[derive(Debug, Clone)]
pub struct Image {
    pub id: i64,
    pub path: String,
    pub artist: i64,
    pub added_at: i64,
}

/// A stored artist.
#[derive(Debug, Clone)]
pub struct Artist {
    pub id: i64,
    pub username: String,
    pub twitter: Option<String>,
}

} // verus!
