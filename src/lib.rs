//! Stream-presence derivation and caching for a single-page fan site.
//!
//! `presence` turns the video records of one channel into a presence state,
//! `cache` keeps the latest state with the time it was computed, `scheduler`
//! decides when a refresh runs, `art` holds the artwork catalogue and `db` the
//! rows of the image store.

pub mod art;
pub mod cache;
pub mod db;
pub mod presence;
pub mod scheduler;

pub use art::{Artist, Artwork, Artworks};
