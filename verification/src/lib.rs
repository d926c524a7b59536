//! Watches a set of video-platform playlists for new uploads.
//!
//! The library keeps, per tracked playlist, the latest known video together
//! with the video that preceded it, classifies every freshly fetched
//! playlist head as genuinely new, a retroactive removal, or no change,
//! and updates the tracked state accordingly. A small state machine models
//! the background worker that polls on a schedule and can be started,
//! stopped and restarted.

pub mod background_video_fetcher;
pub mod config;
pub mod database;
pub mod date;
pub mod duration_formatter;
pub mod new_tube_service;
pub mod playlist_item;
pub mod text;
pub mod yt_dlp;

