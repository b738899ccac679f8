//! Per-guild playback coordination: a track queue, a session registry,
//! serialized connection joins, cancellable bulk enqueue, an inactivity
//! monitor, and idempotent cleanup.

pub mod audio;
pub mod bulk;
pub mod cleanup;
pub mod commands;
pub mod config;
pub mod error;
pub mod join;
pub mod monitor;
pub mod queue;
pub mod queue_service;
pub mod registry;
pub mod text;
pub mod track;
pub mod urls;

pub use queue::MusicQueue;
pub use track::{Track, TrackSource};
