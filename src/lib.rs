//! A local music player's playback-queue synchronizer: a logical queue of
//! track metadata kept in step with an audio engine's queue of units, an
//! atomic completion signal written by the engine, and the presenter state
//! that renders "now playing" snapshots and turns keys into commands.
pub mod commands;
pub mod download;
pub mod model;
pub mod presenter;
pub mod sync;
pub mod text;
pub mod track;
