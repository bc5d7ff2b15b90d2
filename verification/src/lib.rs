//! The playback engine of a desktop audio player, without its files and
//! devices.
//!
//! - [`time`]: native timestamps, time bases, and their conversion to and
//!   from milliseconds.
//! - [`playlist`]: which track of a playlist comes next.
//! - [`protocol`]: the actions that a caller may send.
//! - [`engine`]: the engine as a state machine that a driver carries out.
//! - [`laws`]: what holds of the engine over whole runs of events.
//! - [`util`]: clock text, playlist names, draining a channel.

pub mod engine;
pub mod laws;
pub mod playlist;
pub mod protocol;
pub mod time;
pub mod util;
