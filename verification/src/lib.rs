//! Recording orchestration for a streaming-service catalog.
//!
//! Given a catalog URI naming a track, an album, or a playlist, the library
//! resolves it to an ordered list of track records and drives a recording
//! run: bring up a recording playback device, play each track in order while
//! observing playback state, tear the recording session down on every exit
//! path, and optionally empty the source playlist afterwards.
//!
//! All network calls, process management and waiting are performed by the
//! caller; the library holds the decision logic as verified state machines
//! over plain values.

pub mod classify;
pub mod errors;
pub mod resolver;
pub mod locator;
pub mod driver;
pub mod session;
pub mod orchestrator;
