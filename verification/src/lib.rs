//! Verified core of a hierarchical audio playback plugin.
//!
//! The modules hold the decisions that the playback machinery makes:
//! - `queue`: the sources a queue plays one after the other, and what the
//!   queue's output does when its current source runs dry;
//! - `sink`: the control state of a sink (paused, stopped, pending clears),
//!   what stopping, adding a sound and dropping do to the controls and the
//!   queue of a sink, and what the periodic control callback does to the
//!   playing source;
//! - `audio`: the de-interleaving and re-interleaving buffers of an audio
//!   processor, and the plan that is made when a queued sound starts playing.
pub mod audio;
pub mod queue;
pub mod sink;
