//! A timestamped-frame streaming engine.
//!
//! Frames are lines of JSON text that carry an integer timestamp. The library
//! holds a loaded sequence of frames, a cursor into it and a run guard, and
//! decides for a playback which frame goes out next and after how long a wait,
//! so that the recorded timing is kept without drift. Sockets, files, clocks
//! and the user interface stay with the caller.

pub mod event;
pub mod frame;
pub mod pacing;
pub mod relay;
pub mod session;
pub mod store;
