//! A registry for multiple windows sharing one thread's graphics bindings.
//!
//! At most one window's context may be current on the thread at any time.
//! The registry tracks every window's context state and mediates all
//! currency transitions, so that the single-current rule is never broken,
//! even when a native transition fails halfway through.

pub mod in_utils;
pub mod win_data;
pub mod winger;
