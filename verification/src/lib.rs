//! A status-bar sampler for a window manager's root-window title: it turns
//! raw readings of host metrics (CPU load, battery state, wireless link
//! state, wall clock, audio volume) into one formatted, color-coded status
//! string, reusing cached battery and clock text while it is still valid.

pub mod bar;
pub mod battery;
pub mod cache;
pub mod clock;
pub mod segment;
pub mod text;
