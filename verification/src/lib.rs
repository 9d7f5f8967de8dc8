//! Physics-driven animation core for a desktop shell: a damped-spring value
//! animator over fixed-point vectors, and the window-manager state machine
//! that uses it to drive window position, elevation and background blur.
//!
//! All quantities are fixed-point: an `i64` holds a real value scaled by
//! [`fixed::SCALE`], and timestamps are microseconds, so `SCALE`
//! microseconds are one second of animation time.

pub mod animator;
pub mod bottle;
pub mod fixed;
pub mod window;
pub mod window_manager;
