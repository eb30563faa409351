//! A single-threaded cooperative task executor with readiness-based I/O.
//!
//! `rt` holds the scheduling state of the run loop and the per-task record of
//! why a task is suspended; `net` holds the registration state of the I/O
//! adapter and the way it turns non-blocking results into suspension.
pub mod net;
pub mod rt;
