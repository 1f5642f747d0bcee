//! Verified decision logic of a small collection of asynchronous-runtime
//! demonstrations: timer futures, a hand-written future state machine, a
//! minimal task executor, a `select!` loop and a key-value server.
//!
//! Everything that touches the clock, threads, sockets or a real async
//! runtime lives in the companion program; this library holds the rules that
//! decide what those parts do next.

pub mod clock;
pub mod delay;
pub mod main_future;
pub mod executor;
pub mod select_loop;
pub mod redis;
