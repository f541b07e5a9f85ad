//! Restart-on-change supervision, as a pure core.
//!
//! The crate decides; it never touches the operating system. A driver performs
//! each [`watch_loop::Directive`] it is handed (spawn, signal, reap, sleep,
//! subscribe, wait) and reports back what happened as a
//! [`watch_loop::Event`]. Every decision is a verified function of the state and
//! the event.

pub mod command;
pub mod supervisor;
pub mod world;
pub mod termination;
pub mod cli;
pub mod watch_loop;
pub mod cycle;
