//! A cooperative event-loop runner: externally fired notifications are
//! serialised into one ordered stream of events, handed to a single listener
//! one dispatch turn at a time under an explicit control-flow policy.

pub mod event;
pub mod guarantees;
pub mod proxy;
pub mod registration;
pub mod runner;
pub mod scheduler;
pub mod window_target;
