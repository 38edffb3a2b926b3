//! Supervision of a local server process: a free port, a single spawn, health polling,
//! one readiness outcome, and termination that happens once.

pub mod coordinator;
pub mod health;
pub mod port;
pub mod session;
pub mod supervisor;
pub mod text;
