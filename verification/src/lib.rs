//! A minimal kernel for hosting supervised periodic actors: a heartbeat
//! actor driven by a drift-free timer, a process-wide shutdown coordinator
//! with a request barrier, and a supervisor that tracks each actor's run
//! state and decides the outcome of a graceful shutdown.

pub mod config;
pub mod graph;
pub mod heartbeat;
pub mod shutdown;
pub mod supervisor;
pub mod timer;
