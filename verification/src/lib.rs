//! Supervision of long-running or repeating command-line jobs.
//!
//! A job is a named description of a program to run. The library holds the
//! rules by which a job is kept alive: the restart policy, the backoff
//! schedule, the event hooks that react to live output, the selection of jobs
//! by name or group, and the state machine of one supervision run. Spawning
//! processes, reading their pipes, sleeping and persisting descriptors are
//! left to the caller, which drives the state machine with what it observed.

pub mod args;
pub mod job;
