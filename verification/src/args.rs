//! The commands of the command line, as plain values.

use vstd::prelude::*;

use crate::job::JobRestartBehavior;

verus! {

/// One call of the program.
#[derive(Debug)]
pub struct Cli {
    pub command: Commands,
}

/// What the user asks for.
#[allow(inconsistent_fields)]
#[derive(Debug)]
pub enum Commands {
    /// List the jobs, those of one group where a group is given.
    List { group: Option<String> },
    /// Supervise the jobs of one group, or one job, or all jobs where neither
    /// is given. A group and a job are not given together.
    Start { group: Option<String>, job: Option<String> },
    /// Store a new job.
    Create {
        /// The name of the job, which no other job has.
        name: String,
        /// The program to run.
        program: String,
        /// When to start the program again.
        restart: JobRestartBehavior,
        /// Whether a job stored under the same name is replaced.
        overwrite: bool,
        /// The group that the job joins.
        group: String,
        /// The arguments of the program.
        args: Vec<String>,
    },
    /// Remove a stored job.
    Delete { name: String },
}

} // verus!
