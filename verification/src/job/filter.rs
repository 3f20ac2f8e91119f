//! Selection of jobs by name alone or by name and group.

use vstd::prelude::*;
use vstd::string::StringExecFns;

use super::is_listed;
use super::lists;
use super::Job;

verus! {

/// A choice of jobs: all of them or those named, singly or by group, in both
/// cases without the excluded ones.
pub enum Filter {
    All { exclude: Vec<String> },
    Subset { jobs: Vec<String>, groups: Vec<String>, exclude: Vec<String> },
}

impl Filter {
    /// Whether the filter selects the name `job_name`, whatever the group:
    /// it is not excluded and, in a subset, it is one of the jobs named.
    pub open spec fn selects_name(&self, job_name: Seq<char>) -> bool {
        match *self {
            Filter::All { exclude } => !lists(exclude@, job_name),
            Filter::Subset { jobs, groups, exclude } => {
                !lists(exclude@, job_name) && lists(jobs@, job_name)
            },
        }
    }

    /// Whether the filter selects the job called `name` of group `group`.
    pub open spec fn selects(&self, name: Seq<char>, group: Seq<char>) -> bool {
        match *self {
            Filter::All { exclude } => !lists(exclude@, name),
            Filter::Subset { jobs, groups, exclude } => {
                !lists(exclude@, name) && (lists(groups@, group) || lists(jobs@, name))
            },
        }
    }

    /// A job that is selected by its name alone is selected whatever its
    /// group; where all jobs are asked for, the group never matters.
    pub proof fn law_name_selects_job(&self, name: Seq<char>, group: Seq<char>)
        ensures
            self.selects_name(name) ==> self.selects(name, group),
            *self is All ==> self.selects(name, group) == self.selects_name(name),
    {
    }

    /// Tells whether the filter selects a job by its name alone.
    pub fn matches_name(&self, job_name: &str) -> (selected: bool)
        ensures
            selected == self.selects_name(job_name@),
    {
        let name = String::from_str(job_name);
        match self {
            Filter::All { exclude } => !is_listed(exclude, &name),
            Filter::Subset { jobs, groups: _, exclude } => {
                if is_listed(exclude, &name) {
                    return false;
                }
                is_listed(jobs, &name)
            },
        }
    }

    /// Tells whether the filter selects `job`.
    pub fn matches(&self, job: &Job) -> (selected: bool)
        ensures
            selected == self.selects(job.name@, job.group@),
    {
        match self {
            Filter::All { exclude } => !is_listed(exclude, &job.name),
            Filter::Subset { jobs, groups, exclude } => {
                if is_listed(exclude, &job.name) {
                    return false;
                }
                is_listed(groups, &job.group) || is_listed(jobs, &job.name)
            },
        }
    }
}

} // verus!
