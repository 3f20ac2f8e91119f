//! Job descriptors, the restart policy, the backoff schedule and the
//! selection of jobs by name or group.

use vstd::prelude::*;

pub mod filter;
pub mod listing;
pub mod matcher;
pub mod report;
pub mod supervisor;

verus! {

/// The description of one supervised process. It is read once and does not
/// change while the job is supervised.
#[derive(Debug, Clone)]
pub struct Job {
    /// The key under which the job is stored.
    pub name: String,
    /// A label by which several jobs are selected at once.
    pub group: String,
    /// The executable to run.
    pub program: String,
    /// The arguments handed to the executable, in order.
    pub args: Vec<String>,
    /// The directory in which the process is started.
    pub working_directory: String,
    pub restart: JobRestartBehavior,
    pub restart_strategy: JobRestartStrategy,
    /// The event hooks with their names, in the order in which they were
    /// configured, which is the order in which they are tried.
    pub event_hooks: Vec<(String, JobEventHook)>,
    pub template: Option<JobTemplate>,
}

#[derive(Debug, Clone, Copy, PartialEq, Eq, Structural)]
pub enum JobTemplate {
    PortForward,
}

/// What to do with a job once its process has exited.
#[derive(Debug, Clone, Copy, PartialEq, Eq, Structural)]
pub enum JobRestartBehavior {
    Always,
    OnSuccess,
    OnFailure,
    Never,
}

/// How long to wait before a job's process is started again.
#[derive(Debug, Clone, Copy, PartialEq, Eq, Structural)]
pub enum JobRestartStrategy {
    Immediate,
    ExponentialBackoff,
}

/// The output of a process that an event hook listens to.
#[derive(Debug, Clone, Copy, PartialEq, Eq, Structural)]
pub enum Stream {
    Stdout,
    Stderr,
    Any,
}

/// What an event hook waits for.
#[derive(Debug, Clone, PartialEq, Eq)]
pub enum JobEvent {
    /// A line of `stream` that holds `contains` somewhere in it.
    DetectSubstring { stream: Stream, contains: String },
}

/// What an event hook does to the job when its event is seen.
#[derive(Debug, Clone, Copy, PartialEq, Eq, Structural)]
pub enum JobAction {
    Restart,
    Stop,
}

/// A rule on the live output of a process that overrides the restart policy.
#[derive(Debug, Clone, PartialEq, Eq)]
pub struct JobEventHook {
    pub event: JobEvent,
    pub action: JobAction,
}

/// A choice of jobs: all of them or those named, singly or by group, in both
/// cases without the excluded ones.
pub enum JobFilter {
    All { exclude: Vec<String> },
    Subset { jobs: Vec<String>, groups: Vec<String>, exclude: Vec<String> },
}

/// An input of the user that is refused before any job runs.
#[derive(Debug, Clone, Copy, PartialEq, Eq, Structural)]
pub enum ConfigError {
    /// A group and a job were both given, where one of them selects.
    GroupWithJob,
}

impl Default for JobRestartBehavior {
    fn default() -> (behavior: Self)
        ensures
            behavior == JobRestartBehavior::Always,
    {
        JobRestartBehavior::Always
    }
}

impl Default for JobRestartStrategy {
    fn default() -> (strategy: Self)
        ensures
            strategy == JobRestartStrategy::ExponentialBackoff,
    {
        JobRestartStrategy::ExponentialBackoff
    }
}

impl Default for Stream {
    fn default() -> (stream: Self)
        ensures
            stream == Stream::Any,
    {
        Stream::Any
    }
}

/// Whether a job with restart behaviour `behavior` is started again after its
/// process has exited, with success if `success` and with failure if not.
pub open spec fn restarts_after(behavior: JobRestartBehavior, success: bool) -> bool {
    behavior is Always || (success && behavior is OnSuccess) || (!success && behavior is OnFailure)
}

/// The delays of a backoff, in seconds, by the number of attempts made.
pub open spec fn backoff_table() -> Seq<u64> {
    seq![0u64, 0u64, 0u64, 1u64, 2u64, 4u64, 8u64, 15u64, 30u64]
}

/// The delay of a backoff once the number of attempts has left the table.
pub open spec fn backoff_ceiling() -> u64 {
    60
}

/// The delay, in seconds, that `strategy` puts before the next start of a
/// process when `attempts` exits of the same class have been counted.
pub open spec fn backoff_delay(strategy: JobRestartStrategy, attempts: u64) -> u64 {
    match strategy {
        JobRestartStrategy::Immediate => 0,
        JobRestartStrategy::ExponentialBackoff => if attempts < backoff_table().len() {
            backoff_table()[attempts as int]
        } else {
            backoff_ceiling()
        },
    }
}

/// The words by which a restart behaviour is shown to the user.
pub open spec fn behaviour_label(behavior: JobRestartBehavior) -> Seq<char> {
    match behavior {
        JobRestartBehavior::Always => "always"@,
        JobRestartBehavior::OnSuccess => "on success"@,
        JobRestartBehavior::OnFailure => "on failure"@,
        JobRestartBehavior::Never => "never"@,
    }
}

/// Whether one of `names` reads `name`.
pub open spec fn lists(names: Seq<String>, name: Seq<char>) -> bool {
    exists|i: int| 0 <= i < names.len() && (#[trigger] names[i])@ == name
}

/// Whether no two of `hooks` have the same name.
pub open spec fn distinct_names(hooks: Seq<(String, JobEventHook)>) -> bool {
    forall|i: int, j: int|
        0 <= i < j < hooks.len() ==> (#[trigger] hooks[i]).0@ != (#[trigger] hooks[j]).0@
}

/// Whether `hooks` holds a hook called `name` at `at`.
pub open spec fn named_at(hooks: Seq<(String, JobEventHook)>, name: Seq<char>, at: int) -> bool {
    0 <= at < hooks.len() && hooks[at].0@ == name
}

/// Tells whether one of `names` reads `name`.
pub(crate) fn is_listed(names: &Vec<String>, name: &String) -> (found: bool)
    ensures
        found == lists(names@, name@),
{
    let mut i: usize = 0;
    while i < names.len()
        invariant
            i <= names.len(),
            forall|k: int| 0 <= k < i ==> (#[trigger] names@[k])@ != name@,
        decreases names.len() - i,
    {
        if names[i] == *name {
            return true;
        }
        i += 1;
    }
    false
}

/// The restart policy, case by case: `Always` goes on after either exit,
/// `OnSuccess` only after a success, `OnFailure` only after a failure and
/// `Never` after neither.
pub proof fn law_restart_policy(behavior: JobRestartBehavior, success: bool)
    ensures
        restarts_after(behavior, success) == match (behavior, success) {
            (JobRestartBehavior::Always, true) => true,
            (JobRestartBehavior::Always, false) => true,
            (JobRestartBehavior::OnSuccess, true) => true,
            (JobRestartBehavior::OnSuccess, false) => false,
            (JobRestartBehavior::OnFailure, true) => false,
            (JobRestartBehavior::OnFailure, false) => true,
            (JobRestartBehavior::Never, true) => false,
            (JobRestartBehavior::Never, false) => false,
        },
{
}

/// The delays of a backoff by the number of attempts: none up to the second
/// attempt, then 1, 2, 4, 8, 15 and 30 seconds from the third to the eighth,
/// and a minute from the ninth on.
pub proof fn law_backoff_by_attempts(attempts: u64)
    ensures
        backoff_delay(JobRestartStrategy::ExponentialBackoff, attempts) == (if attempts <= 2 {
            0u64
        } else if attempts == 3 {
            1u64
        } else if attempts == 4 {
            2u64
        } else if attempts == 5 {
            4u64
        } else if attempts == 6 {
            8u64
        } else if attempts == 7 {
            15u64
        } else if attempts == 8 {
            30u64
        } else {
            60u64
        }),
{
}

/// An immediate strategy never waits. A backoff does not wait before the
/// first two restarts and waits a minute from the tenth on. Of the third to
/// the ninth attempt of a backoff the law says nothing.
pub proof fn law_backoff_ends(strategy: JobRestartStrategy, attempts: u64)
    requires
        strategy is ExponentialBackoff ==> !(3 <= attempts <= 9),
    ensures
        strategy is Immediate ==> backoff_delay(strategy, attempts) == 0,
        strategy is ExponentialBackoff && 1 <= attempts <= 2 ==> backoff_delay(strategy, attempts)
            == 0,
        strategy is ExponentialBackoff && attempts >= 10 ==> backoff_delay(strategy, attempts)
            == 60,
{
}

/// A delay never exceeds a minute, and more attempts never shorten it.
pub proof fn law_backoff_bounded_and_rising(strategy: JobRestartStrategy, fewer: u64, more: u64)
    requires
        fewer <= more,
    ensures
        backoff_delay(strategy, more) <= backoff_ceiling(),
        backoff_delay(strategy, fewer) <= backoff_delay(strategy, more),
{
}

impl JobRestartStrategy {
    /// The number of seconds to wait before the next start, when `restarts`
    /// exits of the same class have been counted, the last one included.
    pub fn delay_seconds(&self, restarts: u64) -> (seconds: u64)
        ensures
            seconds == backoff_delay(*self, restarts),
    {
        match self {
            JobRestartStrategy::Immediate => 0,
            JobRestartStrategy::ExponentialBackoff => {
                let table: [u64; 9] = [0, 0, 0, 1, 2, 4, 8, 15, 30];
                if restarts < 9 {
                    table[restarts as usize]
                } else {
                    60
                }
            },
        }
    }
}

impl JobFilter {
    /// The filter for the jobs that the user names: those of `group`, or the
    /// one called `job`, or all jobs where neither is given. A group and a
    /// job together are refused.
    pub fn from_selection(group: Option<String>, job: Option<String>) -> (filter: Result<
        JobFilter,
        ConfigError,
    >)
        ensures
            match (group, job) {
                (None, None) => filter matches Ok(JobFilter::All { exclude }) && exclude@.len()
                    == 0,
                (Some(group), None) => filter matches Ok(JobFilter::Subset { jobs, groups, exclude })
                    && jobs@.len() == 0 && groups@ == seq![group] && exclude@.len() == 0,
                (None, Some(job)) => filter matches Ok(JobFilter::Subset { jobs, groups, exclude })
                    && jobs@ == seq![job] && groups@.len() == 0 && exclude@.len() == 0,
                (Some(_), Some(_)) => filter == Err::<JobFilter, ConfigError>(
                    ConfigError::GroupWithJob,
                ),
            },
    {
        match (group, job) {
            (None, None) => Ok(JobFilter::All { exclude: Vec::new() }),
            (Some(group), None) => {
                let mut groups = Vec::new();
                groups.push(group);
                Ok(JobFilter::Subset { jobs: Vec::new(), groups, exclude: Vec::new() })
            },
            (None, Some(job)) => {
                let mut jobs = Vec::new();
                jobs.push(job);
                Ok(JobFilter::Subset { jobs, groups: Vec::new(), exclude: Vec::new() })
            },
            (Some(_), Some(_)) => Err(ConfigError::GroupWithJob),
        }
    }

    /// Whether the filter selects the job called `name` of group `group`.
    pub open spec fn selects(&self, name: Seq<char>, group: Seq<char>) -> bool {
        match *self {
            JobFilter::All { exclude } => !lists(exclude@, name),
            JobFilter::Subset { jobs, groups, exclude } => {
                !lists(exclude@, name) && (lists(groups@, group) || lists(jobs@, name))
            },
        }
    }

    /// Tells whether the filter selects `job`.
    pub fn matches(&self, job: &Job) -> (selected: bool)
        ensures
            selected == self.selects(job.name@, job.group@),
    {
        match self {
            JobFilter::All { exclude } => !is_listed(exclude, &job.name),
            JobFilter::Subset { jobs, groups, exclude } => {
                if is_listed(exclude, &job.name) {
                    return false;
                }
                is_listed(groups, &job.group) || is_listed(jobs, &job.name)
            },
        }
    }
}

impl Job {
    /// Puts `hook` under `name` among the job's event hooks, as a map would:
    /// a hook that already has the name is replaced where it stands, and a
    /// new name goes behind all the others. Names that were distinct stay so.
    pub fn set_event_hook(&mut self, name: String, hook: JobEventHook)
        ensures
            forall|at: int|
                named_at(old(self).event_hooks@, name@, at) && (forall|before: int|
                    0 <= before < at ==> !named_at(old(self).event_hooks@, name@, before))
                    ==> final(self).event_hooks@ == old(self).event_hooks@.update(
                    at,
                    (name, hook),
                ),
            (forall|at: int| !named_at(old(self).event_hooks@, name@, at))
                ==> final(self).event_hooks@ == old(self).event_hooks@.push((name, hook)),
            distinct_names(old(self).event_hooks@) ==> distinct_names(final(self).event_hooks@),
            *final(self) == (Job { event_hooks: final(self).event_hooks, ..*old(self) }),
    {
        let mut i: usize = 0;
        while i < self.event_hooks.len()
            invariant
                i <= self.event_hooks.len(),
                *self == *old(self),
                forall|k: int| 0 <= k < i ==> !named_at(self.event_hooks@, name@, k),
            decreases self.event_hooks.len() - i,
        {
            if self.event_hooks[i].0 == name {
                self.event_hooks.set(i, (name, hook));
                proof {
                    let before = old(self).event_hooks@;
                    let after = self.event_hooks@;
                    assert(named_at(before, name@, i as int));
                    if distinct_names(before) {
                        assert forall|a: int, b: int| 0 <= a < b < after.len() implies #[trigger]
                        after[a].0@ != #[trigger] after[b].0@ by {
                            assert(after[a].0@ == before[a].0@);
                            assert(after[b].0@ == before[b].0@);
                        }
                    }
                }
                return ;
            }
            i += 1;
        }
        self.event_hooks.push((name, hook));
        proof {
            let before = old(self).event_hooks@;
            let after = self.event_hooks@;
            assert forall|at: int| !named_at(before, name@, at) by {}
            if distinct_names(before) {
                assert forall|a: int, b: int| 0 <= a < b < after.len() implies #[trigger]
                after[a].0@ != #[trigger] after[b].0@ by {
                    assert(after[a] == before[a]);
                    assert(!named_at(before, name@, a));
                    if b < before.len() {
                        assert(after[b] == before[b]);
                    }
                }
            }
        }
    }

    /// Tells whether the job is started again after a successful exit.
    pub fn restart_on_success(&self) -> (again: bool)
        ensures
            again == restarts_after(self.restart, true),
    {
        match self.restart {
            JobRestartBehavior::Always | JobRestartBehavior::OnSuccess => true,
            JobRestartBehavior::OnFailure | JobRestartBehavior::Never => false,
        }
    }

    /// Tells whether the job is started again after a failed exit.
    pub fn restart_on_failure(&self) -> (again: bool)
        ensures
            again == restarts_after(self.restart, false),
    {
        match self.restart {
            JobRestartBehavior::Always | JobRestartBehavior::OnFailure => true,
            JobRestartBehavior::OnSuccess | JobRestartBehavior::Never => false,
        }
    }

    /// The job's restart behaviour in words.
    pub fn restart_behaviour(&self) -> (label: &'static str)
        ensures
            label@ == behaviour_label(self.restart),
    {
        match self.restart {
            JobRestartBehavior::Always => "always",
            JobRestartBehavior::OnSuccess => "on success",
            JobRestartBehavior::OnFailure => "on failure",
            JobRestartBehavior::Never => "never",
        }
    }
}

} // verus!
