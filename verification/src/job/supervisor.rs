//! The supervision of one job, as a state machine.
//!
//! A supervision owns the life of one job's process from the first start to
//! the end. The caller does the outside work (it starts and kills the
//! process, waits for its output and its exit, sleeps) and tells the machine
//! what happened; the machine answers with what is to be done next.
//!
//! The machine rests in one of four states. While `Spawning` the caller starts
//! the process, while `Running` it waits for whichever comes first of a line
//! of standard output, a line of standard error, the exit of the process and
//! the signal to cancel, while `Sleeping` it lets a backoff delay pass, and
//! once `Terminated` nothing is left to do. The decision that follows an exit
//! is taken within one step and is no state to rest in.

use vstd::prelude::*;

use super::backoff_delay;
use super::matcher::directive;
use super::matcher::JobControlFlow;
use super::restarts_after;
use super::Job;
use super::Stream;

verus! {

/// Where the supervision of a job stands between two events.
#[derive(Debug, Clone, Copy, PartialEq, Eq, Structural)]
pub enum LoopState {
    /// The process is to be started.
    Spawning,
    /// The process is alive and its output, its exit and the signal to cancel
    /// are awaited.
    Running,
    /// The process has exited and a delay passes before its next start.
    Sleeping,
    /// The supervision is over.
    Terminated,
}

/// How long a process has run: whole seconds and the nanoseconds beyond them.
#[derive(Debug, Clone, Copy, PartialEq, Eq)]
pub struct Elapsed {
    secs: u64,
    nanos: u32,
}

/// What the caller has observed.
#[derive(Debug, Clone, PartialEq, Eq)]
pub enum LoopEvent {
    /// The process has been started.
    Spawned,
    /// The process could not be started.
    SpawnFailed,
    /// The process has written a line to its standard output.
    StdoutLine(String),
    /// The process has written a line to its standard error.
    StderrLine(String),
    /// Reading the output of the process has failed.
    StreamFailed,
    /// The process has exited, with a zero status if `success`.
    Exited { success: bool, elapsed: Elapsed },
    /// The exit status of the process could not be obtained.
    WaitFailed { reason: String },
    /// The signal to cancel has been observed.
    Cancelled,
    /// The delay before the next start has passed.
    SleepElapsed,
}

/// Why a supervision has ended in failure.
#[derive(Debug, Clone, Copy, PartialEq, Eq, Structural)]
pub enum LoopError {
    /// The program could not be executed.
    SpawnError,
    /// A pipe of the process could not be read.
    StreamError,
}

/// A line of status for the user.
#[derive(Debug, Clone, PartialEq, Eq)]
pub enum Notice {
    Starting,
    StdoutLine(String),
    StderrLine(String),
    Restarting,
    Stopping,
    Finished { success: bool, elapsed: Elapsed },
    RestartingIn { seconds: u64 },
    NotAwaited { reason: String },
}

/// One thing for the caller to do. The effects of a step are carried out in
/// their order; the last one tells what the machine waits for next.
#[derive(Debug, Clone, PartialEq, Eq)]
pub enum Effect {
    /// Show the notice to the user.
    Report(Notice),
    /// Kill the process and discard its handle.
    Kill,
    /// Start the process from the job's program, arguments and working
    /// directory, with new pipes; answer with `Spawned` or `SpawnFailed`.
    Spawn,
    /// Wait for the next event of the process or the signal to cancel.
    Race,
    /// Let that many seconds pass; answer with `SleepElapsed`.
    Sleep(u64),
    /// End the supervision in good order.
    Stop,
    /// End the supervision and hand the error on.
    Fail(LoopError),
}

/// What a supervision holds: the job, whether starts are announced, the state
/// and the count of the successful and of the failed exits seen so far.
pub ghost struct LoopModel {
    pub job: Job,
    pub verbose: bool,
    pub state: LoopState,
    pub successes: u64,
    pub failures: u64,
}

/// A new state together with the effects that lead into it.
pub ghost struct Outcome {
    pub next: LoopModel,
    pub effects: Seq<Effect>,
}

/// The supervision of one job.
pub struct Supervisor {
    job: Job,
    verbose: bool,
    state: LoopState,
    successes: u64,
    failures: u64,
}

/// A count with one more exit in it; a count that is full stays as it is.
pub open spec fn counted(count: u64) -> u64 {
    if count < u64::MAX {
        (count + 1) as u64
    } else {
        count
    }
}

/// What starts the process: the announcement, where asked for, and the start.
pub open spec fn spawn_effects(verbose: bool) -> Seq<Effect> {
    if verbose {
        seq![Effect::Report(Notice::Starting), Effect::Spawn]
    } else {
        seq![Effect::Spawn]
    }
}

/// Whether the machine takes `event` in `state`.
pub open spec fn admits(state: LoopState, event: LoopEvent) -> bool {
    match state {
        LoopState::Spawning => event is Spawned || event is SpawnFailed,
        LoopState::Running => {
            ||| event is StdoutLine
            ||| event is StderrLine
            ||| event is StreamFailed
            ||| event is Exited
            ||| event is WaitFailed
            ||| event is Cancelled
        },
        LoopState::Sleeping => event is SleepElapsed,
        LoopState::Terminated => false,
    }
}

impl LoopModel {
    /// The same supervision in another state.
    pub open spec fn moved_to(self, state: LoopState) -> LoopModel {
        LoopModel { state, ..self }
    }

    /// The supervision of `job` before the first start.
    pub open spec fn initial(job: Job, verbose: bool) -> LoopModel {
        LoopModel { job, verbose, state: LoopState::Spawning, successes: 0, failures: 0 }
    }

    /// A line has been read and echoed by `echo`, and the hooks gave `flow`.
    pub open spec fn after_line(self, echo: Notice, flow: JobControlFlow) -> Outcome {
        match flow {
            JobControlFlow::Nothing => Outcome {
                next: self,
                effects: seq![Effect::Report(echo), Effect::Race],
            },
            JobControlFlow::RestartCommand => Outcome {
                next: self.moved_to(LoopState::Spawning),
                effects: seq![
                    Effect::Report(echo),
                    Effect::Report(Notice::Restarting),
                    Effect::Kill,
                ] + spawn_effects(self.verbose),
            },
            JobControlFlow::StopJob => Outcome {
                next: self.moved_to(LoopState::Terminated),
                effects: seq![
                    Effect::Report(echo),
                    Effect::Report(Notice::Stopping),
                    Effect::Kill,
                    Effect::Stop,
                ],
            },
        }
    }

    /// The supervision with the exit counted in its class.
    pub open spec fn with_exit(self, success: bool) -> LoopModel {
        if success {
            LoopModel { successes: counted(self.successes), ..self }
        } else {
            LoopModel { failures: counted(self.failures), ..self }
        }
    }

    /// The number of exits of one class that have been counted.
    pub open spec fn exits(self, success: bool) -> u64 {
        if success {
            self.successes
        } else {
            self.failures
        }
    }

    /// The process has exited after `elapsed`: the exit is counted in its
    /// class, the restart policy decides whether the job goes on and, if so,
    /// the backoff schedule gives the delay for the new count of that class.
    pub open spec fn after_exit(self, success: bool, elapsed: Elapsed) -> Outcome {
        let counted = self.with_exit(success);
        let finished = Effect::Report(Notice::Finished { success, elapsed });
        let delay = backoff_delay(self.job.restart_strategy, counted.exits(success));
        if !restarts_after(self.job.restart, success) {
            Outcome {
                next: counted.moved_to(LoopState::Terminated),
                effects: seq![finished, Effect::Report(Notice::Stopping), Effect::Stop],
            }
        } else if delay == 0 {
            Outcome {
                next: counted.moved_to(LoopState::Spawning),
                effects: seq![finished] + spawn_effects(self.verbose),
            }
        } else {
            Outcome {
                next: counted.moved_to(LoopState::Sleeping),
                effects: seq![
                    finished,
                    Effect::Report(Notice::RestartingIn { seconds: delay }),
                    Effect::Sleep(delay),
                ],
            }
        }
    }

    /// The state that follows `event` and the effects that lead into it. It is
    /// meant for the events that the state admits.
    pub open spec fn after(self, event: LoopEvent) -> Outcome {
        match event {
            LoopEvent::Spawned => Outcome {
                next: self.moved_to(LoopState::Running),
                effects: seq![Effect::Race],
            },
            LoopEvent::SpawnFailed => Outcome {
                next: self.moved_to(LoopState::Terminated),
                effects: seq![Effect::Fail(LoopError::SpawnError)],
            },
            LoopEvent::StdoutLine(line) => self.after_line(
                Notice::StdoutLine(line),
                directive(self.job.event_hooks@, line@, Stream::Stdout),
            ),
            LoopEvent::StderrLine(line) => self.after_line(
                Notice::StderrLine(line),
                directive(self.job.event_hooks@, line@, Stream::Stderr),
            ),
            LoopEvent::StreamFailed => Outcome {
                next: self.moved_to(LoopState::Terminated),
                effects: seq![Effect::Fail(LoopError::StreamError)],
            },
            LoopEvent::Exited { success, elapsed } => self.after_exit(success, elapsed),
            LoopEvent::WaitFailed { reason } => Outcome {
                next: self,
                effects: seq![Effect::Report(Notice::NotAwaited { reason }), Effect::Race],
            },
            LoopEvent::Cancelled => Outcome {
                next: self.moved_to(LoopState::Terminated),
                effects: seq![Effect::Kill, Effect::Stop],
            },
            LoopEvent::SleepElapsed => Outcome {
                next: self.moved_to(LoopState::Spawning),
                effects: spawn_effects(self.verbose),
            },
        }
    }
}

/// What one event does to a supervision: what the state's answer says where
/// the state admits the event, and nothing where it does not.
pub open spec fn taken(from: LoopModel, event: LoopEvent) -> Outcome {
    if admits(from.state, event) {
        from.after(event)
    } else {
        Outcome { next: from, effects: seq![] }
    }
}

/// What a run of events does to a supervision, one after the other.
pub open spec fn run(from: LoopModel, events: Seq<LoopEvent>) -> Outcome
    decreases events.len(),
{
    if events.len() == 0 {
        Outcome { next: from, effects: seq![] }
    } else {
        let first = taken(from, events[0]);
        let rest = run(first.next, events.drop_first());
        Outcome { next: rest.next, effects: first.effects + rest.effects }
    }
}

/// Whether one of `effects` starts the process.
pub open spec fn spawns(effects: Seq<Effect>) -> bool {
    exists|i: int| 0 <= i < effects.len() && #[trigger] effects[i] is Spawn
}

/// Whether one of `effects` kills the process.
pub open spec fn kills(effects: Seq<Effect>) -> bool {
    exists|i: int| 0 <= i < effects.len() && #[trigger] effects[i] is Kill
}

/// Whether one of `effects` lets a delay pass.
pub open spec fn sleeps(effects: Seq<Effect>) -> bool {
    exists|i: int| 0 <= i < effects.len() && #[trigger] effects[i] is Sleep
}

/// Whether `effect` is what the caller does while the machine rests in
/// `state`.
pub open spec fn awaited_in(state: LoopState, effect: Effect) -> bool {
    match state {
        LoopState::Spawning => effect is Spawn,
        LoopState::Running => effect is Race,
        LoopState::Sleeping => effect is Sleep,
        LoopState::Terminated => effect is Stop || effect is Fail,
    }
}

/// Once the signal to cancel is observed, the process is killed and the
/// supervision is over, without another start.
pub proof fn law_cancellation_terminates(from: LoopModel)
    requires
        from.state is Running,
    ensures
        admits(from.state, LoopEvent::Cancelled),
        from.after(LoopEvent::Cancelled).next.state is Terminated,
        from.after(LoopEvent::Cancelled).effects == seq![Effect::Kill, Effect::Stop],
        kills(from.after(LoopEvent::Cancelled).effects),
        !spawns(from.after(LoopEvent::Cancelled).effects),
{
    let effects = from.after(LoopEvent::Cancelled).effects;
    assert(effects[0] is Kill);
}

/// A supervision that is over stays over: whatever events follow, it takes
/// none of them, asks for nothing and so never starts the process again.
pub proof fn law_terminated_is_final(from: LoopModel, events: Seq<LoopEvent>)
    requires
        from.state is Terminated,
    ensures
        run(from, events).next == from,
        run(from, events).effects == Seq::<Effect>::empty(),
        !spawns(run(from, events).effects),
    decreases events.len(),
{
    if events.len() > 0 {
        law_terminated_is_final(from, events.drop_first());
    }
}

/// After the signal to cancel nothing starts the process again, whatever
/// events follow: the run kills the process, ends and asks for no more.
pub proof fn law_no_spawn_after_cancellation(from: LoopModel, later: Seq<LoopEvent>)
    requires
        from.state is Running,
    ensures
        run(from, seq![LoopEvent::Cancelled] + later).next.state is Terminated,
        run(from, seq![LoopEvent::Cancelled] + later).effects == seq![Effect::Kill, Effect::Stop],
        !spawns(run(from, seq![LoopEvent::Cancelled] + later).effects),
{
    let events = seq![LoopEvent::Cancelled] + later;
    let ended = from.after(LoopEvent::Cancelled);
    assert(events[0] == LoopEvent::Cancelled);
    assert(events.drop_first() =~= later);
    law_cancellation_terminates(from);
    law_terminated_is_final(ended.next, later);
    assert(ended.effects + Seq::<Effect>::empty() =~= ended.effects);
}

/// The signal to cancel is waited for only while the process runs: a
/// supervision that starts its process or lets a delay pass does not take it.
pub proof fn law_cancellation_waits_for_race(from: LoopModel)
    ensures
        admits(from.state, LoopEvent::Cancelled) <==> from.state is Running,
{
}

/// One event never changes the job or the choice to announce starts, never
/// lowers a count and raises at most one of them, by one: the count of the
/// class of an exit, and nothing where the event is no exit.
pub proof fn law_step_counts(from: LoopModel, event: LoopEvent)
    ensures
        taken(from, event).next.job == from.job,
        taken(from, event).next.verbose == from.verbose,
        from.successes <= taken(from, event).next.successes <= from.successes + 1,
        from.failures <= taken(from, event).next.failures <= from.failures + 1,
        event matches LoopEvent::Exited { success, .. } ==> (from.state is Running ==> {
            &&& taken(from, event).next.exits(success) == counted(from.exits(success))
            &&& taken(from, event).next.exits(!success) == from.exits(!success)
        }),
        !(event is Exited) ==> {
            &&& taken(from, event).next.successes == from.successes
            &&& taken(from, event).next.failures == from.failures
        },
{
}

/// Over a whole run the job stays the same and no count ever decreases.
pub proof fn law_run_counts(from: LoopModel, events: Seq<LoopEvent>)
    ensures
        run(from, events).next.job == from.job,
        run(from, events).next.verbose == from.verbose,
        from.successes <= run(from, events).next.successes,
        from.failures <= run(from, events).next.failures,
    decreases events.len(),
{
    if events.len() > 0 {
        law_step_counts(from, events[0]);
        law_run_counts(taken(from, events[0]).next, events.drop_first());
    }
}

/// The effects of an event that is taken end with what the caller does in
/// the new state, and ask for nothing of that kind before.
pub proof fn law_effects_lead_into_state(from: LoopModel, event: LoopEvent)
    requires
        admits(from.state, event),
    ensures
        from.after(event).effects.len() > 0,
        awaited_in(from.after(event).next.state, from.after(event).effects.last()),
        forall|i: int|
            0 <= i < from.after(event).effects.len() - 1 ==> {
                let effect = #[trigger] from.after(event).effects[i];
                effect is Report || effect is Kill
            },
{
}

/// A process is started only when the one before it is gone: where a step
/// asks for a start while a process runs, that process has exited or is
/// killed first.
pub proof fn law_spawn_follows_discard(from: LoopModel, event: LoopEvent)
    requires
        from.state is Running,
        admits(from.state, event),
        spawns(from.after(event).effects),
    ensures
        event is Exited || kills(from.after(event).effects),
{
    let effects = from.after(event).effects;
    if !(event is Exited) {
        assert(effects[2] is Kill);
    }
}

/// A restart that a hook asks for is made at once: the process is killed and
/// started again with no delay, whatever the backoff schedule.
pub proof fn law_hook_restart_is_immediate(from: LoopModel, echo: Notice)
    ensures
        from.after_line(echo, JobControlFlow::RestartCommand).next.state is Spawning,
        kills(from.after_line(echo, JobControlFlow::RestartCommand).effects),
        spawns(from.after_line(echo, JobControlFlow::RestartCommand).effects),
        !sleeps(from.after_line(echo, JobControlFlow::RestartCommand).effects),
{
    let effects = from.after_line(echo, JobControlFlow::RestartCommand).effects;
    assert(effects[2] is Kill);
    assert(effects.last() is Spawn);
}

/// A stop that a hook asks for is final: the process is killed and the
/// supervision is over, whatever the restart policy.
pub proof fn law_hook_stop_is_final(from: LoopModel, echo: Notice)
    ensures
        from.after_line(echo, JobControlFlow::StopJob).next.state is Terminated,
        kills(from.after_line(echo, JobControlFlow::StopJob).effects),
        !spawns(from.after_line(echo, JobControlFlow::StopJob).effects),
{
    let effects = from.after_line(echo, JobControlFlow::StopJob).effects;
    assert(effects[2] is Kill);
}

/// A line on which no hook fires leaves the supervision as it is, racing
/// within the same process.
pub proof fn law_quiet_line_keeps_racing(from: LoopModel, echo: Notice)
    ensures
        from.after_line(echo, JobControlFlow::Nothing).next == from,
        from.after_line(echo, JobControlFlow::Nothing).effects == seq![
            Effect::Report(echo),
            Effect::Race,
        ],
{
}

/// After an exit the job goes on exactly when the restart policy says so for
/// the class of the exit; it then sleeps exactly when the backoff schedule
/// gives a delay for the new count of that class, and for that long.
pub proof fn law_exit_follows_policy(from: LoopModel, success: bool, elapsed: Elapsed)
    ensures
        from.after_exit(success, elapsed).next.state is Terminated <==> !restarts_after(
            from.job.restart,
            success,
        ),
        from.after_exit(success, elapsed).next.state is Sleeping <==> restarts_after(
            from.job.restart,
            success,
        ) && backoff_delay(from.job.restart_strategy, counted(from.exits(success))) != 0,
        from.after_exit(success, elapsed).next.state is Sleeping ==> from.after_exit(
            success,
            elapsed,
        ).effects.last() == Effect::Sleep(
            backoff_delay(from.job.restart_strategy, counted(from.exits(success))),
        ),
        !kills(from.after_exit(success, elapsed).effects),
{
}

/// A job that is always restarted, and at once, never comes to an end by an
/// exit: each exit, of either class, leads straight to the next start.
pub proof fn law_always_immediate_respawns(from: LoopModel, success: bool, elapsed: Elapsed)
    requires
        from.job.restart is Always,
        from.job.restart_strategy is Immediate,
    ensures
        from.after_exit(success, elapsed).next.state is Spawning,
        spawns(from.after_exit(success, elapsed).effects),
        !sleeps(from.after_exit(success, elapsed).effects),
{
    let effects = from.after_exit(success, elapsed).effects;
    assert(effects.last() is Spawn);
}

/// Whether each of `events` tells that the process has started or that it
/// has exited.
pub open spec fn only_starts_and_exits(events: Seq<LoopEvent>) -> bool {
    forall|i: int|
        0 <= i < events.len() ==> (#[trigger] events[i]) is Spawned || events[i] is Exited
}

/// A job that is always restarted, and at once, goes on for ever when left
/// to itself: however many times its process starts and exits, with
/// whatever status, the supervision never ends and never sleeps.
pub proof fn law_always_immediate_never_ends(from: LoopModel, events: Seq<LoopEvent>)
    requires
        from.job.restart is Always,
        from.job.restart_strategy is Immediate,
        from.state is Spawning || from.state is Running,
        only_starts_and_exits(events),
    ensures
        run(from, events).next.state is Spawning || run(from, events).next.state is Running,
        !sleeps(run(from, events).effects),
        !kills(run(from, events).effects),
    decreases events.len(),
{
    if events.len() > 0 {
        let first = taken(from, events[0]);
        let rest = events.drop_first();
        assert forall|i: int| 0 <= i < rest.len() implies (#[trigger] rest[i]) is Spawned
            || rest[i] is Exited by {
            assert(rest[i] == events[i + 1]);
        }
        law_step_counts(from, events[0]);
        if let LoopEvent::Exited { success, elapsed } = events[0] {
            law_always_immediate_respawns(from, success, elapsed);
            law_exit_follows_policy(from, success, elapsed);
        }
        law_always_immediate_never_ends(first.next, rest);
        let tail = run(first.next, rest).effects;
        assert forall|i: int| 0 <= i < (first.effects + tail).len() implies !((first.effects
            + tail)[i] is Sleep) && !((first.effects + tail)[i] is Kill) by {
            if i < first.effects.len() {
                assert((first.effects + tail)[i] == first.effects[i]);
            } else {
                assert((first.effects + tail)[i] == tail[i - first.effects.len()]);
            }
        }
    }
}

/// A failure to obtain the exit status changes nothing: no count moves, no
/// decision is taken and the race goes on.
pub proof fn law_wait_failure_changes_nothing(from: LoopModel, reason: String)
    ensures
        from.after(LoopEvent::WaitFailed { reason }).next == from,
        from.after(LoopEvent::WaitFailed { reason }).effects.last() is Race,
        !kills(from.after(LoopEvent::WaitFailed { reason }).effects),
        !spawns(from.after(LoopEvent::WaitFailed { reason }).effects),
{
}

/// A process that cannot be started, or whose output cannot be read, ends
/// the supervision with that error and is not tried again.
pub proof fn law_failures_are_fatal(from: LoopModel)
    ensures
        from.after(LoopEvent::SpawnFailed).next.state is Terminated,
        from.after(LoopEvent::SpawnFailed).effects == seq![Effect::Fail(LoopError::SpawnError)],
        from.after(LoopEvent::StreamFailed).next.state is Terminated,
        from.after(LoopEvent::StreamFailed).effects == seq![Effect::Fail(LoopError::StreamError)],
        !spawns(from.after(LoopEvent::SpawnFailed).effects),
        !spawns(from.after(LoopEvent::StreamFailed).effects),
{
}

impl Elapsed {
    #[verifier::type_invariant]
    spec fn in_range(self) -> bool {
        self.nanos < 1_000_000_000
    }

    /// The whole seconds.
    pub closed spec fn seconds(self) -> u64 {
        self.secs
    }

    /// The nanoseconds beyond the whole seconds.
    pub closed spec fn nanoseconds(self) -> u32 {
        self.nanos
    }

    /// A run time of `secs` seconds and `nanos` nanoseconds, where the
    /// nanoseconds stay under one second.
    pub fn new(secs: u64, nanos: u32) -> (elapsed: Option<Elapsed>)
        ensures
            elapsed is Some <==> nanos < 1_000_000_000,
            elapsed matches Some(e) ==> e.seconds() == secs && e.nanoseconds() == nanos,
    {
        if nanos < 1_000_000_000 {
            Some(Elapsed { secs, nanos })
        } else {
            None
        }
    }

    /// The whole seconds of the run time.
    pub fn as_secs(&self) -> (secs: u64)
        ensures
            secs == self.seconds(),
    {
        self.secs
    }

    /// The nanoseconds of the run time beyond its whole seconds.
    pub fn subsec_nanos(&self) -> (nanos: u32)
        ensures
            nanos == self.nanoseconds(),
            nanos < 1_000_000_000,
    {
        proof {
            use_type_invariant(self);
        }
        self.nanos
    }
}

impl View for Supervisor {
    type V = LoopModel;

    closed spec fn view(&self) -> LoopModel {
        LoopModel {
            job: self.job,
            verbose: self.verbose,
            state: self.state,
            successes: self.successes,
            failures: self.failures,
        }
    }
}

impl Supervisor {
    /// Begins the supervision of `job`. The effects returned start its
    /// process for the first time; with `verbose` every start is announced.
    pub fn start(job: Job, verbose: bool) -> (begun: (Supervisor, Vec<Effect>))
        ensures
            begun.0@ == LoopModel::initial(job, verbose),
            begun.1@ == spawn_effects(verbose),
    {
        let supervisor = Supervisor {
            job,
            verbose,
            state: LoopState::Spawning,
            successes: 0,
            failures: 0,
        };
        let effects = supervisor.spawn();
        (supervisor, effects)
    }

    /// The job under supervision.
    pub fn job(&self) -> (job: &Job)
        ensures
            *job == self@.job,
    {
        &self.job
    }

    /// The state in which the supervision rests.
    pub fn state(&self) -> (state: LoopState)
        ensures
            state == self@.state,
    {
        self.state
    }

    /// The number of successful exits seen so far.
    pub fn successes(&self) -> (count: u64)
        ensures
            count == self@.successes,
    {
        self.successes
    }

    /// The number of failed exits seen so far.
    pub fn failures(&self) -> (count: u64)
        ensures
            count == self@.failures,
    {
        self.failures
    }

    fn spawn(&self) -> (effects: Vec<Effect>)
        ensures
            effects@ == spawn_effects(self.verbose),
    {
        let mut effects = Vec::new();
        if self.verbose {
            effects.push(Effect::Report(Notice::Starting));
        }
        effects.push(Effect::Spawn);
        effects
    }

    fn take_line(&mut self, echo: Notice, flow: JobControlFlow) -> (effects: Vec<Effect>)
        ensures
            final(self)@ == old(self)@.after_line(echo, flow).next,
            effects@ == old(self)@.after_line(echo, flow).effects,
    {
        let mut effects = Vec::new();
        effects.push(Effect::Report(echo));
        match flow {
            JobControlFlow::Nothing => {
                effects.push(Effect::Race);
            },
            JobControlFlow::RestartCommand => {
                effects.push(Effect::Report(Notice::Restarting));
                effects.push(Effect::Kill);
                let mut spawn = self.spawn();
                effects.append(&mut spawn);
                self.state = LoopState::Spawning;
            },
            JobControlFlow::StopJob => {
                effects.push(Effect::Report(Notice::Stopping));
                effects.push(Effect::Kill);
                effects.push(Effect::Stop);
                self.state = LoopState::Terminated;
            },
        }
        effects
    }

    fn take_exit(&mut self, success: bool, elapsed: Elapsed) -> (effects: Vec<Effect>)
        ensures
            final(self)@ == old(self)@.after_exit(success, elapsed).next,
            effects@ == old(self)@.after_exit(success, elapsed).effects,
    {
        let mut effects = Vec::new();
        effects.push(Effect::Report(Notice::Finished { success, elapsed }));
        let again = if success {
            if self.successes < u64::MAX {
                self.successes += 1;
            }
            self.job.restart_on_success()
        } else {
            if self.failures < u64::MAX {
                self.failures += 1;
            }
            self.job.restart_on_failure()
        };
        if again {
            let attempts = if success {
                self.successes
            } else {
                self.failures
            };
            let delay_seconds = self.job.restart_strategy.delay_seconds(attempts);
            if delay_seconds != 0 {
                effects.push(Effect::Report(Notice::RestartingIn { seconds: delay_seconds }));
                effects.push(Effect::Sleep(delay_seconds));
                self.state = LoopState::Sleeping;
            } else {
                let mut spawn = self.spawn();
                effects.append(&mut spawn);
                self.state = LoopState::Spawning;
            }
        } else {
            effects.push(Effect::Report(Notice::Stopping));
            effects.push(Effect::Stop);
            self.state = LoopState::Terminated;
        }
        effects
    }

    /// Takes an event and tells what is to be done about it. An event that
    /// the state does not admit is refused and changes nothing.
    pub fn step(&mut self, event: LoopEvent) -> (effects: Option<Vec<Effect>>)
        ensures
            effects is Some <==> admits(old(self)@.state, event),
            effects matches Some(list) ==> list@ == old(self)@.after(event).effects,
            final(self)@ == taken(old(self)@, event).next,
    {
        match self.state {
            LoopState::Spawning => match event {
                LoopEvent::Spawned => {
                    self.state = LoopState::Running;
                    Some(vec![Effect::Race])
                },
                LoopEvent::SpawnFailed => {
                    self.state = LoopState::Terminated;
                    Some(vec![Effect::Fail(LoopError::SpawnError)])
                },
                _ => None,
            },
            LoopState::Running => match event {
                LoopEvent::StdoutLine(line) => {
                    let flow = self.job.stdout_line_callback(line.as_str());
                    Some(self.take_line(Notice::StdoutLine(line), flow))
                },
                LoopEvent::StderrLine(line) => {
                    let flow = self.job.stderr_line_callback(line.as_str());
                    Some(self.take_line(Notice::StderrLine(line), flow))
                },
                LoopEvent::StreamFailed => {
                    self.state = LoopState::Terminated;
                    Some(vec![Effect::Fail(LoopError::StreamError)])
                },
                LoopEvent::Exited { success, elapsed } => Some(self.take_exit(success, elapsed)),
                LoopEvent::WaitFailed { reason } => {
                    Some(vec![Effect::Report(Notice::NotAwaited { reason }), Effect::Race])
                },
                LoopEvent::Cancelled => {
                    self.state = LoopState::Terminated;
                    Some(vec![Effect::Kill, Effect::Stop])
                },
                _ => None,
            },
            LoopState::Sleeping => match event {
                LoopEvent::SleepElapsed => {
                    self.state = LoopState::Spawning;
                    Some(self.spawn())
                },
                _ => None,
            },
            LoopState::Terminated => None,
        }
    }
}

} // verus!
