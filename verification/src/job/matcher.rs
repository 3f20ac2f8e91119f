//! Event hooks: rules on the live output of a process that pre-empt the
//! restart policy.

use vstd::prelude::*;

use super::Job;
use super::JobAction;
use super::JobEvent;
use super::JobEventHook;
use super::Stream;

verus! {

/// What a line of output asks of the supervision of its job.
#[derive(Debug, Clone, Copy, PartialEq, Eq, Structural)]
pub enum JobControlFlow {
    /// No hook fired: the process goes on.
    Nothing,
    /// Kill the process and start it again at once.
    RestartCommand,
    /// Kill the process and end the supervision of the job.
    StopJob,
}

/// Whether `needle` stands in `hay` from position `at` on.
pub open spec fn occurs_at(needle: Seq<char>, hay: Seq<char>, at: int) -> bool {
    0 <= at && at + needle.len() <= hay.len() && hay.subrange(at, at + needle.len()) == needle
}

/// Whether `needle` stands somewhere in `hay` as a run of characters.
pub open spec fn is_substring(needle: Seq<char>, hay: Seq<char>) -> bool {
    exists|at: int| occurs_at(needle, hay, at)
}

/// Whether a hook that listens to `wanted` hears a line of `heard`.
pub open spec fn listens_to(wanted: Stream, heard: Stream) -> bool {
    wanted is Any || wanted == heard
}

/// Whether `hook` fires on `line`, read from `heard`.
pub open spec fn hook_fires(hook: JobEventHook, line: Seq<char>, heard: Stream) -> bool {
    match hook.event {
        JobEvent::DetectSubstring { stream, contains } => {
            listens_to(stream, heard) && is_substring(contains@, line)
        },
    }
}

/// The directive that stands for a hook's action.
pub open spec fn flow_of(action: JobAction) -> JobControlFlow {
    match action {
        JobAction::Restart => JobControlFlow::RestartCommand,
        JobAction::Stop => JobControlFlow::StopJob,
    }
}

/// The directive that `hooks` give for `line`, read from `heard`: that of the
/// first hook that fires, and `Nothing` where none does.
pub open spec fn directive(
    hooks: Seq<(String, JobEventHook)>,
    line: Seq<char>,
    heard: Stream,
) -> JobControlFlow
    decreases hooks.len(),
{
    if hooks.len() == 0 {
        JobControlFlow::Nothing
    } else if hook_fires(hooks[0].1, line, heard) {
        flow_of(hooks[0].1.action)
    } else {
        directive(hooks.drop_first(), line, heard)
    }
}

/// `str::contains` of std with a string as the pattern: tells whether `needle`
/// matches a sub-slice of `hay`. Both are valid UTF-8, so a match of the bytes
/// is a match of the characters.
#[verifier::external_body]
fn holds_substring(hay: &str, needle: &str) -> (found: bool)
    ensures
        found == is_substring(needle@, hay@),
{
    hay.contains(needle)
}

/// No hook before `upto` fires: the directive is that of the rest.
proof fn lemma_directive_skips(
    hooks: Seq<(String, JobEventHook)>,
    line: Seq<char>,
    heard: Stream,
    upto: int,
)
    requires
        0 <= upto <= hooks.len(),
        forall|k: int| 0 <= k < upto ==> !hook_fires(#[trigger] hooks[k].1, line, heard),
    ensures
        directive(hooks, line, heard) == directive(hooks.skip(upto), line, heard),
    decreases upto,
{
    if upto == 0 {
        assert(hooks.skip(0) =~= hooks);
    } else {
        let rest = hooks.drop_first();
        assert forall|k: int| 0 <= k < upto - 1 implies !hook_fires(
            #[trigger] rest[k].1,
            line,
            heard,
        ) by {
            assert(rest[k] == hooks[k + 1]);
        }
        lemma_directive_skips(rest, line, heard, upto - 1);
        assert(rest.skip(upto - 1) =~= hooks.skip(upto));
    }
}

/// A hook that listens to any stream fires on a line whichever stream it was
/// read from, as soon as the line holds the hook's text.
pub proof fn law_any_stream_hears_both(hook: JobEventHook, line: Seq<char>, heard: Stream)
    requires
        hook.event->stream is Any,
    ensures
        hook_fires(hook, line, heard) == is_substring(hook.event->contains@, line),
        hook_fires(hook, line, Stream::Stdout) == hook_fires(hook, line, Stream::Stderr),
{
}

/// A hook that listens to one of the two streams never fires on a line of
/// the other.
pub proof fn law_one_stream_ignores_other(hook: JobEventHook, line: Seq<char>)
    ensures
        hook.event->stream is Stdout ==> !hook_fires(hook, line, Stream::Stderr),
        hook.event->stream is Stderr ==> !hook_fires(hook, line, Stream::Stdout),
{
}

/// Of several hooks that fire on a line only the first one configured
/// applies: the directive is its action.
pub proof fn law_first_match_applies(
    hooks: Seq<(String, JobEventHook)>,
    line: Seq<char>,
    heard: Stream,
    first: int,
)
    requires
        0 <= first < hooks.len(),
        hook_fires(hooks[first].1, line, heard),
        forall|k: int| 0 <= k < first ==> !hook_fires(#[trigger] hooks[k].1, line, heard),
    ensures
        directive(hooks, line, heard) == flow_of(hooks[first].1.action),
{
    lemma_directive_skips(hooks, line, heard, first);
    assert(hooks.skip(first)[0] == hooks[first]);
}

/// The directive is `Nothing` exactly when no hook fires.
pub proof fn law_nothing_without_match(
    hooks: Seq<(String, JobEventHook)>,
    line: Seq<char>,
    heard: Stream,
)
    ensures
        directive(hooks, line, heard) is Nothing <==> forall|k: int|
            0 <= k < hooks.len() ==> !hook_fires(#[trigger] hooks[k].1, line, heard),
    decreases hooks.len(),
{
    if hooks.len() > 0 {
        let rest = hooks.drop_first();
        law_nothing_without_match(rest, line, heard);
        if !hook_fires(hooks[0].1, line, heard) {
            if directive(rest, line, heard) is Nothing {
                assert forall|k: int| 0 <= k < hooks.len() implies !hook_fires(
                    #[trigger] hooks[k].1,
                    line,
                    heard,
                ) by {
                    if k > 0 {
                        assert(rest[k - 1] == hooks[k]);
                    }
                }
            } else {
                let fired = choose|k: int|
                    0 <= k < rest.len() && hook_fires(#[trigger] rest[k].1, line, heard);
                assert(rest[fired] == hooks[fired + 1]);
            }
        }
    }
}

impl Job {
    /// The directive of the job's hooks for a line read from `heard`.
    fn line_callback(&self, line: &str, heard: Stream) -> (flow: JobControlFlow)
        ensures
            flow == directive(self.event_hooks@, line@, heard),
            flow is Nothing <==> forall|k: int|
                0 <= k < self.event_hooks@.len() ==> !hook_fires(
                    #[trigger] self.event_hooks@[k].1,
                    line@,
                    heard,
                ),
    {
        proof {
            law_nothing_without_match(self.event_hooks@, line@, heard);
        }
        let mut i: usize = 0;
        while i < self.event_hooks.len()
            invariant
                i <= self.event_hooks.len(),
                forall|k: int|
                    0 <= k < i ==> !hook_fires(#[trigger] self.event_hooks@[k].1, line@, heard),
            decreases self.event_hooks.len() - i,
        {
            let hook = &self.event_hooks[i].1;
            let detection = match &hook.event {
                JobEvent::DetectSubstring { stream, contains } => {
                    let listening = match (stream, heard) {
                        (Stream::Any, _) => true,
                        (Stream::Stdout, Stream::Stdout) => true,
                        (Stream::Stderr, Stream::Stderr) => true,
                        (Stream::Stdout, _) => false,
                        (Stream::Stderr, _) => false,
                    };
                    listening && holds_substring(line, contains.as_str())
                },
            };
            if detection {
                proof {
                    lemma_directive_skips(self.event_hooks@, line@, heard, i as int);
                }
                return match hook.action {
                    JobAction::Restart => JobControlFlow::RestartCommand,
                    JobAction::Stop => JobControlFlow::StopJob,
                };
            }
            i += 1;
        }
        proof {
            lemma_directive_skips(
                self.event_hooks@,
                line@,
                heard,
                self.event_hooks@.len() as int,
            );
        }
        JobControlFlow::Nothing
    }

    /// What the job's hooks ask for when the process writes `line` to its
    /// standard output.
    pub fn stdout_line_callback(&self, line: &str) -> (flow: JobControlFlow)
        ensures
            flow == directive(self.event_hooks@, line@, Stream::Stdout),
            flow is Nothing <==> forall|k: int|
                0 <= k < self.event_hooks@.len() ==> !hook_fires(
                    #[trigger] self.event_hooks@[k].1,
                    line@,
                    Stream::Stdout,
                ),
    {
        self.line_callback(line, Stream::Stdout)
    }

    /// What the job's hooks ask for when the process writes `line` to its
    /// standard error.
    pub fn stderr_line_callback(&self, line: &str) -> (flow: JobControlFlow)
        ensures
            flow == directive(self.event_hooks@, line@, Stream::Stderr),
            flow is Nothing <==> forall|k: int|
                0 <= k < self.event_hooks@.len() ==> !hook_fires(
                    #[trigger] self.event_hooks@[k].1,
                    line@,
                    Stream::Stderr,
                ),
    {
        self.line_callback(line, Stream::Stderr)
    }
}

} // verus!
