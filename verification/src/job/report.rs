//! The status lines that a supervision shows to the user.

use vstd::prelude::*;
use vstd::string::StringExecFns;

use super::supervisor::Elapsed;
use super::supervisor::Notice;

verus! {

/// What folktime's `Folktime::duration` shows, in its default format, for a
/// duration of `secs` seconds and `nanos` nanoseconds.
pub uninterp spec fn duration_text(secs: u64, nanos: u32) -> Seq<char>;

/// The numeral of one decimal digit.
pub open spec fn digit_text(digit: nat) -> Seq<char> {
    if digit == 0 {
        "0"@
    } else if digit == 1 {
        "1"@
    } else if digit == 2 {
        "2"@
    } else if digit == 3 {
        "3"@
    } else if digit == 4 {
        "4"@
    } else if digit == 5 {
        "5"@
    } else if digit == 6 {
        "6"@
    } else if digit == 7 {
        "7"@
    } else if digit == 8 {
        "8"@
    } else {
        "9"@
    }
}

/// The decimal numeral of `number`, without leading zeros.
pub open spec fn decimal(number: nat) -> Seq<char>
    decreases number,
{
    if number < 10 {
        digit_text(number)
    } else {
        decimal(number / 10) + digit_text(number % 10)
    }
}

/// The word for the class of an exit.
pub open spec fn exit_word(success: bool) -> Seq<char> {
    if success {
        "success"@
    } else {
        "failure"@
    }
}

/// The line that tells of the end of a process of the job called `job`,
/// where `shown` is its run time as the user reads it.
pub open spec fn finished_text(job: Seq<char>, success: bool, shown: Seq<char>) -> Seq<char> {
    job + " process finished indicating "@ + exit_word(success) + " after running for "@ + shown
}

/// The line that tells `notice` of the job called `job`.
pub open spec fn notice_text(notice: Notice, job: Seq<char>) -> Seq<char> {
    match notice {
        Notice::Starting => job + " starting"@,
        Notice::StdoutLine(line) => job + ": "@ + line@,
        Notice::StderrLine(line) => job + " (stderr): "@ + line@,
        Notice::Restarting => job + " restarting"@,
        Notice::Stopping => job + " stopping"@,
        Notice::Finished { success, elapsed } => finished_text(
            job,
            success,
            duration_text(elapsed.seconds(), elapsed.nanoseconds()),
        ),
        Notice::RestartingIn { seconds } => job + " restarting in "@ + decimal(seconds as nat)
            + " seconds"@,
        Notice::NotAwaited { reason } => job + " could not be awaited ("@ + reason@ + ")"@,
    }
}

/// `Folktime::duration` of folktime, shown through its `Display`: the text
/// for the duration made of `secs` and `nanos`. It depends on nothing else.
#[verifier::external_body]
fn show_duration(secs: u64, nanos: u32) -> (text: String)
    requires
        nanos < 1_000_000_000,
    ensures
        text@ == duration_text(secs, nanos),
{
    folktime::Folktime::duration(std::time::Duration::new(secs, nanos)).to_string()
}

fn digit_str(digit: u64) -> (text: &'static str)
    requires
        digit < 10,
    ensures
        text@ == digit_text(digit as nat),
{
    if digit == 0 {
        "0"
    } else if digit == 1 {
        "1"
    } else if digit == 2 {
        "2"
    } else if digit == 3 {
        "3"
    } else if digit == 4 {
        "4"
    } else if digit == 5 {
        "5"
    } else if digit == 6 {
        "6"
    } else if digit == 7 {
        "7"
    } else if digit == 8 {
        "8"
    } else {
        "9"
    }
}

/// Writes `number` in decimal.
pub fn decimal_text(number: u64) -> (text: String)
    ensures
        text@ == decimal(number as nat),
    decreases number,
{
    if number < 10 {
        String::from_str(digit_str(number))
    } else {
        let mut text = decimal_text(number / 10);
        text.append(digit_str(number % 10));
        text
    }
}

/// Writes the line that tells of the end of a process of the job called
/// `job`, which ran for what `shown` says.
pub fn finished_line(job: &str, success: bool, shown: &str) -> (text: String)
    ensures
        text@ == finished_text(job@, success, shown@),
{
    let mut text = String::from_str(job);
    text.append(" process finished indicating ");
    if success {
        text.append("success");
    } else {
        text.append("failure");
    }
    text.append(" after running for ");
    text.append(shown);
    text
}

impl Elapsed {
    /// Shows the run time in a short form for the user.
    pub fn text(&self) -> (text: String)
        ensures
            text@ == duration_text(self.seconds(), self.nanoseconds()),
    {
        show_duration(self.as_secs(), self.subsec_nanos())
    }
}

impl Notice {
    /// Writes the line that tells the notice of the job called `job`.
    pub fn text(&self, job: &str) -> (text: String)
        ensures
            text@ == notice_text(*self, job@),
    {
        let mut text = String::from_str(job);
        match self {
            Notice::Starting => {
                text.append(" starting");
                text
            },
            Notice::StdoutLine(line) => {
                text.append(": ");
                text.append(line.as_str());
                text
            },
            Notice::StderrLine(line) => {
                text.append(" (stderr): ");
                text.append(line.as_str());
                text
            },
            Notice::Restarting => {
                text.append(" restarting");
                text
            },
            Notice::Stopping => {
                text.append(" stopping");
                text
            },
            Notice::Finished { success, elapsed } => {
                let shown = elapsed.text();
                finished_line(job, *success, shown.as_str())
            },
            Notice::RestartingIn { seconds } => {
                text.append(" restarting in ");
                let shown = decimal_text(*seconds);
                text.append(shown.as_str());
                text.append(" seconds");
                text
            },
            Notice::NotAwaited { reason } => {
                text.append(" could not be awaited (");
                text.append(reason.as_str());
                text.append(")");
                text
            },
        }
    }
}

} // verus!
