//! Scripts of host commands: what to run next, given how the last command
//! ended.

use crate::text::views;
use vstd::prelude::*;

verus! {

/// How long a script waits before it asks again for a device to appear, in
/// milliseconds.
pub const POLL_INTERVAL_MILLIS: u64 = 50;

/// What the end of a command means for the script.
#[derive(Debug, Clone, Copy, PartialEq, Eq, Structural)]
pub enum StepRule {
    /// The command has to succeed; the script goes on with the next step.
    MustSucceed,
    /// When the command succeeds, the next `skip` steps are left out.
    WhenPresentSkip(usize),
    /// When the command succeeds, the script fails: the device is there
    /// already.
    FailWhenPresent,
    /// The command is run again, after a pause, until it succeeds.
    RetryUntilSuccess,
}

/// One command of a script: the arguments of `ip`, and the rule that its end
/// falls under.
#[derive(Debug, PartialEq, Eq)]
pub struct Step {
    pub args: Vec<String>,
    pub rule: StepRule,
}

/// What the caller does next.
#[derive(Debug, Clone, Copy, PartialEq, Eq, Structural)]
pub enum Next {
    /// Run the step at this place.
    Run(usize),
    /// Wait this many milliseconds, then run the step at this place.
    RunAfter(u64, usize),
    /// The script is done.
    Done,
    /// The script has failed at the step at this place.
    Failed(usize),
}

/// Where a script goes after the step at `at` ended, by the step's rule.
pub open spec fn next_after(rule: StepRule, at: int, len: int, success: bool) -> Next {
    match rule {
        StepRule::MustSucceed => if success {
            place(at + 1, len)
        } else {
            Next::Failed(at as usize)
        },
        StepRule::WhenPresentSkip(skip) => if success {
            place(at + 1 + skip, len)
        } else {
            place(at + 1, len)
        },
        StepRule::FailWhenPresent => if success {
            Next::Failed(at as usize)
        } else {
            place(at + 1, len)
        },
        StepRule::RetryUntilSuccess => if success {
            place(at + 1, len)
        } else {
            Next::RunAfter(POLL_INTERVAL_MILLIS, at as usize)
        },
    }
}

/// The step at `at`, or the end of the script.
pub open spec fn place(at: int, len: int) -> Next {
    if at < len {
        Next::Run(at as usize)
    } else {
        Next::Done
    }
}

/// A list of commands and their rules.
#[derive(Debug, PartialEq, Eq)]
pub struct Script {
    pub steps: Vec<Step>,
}

impl Script {
    /// The arguments of each step.
    pub open spec fn commands(&self) -> Seq<Seq<Seq<char>>> {
        Seq::new(self.steps@.len(), |i: int| views(self.steps@[i].args@))
    }

    /// The rule of each step.
    pub open spec fn rules(&self) -> Seq<StepRule> {
        Seq::new(self.steps@.len(), |i: int| self.steps@[i].rule)
    }

    /// Where the script begins.
    pub fn first(&self) -> (next: Next)
        ensures
            next == place(0, self.steps@.len() as int),
    {
        if self.steps.len() > 0 {
            Next::Run(0)
        } else {
            Next::Done
        }
    }

    /// Where the script goes after the step at `at` ended with `success`.
    pub fn advance(&self, at: usize, success: bool) -> (next: Next)
        requires
            at < self.steps@.len(),
        ensures
            next == next_after(self.rules()[at as int], at as int, self.steps@.len() as int, success),
    {
        let len: usize = self.steps.len();
        match self.steps[at].rule {
            StepRule::MustSucceed => {
                if success {
                    Script::place(at + 1, len)
                } else {
                    Next::Failed(at)
                }
            },
            StepRule::WhenPresentSkip(skip) => {
                if success {
                    if skip < len - at {
                        Script::place(at + 1 + skip, len)
                    } else {
                        Next::Done
                    }
                } else {
                    Script::place(at + 1, len)
                }
            },
            StepRule::FailWhenPresent => {
                if success {
                    Next::Failed(at)
                } else {
                    Script::place(at + 1, len)
                }
            },
            StepRule::RetryUntilSuccess => {
                if success {
                    Script::place(at + 1, len)
                } else {
                    Next::RunAfter(POLL_INTERVAL_MILLIS, at)
                }
            },
        }
    }

    fn place(at: usize, len: usize) -> (next: Next)
        ensures
            next == place(at as int, len as int),
    {
        if at < len {
            Next::Run(at)
        } else {
            Next::Done
        }
    }
}

/// A step from its words.
pub fn step(words: Vec<String>, rule: StepRule) -> (step: Step)
    ensures
        step.args == words,
        step.rule == rule,
{
    Step { args: words, rule }
}

/// A process to start: the program and its arguments.
#[derive(Debug, PartialEq, Eq)]
pub struct Spawn {
    pub program: String,
    pub args: Vec<String>,
}

} // verus!
