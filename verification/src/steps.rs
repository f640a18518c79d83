//! Runbooks: the outside work of an operation, laid out step by step.
//!
//! The library decides what is to be done, in which order, and what each
//! outcome means. Whoever drives a runbook performs one step, reports what
//! happened, and asks `Plan::advance` where to go on.

use vstd::prelude::*;
use vstd::string::*;
use crate::error::{CertOperationError, ErrorView, IoFailure, IoFailureView, IoKind};
use crate::text::texts;

verus! {

/// A program to run with its arguments.
#[derive(Clone, Debug, PartialEq, Eq)]
pub struct Invocation {
    pub program: String,
    pub args: Vec<String>,
}

/// The mathematical content of an invocation.
pub struct InvocationView {
    pub program: Seq<char>,
    pub args: Seq<Seq<char>>,
}

impl View for Invocation {
    type V = InvocationView;

    open spec fn view(&self) -> InvocationView {
        InvocationView { program: self.program@, args: texts(self.args@) }
    }
}

impl Invocation {
    /// The command that runs `program` with `args`.
    pub fn new(program: &str, args: Vec<String>) -> (r: Self)
        ensures
            r@ == (InvocationView { program: program@, args: texts(args@) }),
    {
        Invocation { program: String::from_str(program), args }
    }
}

/// Which error a tool's refusal becomes.
#[derive(Clone, Copy, Debug, PartialEq, Eq, Structural)]
pub enum FailureKind {
    CertGeneration,
    Distribution,
    Verification,
}

/// The permission bits of a file that its owner alone may read and write.
pub const OWNER_ONLY: u32 = 0o600;

/// One piece of outside work.
#[derive(Clone, Debug, PartialEq, Eq)]
pub enum Step {
    /// Tell the operator.
    Log(String),
    /// Tell the operator when debugging is on.
    DebugLog(String),
    /// Create a directory and its parents.
    CreateDir(String),
    /// Write a file, replacing what was there.
    WriteFile { path: String, content: String },
    /// Remove a file; a failure to do so is of no consequence.
    RemoveFile(String),
    /// Set the permission bits of a file to `mode`.
    Restrict { path: String, mode: u32 },
    /// Stop with `NotFound` unless the file exists.
    RequireFile { path: String, missing: String },
    /// When every one of `paths` exists, log `notice` and pass over the next `skip` steps.
    SkipIfPresent { paths: Vec<String>, skip: usize, notice: String },
    /// Write to `target` the chain made of the files `first` and `second`.
    JoinFiles { first: String, second: String, target: String },
    /// Try a tool whose refusal is no error: when it exits with a non-zero
    /// status, log `notice` and pass over the next `skip` steps.
    Attempt { command: Invocation, skip: usize, notice: String },
    /// Run a tool. Its standard output goes to the file `capture`, if any.
    /// Once it has returned, the file `cleanup` is removed, if any. A
    /// non-zero exit stops the runbook with an error of kind `kind` whose
    /// text is `context`, a colon, and what the tool wrote to standard error.
    Run {
        command: Invocation,
        capture: Option<String>,
        cleanup: Option<String>,
        kind: FailureKind,
        context: String,
    },
}

/// The mathematical content of a step.
pub enum StepView {
    Log(Seq<char>),
    DebugLog(Seq<char>),
    CreateDir(Seq<char>),
    WriteFile { path: Seq<char>, content: Seq<char> },
    RemoveFile(Seq<char>),
    Restrict { path: Seq<char>, mode: u32 },
    RequireFile { path: Seq<char>, missing: Seq<char> },
    SkipIfPresent { paths: Seq<Seq<char>>, skip: nat, notice: Seq<char> },
    JoinFiles { first: Seq<char>, second: Seq<char>, target: Seq<char> },
    Attempt { command: InvocationView, skip: nat, notice: Seq<char> },
    Run {
        command: InvocationView,
        capture: Option<Seq<char>>,
        cleanup: Option<Seq<char>>,
        kind: FailureKind,
        context: Seq<char>,
    },
}

/// The character sequence of an optional string.
pub open spec fn opt_view(s: Option<String>) -> Option<Seq<char>> {
    match s {
        Some(t) => Some(t@),
        None => None,
    }
}

impl View for Step {
    type V = StepView;

    open spec fn view(&self) -> StepView {
        match self {
            Step::Log(m) => StepView::Log(m@),
            Step::DebugLog(m) => StepView::DebugLog(m@),
            Step::CreateDir(p) => StepView::CreateDir(p@),
            Step::WriteFile { path, content } => StepView::WriteFile {
                path: path@,
                content: content@,
            },
            Step::RemoveFile(p) => StepView::RemoveFile(p@),
            Step::Restrict { path, mode } => StepView::Restrict { path: path@, mode: *mode },
            Step::RequireFile { path, missing } => StepView::RequireFile {
                path: path@,
                missing: missing@,
            },
            Step::SkipIfPresent { paths, skip, notice } => StepView::SkipIfPresent {
                paths: texts(paths@),
                skip: *skip as nat,
                notice: notice@,
            },
            Step::JoinFiles { first, second, target } => StepView::JoinFiles {
                first: first@,
                second: second@,
                target: target@,
            },
            Step::Attempt { command, skip, notice } => StepView::Attempt {
                command: command@,
                skip: *skip as nat,
                notice: notice@,
            },
            Step::Run { command, capture, cleanup, kind, context } => StepView::Run {
                command: command@,
                capture: opt_view(*capture),
                cleanup: opt_view(*cleanup),
                kind: *kind,
                context: context@,
            },
        }
    }
}

/// What happened when a step was performed.
#[derive(Clone, Debug, PartialEq, Eq)]
pub enum Outcome {
    /// The work was done; for a test of presence, everything asked for is there.
    Done,
    /// A test of presence found something missing.
    Absent,
    /// The tool ran and exited with a non-zero status.
    Exit { stdout: String, stderr: String },
    /// The operating system refused.
    Fault(IoFailure),
}

/// The mathematical content of an outcome.
pub enum OutcomeView {
    Done,
    Absent,
    Exit { stdout: Seq<char>, stderr: Seq<char> },
    Fault(IoFailureView),
}

impl View for Outcome {
    type V = OutcomeView;

    open spec fn view(&self) -> OutcomeView {
        match self {
            Outcome::Done => OutcomeView::Done,
            Outcome::Absent => OutcomeView::Absent,
            Outcome::Exit { stdout, stderr } => OutcomeView::Exit {
                stdout: stdout@,
                stderr: stderr@,
            },
            Outcome::Fault(f) => OutcomeView::Fault(f@),
        }
    }
}

/// Where a runbook stands after a step.
#[derive(Clone, Debug, PartialEq, Eq)]
pub enum Progress {
    /// Go on with the step at this index.
    Next(usize),
    /// Every step is done.
    Finished,
    /// The operation failed, and nothing more of it is to be run.
    Failed(CertOperationError),
}

/// The mathematical content of a progress.
pub enum ProgressView {
    Next(int),
    Finished,
    Failed(ErrorView),
}

impl View for Progress {
    type V = ProgressView;

    open spec fn view(&self) -> ProgressView {
        match self {
            Progress::Next(i) => ProgressView::Next(*i as int),
            Progress::Finished => ProgressView::Finished,
            Progress::Failed(e) => ProgressView::Failed(e@),
        }
    }
}

/// The error of a tool that refused.
pub open spec fn refusal(kind: FailureKind, context: Seq<char>, stderr: Seq<char>) -> ErrorView {
    match kind {
        FailureKind::CertGeneration => ErrorView::CertGeneration(context + ": "@ + stderr),
        FailureKind::Distribution => ErrorView::Distribution(context + ": "@ + stderr),
        FailureKind::Verification => ErrorView::Verification(context + ": "@ + stderr),
    }
}

/// The error with which `outcome` ends the runbook at `step`, if it does.
pub open spec fn verdict(step: StepView, outcome: OutcomeView) -> Option<ErrorView> {
    match step {
        StepView::Log(_) => None,
        StepView::DebugLog(_) => None,
        StepView::RemoveFile(_) => None,
        StepView::SkipIfPresent { .. } => None,
        StepView::RequireFile { path, missing } => match outcome {
            OutcomeView::Done => None,
            _ => Some(
                ErrorView::IoError(IoFailureView { kind: IoKind::NotFound, message: missing }),
            ),
        },
        StepView::Run { command, capture, cleanup, kind, context } => match outcome {
            OutcomeView::Done => None,
            OutcomeView::Absent => None,
            OutcomeView::Exit { stdout, stderr } => Some(refusal(kind, context, stderr)),
            OutcomeView::Fault(f) => Some(ErrorView::IoError(f)),
        },
        _ => match outcome {
            OutcomeView::Fault(f) => Some(ErrorView::IoError(f)),
            _ => None,
        },
    }
}

/// How many of the steps that follow `step` are passed over after `outcome`.
pub open spec fn skipped(step: StepView, outcome: OutcomeView) -> nat {
    match step {
        StepView::SkipIfPresent { paths, skip, notice } => if outcome is Done {
            skip
        } else {
            0
        },
        StepView::Attempt { command, skip, notice } => if outcome is Done {
            0
        } else {
            skip
        },
        _ => 0,
    }
}

/// Where a runbook of `len` steps stands once the step at `at` had `outcome`.
pub open spec fn after(len: int, at: int, step: StepView, outcome: OutcomeView) -> ProgressView {
    match verdict(step, outcome) {
        Some(e) => ProgressView::Failed(e),
        None => if at + 1 + skipped(step, outcome) < len {
            ProgressView::Next(at + 1 + skipped(step, outcome))
        } else {
            ProgressView::Finished
        },
    }
}

/// The views of a sequence of steps.
pub open spec fn step_views(steps: Seq<Step>) -> Seq<StepView> {
    Seq::new(steps.len(), |i: int| steps[i]@)
}

/// A runbook.
#[derive(Clone, Debug, PartialEq, Eq)]
pub struct Plan {
    pub steps: Vec<Step>,
}

impl View for Plan {
    type V = Seq<StepView>;

    open spec fn view(&self) -> Seq<StepView> {
        step_views(self.steps@)
    }
}

/// The result of running `plan` from step `at` when the step at index `i`,
/// if it is reached, has the outcome `outcomes(i)`: the error that stops the
/// run, or none when the run reaches the end.
pub open spec fn run_from(
    plan: Seq<StepView>,
    at: int,
    outcomes: spec_fn(int) -> OutcomeView,
) -> Option<ErrorView>
    decreases plan.len() - at,
{
    if at < 0 || at >= plan.len() {
        None
    } else {
        match verdict(plan[at], outcomes(at)) {
            Some(e) => Some(e),
            None => if at + 1 + skipped(plan[at], outcomes(at)) >= plan.len() {
                None
            } else {
                run_from(plan, at + 1 + skipped(plan[at], outcomes(at)), outcomes)
            },
        }
    }
}

/// Whether a run of `plan` from `at` under `outcomes` performs the step at index `target`.
pub open spec fn reaches(
    plan: Seq<StepView>,
    at: int,
    outcomes: spec_fn(int) -> OutcomeView,
    target: int,
) -> bool
    decreases plan.len() - at,
{
    if at < 0 || at >= plan.len() {
        false
    } else if at == target {
        true
    } else {
        match verdict(plan[at], outcomes(at)) {
            Some(e) => false,
            None => if at + 1 + skipped(plan[at], outcomes(at)) >= plan.len() {
                false
            } else {
                reaches(plan, at + 1 + skipped(plan[at], outcomes(at)), outcomes, target)
            },
        }
    }
}

impl Plan {
    /// A runbook without steps.
    pub fn new() -> (r: Self)
        ensures
            r@ == Seq::<StepView>::empty(),
    {
        let r = Plan { steps: Vec::new() };
        assert(r@ =~= Seq::<StepView>::empty());
        r
    }

    /// The number of steps.
    pub fn len(&self) -> (n: usize)
        ensures
            n == self@.len(),
    {
        self.steps.len()
    }

    /// Adds a step at the end.
    pub fn push(&mut self, step: Step)
        ensures
            final(self)@ == old(self)@.push(step@),
    {
        self.steps.push(step);
        assert(self@ =~= old(self)@.push(step@));
    }

    /// Adds the steps of `other` at the end.
    pub fn extend(&mut self, other: Plan)
        ensures
            final(self)@ == old(self)@ + other@,
    {
        let mut other = other;
        let ghost tail = other@;
        self.steps.append(&mut other.steps);
        assert(self@ =~= old(self)@ + tail);
    }

    /// The step at `at`, if the runbook has one there.
    pub fn step(&self, at: usize) -> (r: Option<&Step>)
        ensures
            at < self@.len() ==> (r matches Some(s) && s@ == self@[at as int]),
            at >= self@.len() ==> r is None,
    {
        if at < self.steps.len() {
            Some(&self.steps[at])
        } else {
            None
        }
    }

    /// Decides how the runbook goes on after the step at `at` had `outcome`.
    pub fn advance(&self, at: usize, outcome: &Outcome) -> (r: Progress)
        requires
            at < self@.len(),
        ensures
            r@ == after(self@.len() as int, at as int, self@[at as int], outcome@),
    {
        let step = &self.steps[at];
        assert(step@ == self@[at as int]);
        let failure: Option<CertOperationError> = match step {
            Step::Log(_) => None,
            Step::DebugLog(_) => None,
            Step::RemoveFile(_) => None,
            Step::SkipIfPresent { .. } => None,
            Step::RequireFile { path, missing } => match outcome {
                Outcome::Done => None,
                _ => Some(CertOperationError::IoError(IoFailure::not_found(missing.clone()))),
            },
            Step::Run { command, capture, cleanup, kind, context } => match outcome {
                Outcome::Done => None,
                Outcome::Absent => None,
                Outcome::Exit { stdout, stderr } => {
                    let text = context.clone().concat(": ").concat(stderr.as_str());
                    Some(
                        match kind {
                            FailureKind::CertGeneration => CertOperationError::CertGeneration(text),
                            FailureKind::Distribution => CertOperationError::Distribution(text),
                            FailureKind::Verification => CertOperationError::Verification(text),
                        },
                    )
                },
                Outcome::Fault(f) => Some(CertOperationError::IoError(f.duplicate())),
            },
            _ => match outcome {
                Outcome::Fault(f) => Some(CertOperationError::IoError(f.duplicate())),
                _ => None,
            },
        };
        match failure {
            Some(e) => Progress::Failed(e),
            None => {
                let jump: usize = match step {
                    Step::SkipIfPresent { paths, skip, notice } => match outcome {
                        Outcome::Done => *skip,
                        _ => 0,
                    },
                    Step::Attempt { command, skip, notice } => match outcome {
                        Outcome::Done => 0,
                        _ => *skip,
                    },
                    _ => 0,
                };
                let rest = self.steps.len() - at - 1;
                if jump < rest {
                    Progress::Next(at + 1 + jump)
                } else {
                    Progress::Finished
                }
            },
        }
    }
}

} // verus!
