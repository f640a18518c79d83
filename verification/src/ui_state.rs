//! The state behind the screens: which pane is active, which dialog is
//! open, how far the start-up and the first-run form have come.

use vstd::prelude::*;
use vstd::string::*;

verus! {

/// What the keyboard is steering.
#[derive(Clone, Copy, Debug, PartialEq, Eq, Structural)]
pub enum AppMode {
    Normal,
    EditConfig,
    Confirmation,
}

/// What an answer to a confirmation dialog sets off.
#[derive(Clone, Copy, Debug, PartialEq, Eq, Structural)]
pub enum ConfirmationCallback {
    KubernetesCA,
    CAChain,
    DistributePending,
    RootCA,
    AutomateAll,
    VerifyChains,
}

/// A question put to the operator.
#[derive(Clone, Debug, PartialEq, Eq)]
pub struct ConfirmationDialog {
    pub message: String,
    pub callback: ConfirmationCallback,
}

/// A movement of a scrolled pane.
#[derive(Clone, Copy, Debug, PartialEq, Eq, Structural)]
pub enum ScrollDirection {
    Up,
    Down,
    PageUp,
    PageDown,
    Bottom,
    Top,
}

/// The panes of the main screen, in the order they are walked through.
#[derive(Clone, Copy, Debug, PartialEq, Eq, Structural)]
pub enum ActiveSection {
    Menu,
    CertStatus,
    Logs,
    TrustInfo,
}

/// The place of a pane in the round.
pub open spec fn section_rank(s: ActiveSection) -> int {
    match s {
        ActiveSection::Menu => 0,
        ActiveSection::CertStatus => 1,
        ActiveSection::Logs => 2,
        ActiveSection::TrustInfo => 3,
    }
}

impl ActiveSection {
    /// The pane after this one; after the last comes the first.
    pub fn next(self) -> (r: Self)
        ensures
            section_rank(r) == (section_rank(self) + 1) % 4,
    {
        match self {
            ActiveSection::Menu => ActiveSection::CertStatus,
            ActiveSection::CertStatus => ActiveSection::Logs,
            ActiveSection::Logs => ActiveSection::TrustInfo,
            ActiveSection::TrustInfo => ActiveSection::Menu,
        }
    }

    /// The pane before this one; before the first comes the last.
    pub fn prev(self) -> (r: Self)
        ensures
            section_rank(r) == (section_rank(self) + 3) % 4,
    {
        match self {
            ActiveSection::Menu => ActiveSection::TrustInfo,
            ActiveSection::CertStatus => ActiveSection::Menu,
            ActiveSection::Logs => ActiveSection::CertStatus,
            ActiveSection::TrustInfo => ActiveSection::Logs,
        }
    }
}

/// A pane is known by its place, so a step forward and a step back cancel.
pub proof fn lemma_section_rank_injective(a: ActiveSection, b: ActiveSection)
    ensures
        section_rank(a) == section_rank(b) ==> a == b,
{
}

/// How far a start-up step has come.
#[derive(Clone, Debug, PartialEq, Eq)]
pub enum StepStatus {
    Pending,
    InProgress,
    Complete,
    Warning(String),
    Failed(String),
}

/// The steps of the start-up and the one that is running.
#[derive(Clone, Debug, PartialEq, Eq)]
pub struct LoadingState {
    pub steps: Vec<(String, StepStatus)>,
    pub current_step: usize,
}

/// The labels of the start-up steps.
pub open spec fn loading_labels() -> Seq<Seq<char>> {
    seq![
        "Loading configuration..."@,
        "Initializing web server..."@,
        "Verifying SSH connections..."@,
        "Initializing certificate manager..."@,
    ]
}

/// The status of step `i` after the running step `at` of `count` was
/// closed: the running step is complete, the one after it is in progress,
/// every other keeps its status.
pub open spec fn status_after(before: StepStatus, i: int, at: int) -> StepStatus {
    if i == at {
        StepStatus::Complete
    } else if i == at + 1 {
        StepStatus::InProgress
    } else {
        before
    }
}

/// How closing the running step changes the start-up.
pub open spec fn stepped(before: LoadingState, after: LoadingState) -> bool {
    if before.current_step >= before.steps@.len() {
        after == before
    } else {
        &&& after.current_step == before.current_step + 1
        &&& after.steps@.len() == before.steps@.len()
        &&& forall|i: int|
            0 <= i < before.steps@.len() ==> (#[trigger] after.steps@[i]).0 == before.steps@[i].0
                && after.steps@[i].1 == status_after(
                before.steps@[i].1,
                i,
                before.current_step as int,
            )
    }
}

impl LoadingState {
    /// The start-up before its first step.
    pub fn new() -> (r: Self)
        ensures
            r.current_step == 0,
            r.steps@.len() == 4,
            forall|i: int|
                0 <= i < 4 ==> (#[trigger] r.steps@[i]).0@ == loading_labels()[i] && r.steps@[i].1
                    is Pending,
    {
        let steps = vec![
            (String::from_str("Loading configuration..."), StepStatus::Pending),
            (String::from_str("Initializing web server..."), StepStatus::Pending),
            (String::from_str("Verifying SSH connections..."), StepStatus::Pending),
            (String::from_str("Initializing certificate manager..."), StepStatus::Pending),
        ];
        LoadingState { steps, current_step: 0 }
    }

    /// Closes the running step and opens the one after it. Once every step
    /// is closed nothing changes any more.
    pub fn next_step(&mut self)
        ensures
            stepped(*old(self), *final(self)),
    {
        if self.current_step < self.steps.len() {
            let at = self.current_step;
            self.steps[at].1 = StepStatus::Complete;
            self.current_step = at + 1;
            if self.current_step < self.steps.len() {
                let next = self.current_step;
                self.steps[next].1 = StepStatus::InProgress;
            }
        }
    }
}

/// One field of the first-run form.
#[derive(Clone, Debug, PartialEq, Eq)]
pub struct OnboardingField {
    pub label: String,
    pub value: String,
    pub editing: bool,
}

/// The first-run form.
#[derive(Clone, Debug, PartialEq, Eq)]
pub struct OnboardingState {
    pub fields: Vec<OnboardingField>,
    pub current_field: usize,
    pub completed: bool,
}

/// The labels of the first-run form.
pub open spec fn onboarding_labels() -> Seq<Seq<char>> {
    seq![
        "Control Plane IP"@,
        "Worker Node IPs (comma-separated)"@,
        "SSH Key Path"@,
        "Remote User"@,
    ]
}

fn blank(label: &str) -> (r: OnboardingField)
    ensures
        r.label@ == label@,
        r.value@.len() == 0,
        !r.editing,
{
    OnboardingField { label: String::from_str(label), value: String::new(), editing: false }
}

/// How a move to the next field changes the form: the cursor goes one
/// field on, the first after the last; the field it comes to is open for
/// editing and every other is closed or as it was; labels and values stay.
pub open spec fn moved_on(before: OnboardingState, after: OnboardingState) -> bool {
    let count = before.fields@.len() as int;
    let to = (before.current_field + 1) % count;
    &&& after.current_field == to
    &&& after.completed == before.completed
    &&& after.fields@.len() == count
    &&& forall|i: int|
        0 <= i < count ==> (#[trigger] after.fields@[i]).label == before.fields@[i].label
            && after.fields@[i].value == before.fields@[i].value && after.fields@[i].editing == (
        if i == to {
            true
        } else if i == before.current_field {
            false
        } else {
            before.fields@[i].editing
        })
}

impl OnboardingState {
    /// The form has a field under the cursor.
    pub open spec fn wf(&self) -> bool {
        self.current_field < self.fields@.len()
    }

    /// The empty form, with the cursor on its first field.
    pub fn new() -> (r: Self)
        ensures
            r.wf(),
            r.current_field == 0,
            !r.completed,
            r.fields@.len() == 4,
            forall|i: int|
                0 <= i < 4 ==> (#[trigger] r.fields@[i]).label@ == onboarding_labels()[i]
                    && r.fields@[i].value@.len() == 0 && !r.fields@[i].editing,
    {
        let fields = vec![
            blank("Control Plane IP"),
            blank("Worker Node IPs (comma-separated)"),
            blank("SSH Key Path"),
            blank("Remote User"),
        ];
        OnboardingState { fields, current_field: 0, completed: false }
    }

    /// Moves the cursor to the next field, the first after the last, and
    /// opens that field for editing; the field left behind is closed.
    pub fn next_field(&mut self)
        requires
            old(self).wf(),
        ensures
            final(self).wf(),
            moved_on(*old(self), *final(self)),
    {
        let from = self.current_field;
        let count = self.fields.len();
        self.fields[from].editing = false;
        let to = (from + 1) % count;
        self.current_field = to;
        self.fields[to].editing = true;
    }
}

/// Where the web server listens and whether it runs.
#[derive(Clone, Copy, Debug, PartialEq, Eq, Structural)]
pub struct WebServerState {
    pub is_running: bool,
    pub port: u16,
}

/// The port the web server takes when none is asked for.
pub const DEFAULT_PORT: u16 = 3000;

impl WebServerState {
    /// A server that does not run yet, on `port` or on the default port.
    pub fn new(port: Option<u16>) -> (r: Self)
        ensures
            !r.is_running,
            r.port == match port {
                Some(p) => p,
                None => DEFAULT_PORT,
            },
    {
        WebServerState {
            is_running: false,
            port: match port {
                Some(p) => p,
                None => DEFAULT_PORT,
            },
        }
    }
}

/// What the command line asks for.
#[derive(Clone, Debug, PartialEq, Eq)]
pub struct Args {
    pub config: String,
    pub debug: bool,
    pub port: u16,
}

} // verus!
