//! Lifecycle plans: the ordered steps of an install or uninstall, the rule
//! that says how a run goes on after each step, and a model of what the
//! registry steps do to the set of registry keys.

use vstd::prelude::*;
use vstd::string::*;

verus! {

/// A root of the registry.
#[derive(Clone, Copy, Debug, PartialEq, Eq, Structural)]
pub enum Hive {
    /// `HKEY_CURRENT_USER`.
    CurrentUser,
    /// `HKEY_LOCAL_MACHINE`.
    LocalMachine,
}

/// A value stored under a registry key.
#[derive(Clone, Debug, PartialEq, Eq)]
pub enum RegistryValue {
    /// A string value.
    Text(String),
    /// A 32-bit number.
    Number(u32),
}

/// What a step asks the operating system to do.
#[derive(Clone, Debug, PartialEq, Eq)]
pub enum Action {
    /// Create the directory `path` and its parents if it is absent.
    EnsureDir { path: String },
    /// Copy the file `from` to `to`, replacing what is there.
    CopyFile { from: String, to: String },
    /// Create the shell link `link` that points at `target`.
    CreateShortcut { link: String, target: String },
    /// Delete the file `path`.
    RemoveFile { path: String },
    /// Create the key `path` under `hive`, with the keys above it.
    CreateKey { hive: Hive, path: String },
    /// Store `value` as `name` under the key `path`.
    SetValue { hive: Hive, path: String, name: String, value: RegistryValue },
    /// Ask for the size of `file` and store the estimate that
    /// `size_record` derives from the answer under the key `path`.
    RecordSize { hive: Hive, path: String, file: String },
    /// Delete the key `path`, which must have no subkeys.
    DeleteKey { hive: Hive, path: String },
    /// Delete the key `path` with everything below it.
    DeleteTree { hive: Hive, path: String },
    /// Write `content` to the file `path`.
    WriteFile { path: String, content: String },
    /// Start `program` with `args` as a detached process.
    Spawn { program: String, args: Vec<String> },
    /// End the current process with `code`.
    Exit { code: i32 },
}

/// One step of a plan. A failing step ends the run unless it is
/// best-effort.
#[derive(Clone, Debug, PartialEq, Eq)]
pub struct Step {
    pub action: Action,
    pub best_effort: bool,
}

/// The steps of an install or uninstall, in the order they run.
#[derive(Clone, Debug, PartialEq, Eq)]
pub struct Plan {
    pub steps: Vec<Step>,
}

/// How a run goes on after a step.
#[derive(Clone, Debug, PartialEq, Eq)]
pub enum Progress {
    /// Run the step at `next`.
    Continue { next: usize },
    /// Stop: a step that the rest depends on failed with `message`.
    Aborted { message: String },
    /// Every step has run.
    Finished,
}

/// A registry value, its text as characters.
pub enum RegistryValueView {
    Text(Seq<char>),
    Number(u32),
}

/// An action, every path and text as characters.
pub enum ActionView {
    EnsureDir { path: Seq<char> },
    CopyFile { from: Seq<char>, to: Seq<char> },
    CreateShortcut { link: Seq<char>, target: Seq<char> },
    RemoveFile { path: Seq<char> },
    CreateKey { hive: Hive, path: Seq<char> },
    SetValue { hive: Hive, path: Seq<char>, name: Seq<char>, value: RegistryValueView },
    RecordSize { hive: Hive, path: Seq<char>, file: Seq<char> },
    DeleteKey { hive: Hive, path: Seq<char> },
    DeleteTree { hive: Hive, path: Seq<char> },
    WriteFile { path: Seq<char>, content: Seq<char> },
    Spawn { program: Seq<char>, args: Seq<Seq<char>> },
    Exit { code: i32 },
}

/// A step, its action as characters.
pub struct StepView {
    pub action: ActionView,
    pub best_effort: bool,
}

/// How a run goes on, the message as characters.
pub enum ProgressView {
    Continue { next: usize },
    Aborted { message: Seq<char> },
    Finished,
}

impl View for RegistryValue {
    type V = RegistryValueView;

    open spec fn view(&self) -> RegistryValueView {
        match *self {
            RegistryValue::Text(s) => RegistryValueView::Text(s@),
            RegistryValue::Number(n) => RegistryValueView::Number(n),
        }
    }
}

impl View for Action {
    type V = ActionView;

    open spec fn view(&self) -> ActionView {
        match *self {
            Action::EnsureDir { path } => ActionView::EnsureDir { path: path@ },
            Action::CopyFile { from, to } => ActionView::CopyFile { from: from@, to: to@ },
            Action::CreateShortcut { link, target } => ActionView::CreateShortcut {
                link: link@,
                target: target@,
            },
            Action::RemoveFile { path } => ActionView::RemoveFile { path: path@ },
            Action::CreateKey { hive, path } => ActionView::CreateKey { hive, path: path@ },
            Action::SetValue { hive, path, name, value } => ActionView::SetValue {
                hive,
                path: path@,
                name: name@,
                value: value@,
            },
            Action::RecordSize { hive, path, file } => ActionView::RecordSize {
                hive,
                path: path@,
                file: file@,
            },
            Action::DeleteKey { hive, path } => ActionView::DeleteKey { hive, path: path@ },
            Action::DeleteTree { hive, path } => ActionView::DeleteTree { hive, path: path@ },
            Action::WriteFile { path, content } => ActionView::WriteFile {
                path: path@,
                content: content@,
            },
            Action::Spawn { program, args } => ActionView::Spawn {
                program: program@,
                args: args@.map_values(|a: String| a@),
            },
            Action::Exit { code } => ActionView::Exit { code },
        }
    }
}

impl View for Step {
    type V = StepView;

    open spec fn view(&self) -> StepView {
        StepView { action: self.action@, best_effort: self.best_effort }
    }
}

impl View for Plan {
    type V = Seq<StepView>;

    open spec fn view(&self) -> Seq<StepView> {
        self.steps@.map_values(|s: Step| s@)
    }
}

impl View for Progress {
    type V = ProgressView;

    open spec fn view(&self) -> ProgressView {
        match *self {
            Progress::Continue { next } => ProgressView::Continue { next },
            Progress::Aborted { message } => ProgressView::Aborted { message: message@ },
            Progress::Finished => ProgressView::Finished,
        }
    }
}

/// A step that the rest of the plan depends on.
pub open spec fn required(action: ActionView) -> StepView {
    StepView { action, best_effort: false }
}

/// A step whose failure is passed over.
pub open spec fn attempted(action: ActionView) -> StepView {
    StepView { action, best_effort: true }
}

/// The hive that `action` touches, and `None` for an action outside the
/// registry.
pub open spec fn action_hive(action: ActionView) -> Option<Hive> {
    match action {
        ActionView::CreateKey { hive, .. } => Some(hive),
        ActionView::SetValue { hive, .. } => Some(hive),
        ActionView::RecordSize { hive, .. } => Some(hive),
        ActionView::DeleteKey { hive, .. } => Some(hive),
        ActionView::DeleteTree { hive, .. } => Some(hive),
        _ => None,
    }
}

/// `holds` is true of every step of `plan`.
pub open spec fn every_step(plan: Seq<StepView>, holds: spec_fn(StepView) -> bool) -> bool {
    forall|i: int| 0 <= i < plan.len() ==> #[trigger] holds(plan[i])
}

/// What holds of every step of two plans holds of every step of the two as
/// one plan.
pub proof fn every_step_concat(
    first: Seq<StepView>,
    second: Seq<StepView>,
    holds: spec_fn(StepView) -> bool,
)
    requires
        every_step(first, holds),
        every_step(second, holds),
    ensures
        every_step(first + second, holds),
{
}

/// What holds of every step of a plan holds of its last step and of every
/// step before it.
pub proof fn every_step_unfold(plan: Seq<StepView>, holds: spec_fn(StepView) -> bool)
    requires
        every_step(plan, holds),
        plan.len() > 0,
    ensures
        every_step(plan.drop_last(), holds),
        holds(plan.last()),
{
}

/// `step` is outside the registry or touches `hive`.
pub open spec fn stays_in(step: StepView, hive: Hive) -> bool {
    action_hive(step.action) matches Some(h) ==> h == hive
}

/// `step` is best-effort if it deletes a single key, and only then.
pub open spec fn best_effort_iff_deletion(step: StepView) -> bool {
    step.best_effort <==> step.action is DeleteKey
}

/// Every registry step of `plan` touches `hive`.
pub open spec fn touches_only(plan: Seq<StepView>, hive: Hive) -> bool {
    every_step(plan, |step: StepView| stays_in(step, hive))
}

/// Every step of `plan` but a key deletion is one that the rest depends on,
/// and every key deletion is best-effort.
pub open spec fn only_deletions_are_best_effort(plan: Seq<StepView>) -> bool {
    every_step(plan, |step: StepView| best_effort_iff_deletion(step))
}

/// The message of a failed step, and `None` for a step that succeeded.
pub open spec fn failure_of(outcome: Result<(), String>) -> Option<Seq<char>> {
    match outcome {
        Ok(_) => None,
        Err(message) => Some(message@),
    }
}

/// How a run goes on after the step at `index` ended, with `failure` where
/// it failed: a failed step that the rest depends on ends the run with its
/// message; otherwise the next step runs, if there is one.
pub open spec fn progress_after(
    plan: Seq<StepView>,
    index: int,
    failure: Option<Seq<char>>,
) -> ProgressView {
    if 0 <= index < plan.len() && failure is Some && !plan[index].best_effort {
        ProgressView::Aborted { message: failure->0 }
    } else if 0 <= index && index + 1 < plan.len() {
        ProgressView::Continue { next: (index + 1) as usize }
    } else {
        ProgressView::Finished
    }
}

/// The message with which a run that has reached the step at `from` ends
/// early, where `failures[i]` is how the step at `i` ends if it runs; `None`
/// where the run reaches the end of the plan.
pub open spec fn run_failure(
    plan: Seq<StepView>,
    failures: Seq<Option<Seq<char>>>,
    from: int,
) -> Option<Seq<char>>
    decreases plan.len() - from,
{
    if from < 0 || from >= plan.len() {
        None
    } else {
        match progress_after(plan, from, failures[from]) {
            ProgressView::Aborted { message } => Some(message),
            ProgressView::Continue { next } => run_failure(plan, failures, from + 1),
            ProgressView::Finished => None,
        }
    }
}

/// The step at `index` fails and the rest depends on it.
pub open spec fn fails_hard(
    plan: Seq<StepView>,
    failures: Seq<Option<Seq<char>>>,
    index: int,
) -> bool {
    0 <= index < plan.len() && failures[index] is Some && !plan[index].best_effort
}

/// A run stops at the first failing step that the rest depends on, with
/// that step's message, and at no other: failures of best-effort steps are
/// passed over, and a run without such a failure reaches the end.
pub proof fn run_stops_at_first_required_failure(
    plan: Seq<StepView>,
    failures: Seq<Option<Seq<char>>>,
    from: int,
)
    requires
        0 <= from,
    ensures
        match run_failure(plan, failures, from) {
            Some(message) => exists|at: int|
                from <= at && #[trigger] fails_hard(plan, failures, at) && failures[at] == Some(
                    message,
                ) && forall|earlier: int|
                    from <= earlier < at ==> !fails_hard(plan, failures, earlier),
            None => forall|at: int| from <= at ==> !fails_hard(plan, failures, at),
        },
    decreases plan.len() - from,
{
    if from < plan.len() && !fails_hard(plan, failures, from) {
        run_stops_at_first_required_failure(plan, failures, from + 1);
    }
}

impl Plan {
    /// Decides how the run goes on after the step at `index` ended with
    /// `outcome`.
    pub fn advance(&self, index: usize, outcome: Result<(), String>) -> (progress: Progress)
        ensures
            progress@ == progress_after(self@, index as int, failure_of(outcome)),
    {
        if index >= self.steps.len() {
            return Progress::Finished;
        }
        let hard = !self.steps[index].best_effort;
        match outcome {
            Err(message) => {
                if hard {
                    return Progress::Aborted { message };
                }
            },
            Ok(_) => {},
        }
        if index + 1 < self.steps.len() {
            Progress::Continue { next: index + 1 }
        } else {
            Progress::Finished
        }
    }

    /// The plan without steps.
    pub fn new() -> (plan: Plan)
        ensures
            plan@ == Seq::<StepView>::empty(),
    {
        Plan { steps: Vec::new() }
    }

    /// The number of steps.
    pub fn len(&self) -> (n: usize)
        ensures
            n == self@.len(),
    {
        self.steps.len()
    }

    /// Adds `action` at the end as a step that the rest depends on.
    pub fn require(&mut self, action: Action)
        ensures
            final(self)@ == old(self)@.push(required(action@)),
    {
        self.steps.push(Step { action, best_effort: false });
    }

    /// Adds `action` at the end as a best-effort step.
    pub fn attempt(&mut self, action: Action)
        ensures
            final(self)@ == old(self)@.push(attempted(action@)),
    {
        self.steps.push(Step { action, best_effort: true });
    }

    /// Moves the steps of `other` to the end of this plan.
    pub fn extend(&mut self, other: Plan)
        ensures
            final(self)@ == old(self)@ + other@,
    {
        let mut tail = other;
        self.steps.append(&mut tail.steps);
    }
}

} // verus!
