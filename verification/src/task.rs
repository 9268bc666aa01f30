//! An operation as a task: what it asks the caller to do next, and how it
//! goes on once the caller says what came of that.
//!
//! The library starts no process and touches no file. A task names one
//! [`Action`] at a time; the caller performs it and hands back the
//! [`Event`] that answers it.

use vstd::prelude::*;
use crate::codec::serialize;
use crate::codec::spec_serialize;
use crate::error::outcome;
use crate::error::Error;
use crate::error::ErrorView;
use crate::lock::bump;
use crate::lock::frozen_dependencies;
use crate::lock::spec_bump;
use crate::lock::spec_frozen;
use crate::lock::spec_tidy;
use crate::lock::tidy;
use crate::paths::located;
use crate::paths::parent;
use crate::paths::spec_binaries_path;
use crate::paths::spec_binary_path;
use crate::paths::spec_parent;
use crate::project::push_word;
use crate::project::spec_command;
use crate::project::spec_metadata;
use crate::project::CommandKind;
use crate::project::Project;
use crate::project::ProjectView;
use crate::record::DependencyRecord;
use crate::record::RecordView;

verus! {

/// One step of an operation.
#[derive(Debug, Clone, Copy, PartialEq, Eq, Structural)]
pub enum Step {
    /// The project descriptor must be there.
    RequireDescriptor,
    /// The lock must be there.
    RequireLock,
    /// The environment must be there.
    ExpectVenv,
    /// Create the environment unless it is there.
    EnsureVenv,
    /// Remove the environment if it is there.
    RemoveVenv,
    /// Create the environment.
    CreateVenv,
    /// Run a command inside the environment.
    Command(CommandKind),
    /// Ask the installer what is installed, and keep the answer.
    Freeze,
    /// Write what was frozen as the lock.
    WriteFrozen,
    /// Cut what was frozen down to what the lock tracks, and write that.
    TidyLock,
    /// Pin one dependency of the lock anew.
    BumpLock,
    /// Print where the environment is.
    ShowVenv,
    /// Print where the environment's executables are.
    ShowBinaries,
}

/// How far a step has come. A step begins in `First`; a phase that a step
/// does not have counts as `First`.
#[derive(Debug, Clone, Copy, PartialEq, Eq, Structural)]
pub enum Phase {
    First,
    Second,
    Third,
}

/// An operation under way.
#[derive(Debug)]
pub struct Task {
    /// The steps of the operation.
    pub plan: Vec<Step>,
    /// How many steps are done.
    pub at: usize,
    /// How far the current step has come.
    pub phase: Phase,
    /// Why the operation failed, once it has.
    pub failure: Option<Error>,
    /// What the installer reported as installed.
    pub frozen: Vec<DependencyRecord>,
    /// The text that is about to be written.
    pub text: String,
    /// The words of the user's command.
    pub args: Vec<String>,
    /// The dependency to bump.
    pub name: String,
    /// What to bump it to.
    pub version: String,
    /// Whether that is a source reference.
    pub use_source_ref: bool,
}

/// A [`Task`] with each text as a sequence of characters.
pub struct TaskView {
    pub plan: Seq<Step>,
    pub at: nat,
    pub phase: Phase,
    pub failure: Option<ErrorView>,
    pub frozen: Seq<RecordView>,
    pub text: Seq<char>,
    pub args: Seq<Seq<char>>,
    pub name: Seq<char>,
    pub version: Seq<char>,
    pub use_source_ref: bool,
}

impl View for Task {
    type V = TaskView;

    open spec fn view(&self) -> TaskView {
        TaskView {
            plan: self.plan@,
            at: self.at as nat,
            phase: self.phase,
            failure: match self.failure {
                Some(e) => Some(e@),
                None => None,
            },
            frozen: self.frozen.deep_view(),
            text: self.text@,
            args: self.args.deep_view(),
            name: self.name@,
            version: self.version@,
            use_source_ref: self.use_source_ref,
        }
    }
}

/// What a task asks its caller to do.
#[derive(Debug, PartialEq, Eq)]
pub enum Action {
    /// Say whether the path exists.
    Probe { path: String },
    /// Create the directory and those above it.
    MakeDirs { path: String },
    /// Delete the directory and all below it.
    RemoveTree { path: String },
    /// Run the program to its end in `cwd`; keep its output where
    /// `capture` is set, else let it reach the console.
    Run { program: String, args: Vec<String>, cwd: String, capture: bool },
    /// Read the file.
    ReadText { path: String },
    /// Replace the file by the text, in one write.
    WriteText { path: String, text: String },
    /// Print the line.
    Show { line: String },
    /// Nothing more: the operation is over, with this result.
    Finish { result: Result<(), Error> },
}

/// An [`Action`] with each text as a sequence of characters.
pub enum ActionView {
    Probe { path: Seq<char> },
    MakeDirs { path: Seq<char> },
    RemoveTree { path: Seq<char> },
    Run { program: Seq<char>, args: Seq<Seq<char>>, cwd: Seq<char>, capture: bool },
    ReadText { path: Seq<char> },
    WriteText { path: Seq<char>, text: Seq<char> },
    Show { line: Seq<char> },
    Finish { result: Result<(), ErrorView> },
}

impl View for Action {
    type V = ActionView;

    open spec fn view(&self) -> ActionView {
        match self {
            Action::Probe { path } => ActionView::Probe { path: path@ },
            Action::MakeDirs { path } => ActionView::MakeDirs { path: path@ },
            Action::RemoveTree { path } => ActionView::RemoveTree { path: path@ },
            Action::Run { program, args, cwd, capture } => ActionView::Run {
                program: program@,
                args: args.deep_view(),
                cwd: cwd@,
                capture: *capture,
            },
            Action::ReadText { path } => ActionView::ReadText { path: path@ },
            Action::WriteText { path, text } => ActionView::WriteText { path: path@, text: text@ },
            Action::Show { line } => ActionView::Show { line: line@ },
            Action::Finish { result } => ActionView::Finish { result: outcome(*result) },
        }
    }
}

/// What came of an action.
#[derive(Debug, PartialEq, Eq)]
pub enum Event {
    /// Answers `Probe`.
    Found { present: bool },
    /// Answers `MakeDirs`, `RemoveTree`, `WriteText` and `Show`.
    Done,
    /// Answers `Run`: the exit code, and what the program wrote as far as
    /// it was kept.
    Exited { code: i32, stdout: String, stderr: String },
    /// Answers `ReadText`.
    Text { text: String },
}

/// An [`Event`] with each text as a sequence of characters.
pub enum EventView {
    Found { present: bool },
    Done,
    Exited { code: i32, stdout: Seq<char>, stderr: Seq<char> },
    Text { text: Seq<char> },
}

impl View for Event {
    type V = EventView;

    open spec fn view(&self) -> EventView {
        match self {
            Event::Found { present } => EventView::Found { present: *present },
            Event::Done => EventView::Done,
            Event::Exited { code, stdout, stderr } => EventView::Exited {
                code: *code,
                stdout: stdout@,
                stderr: stderr@,
            },
            Event::Text { text } => EventView::Text { text: text@ },
        }
    }
}

impl TaskView {
    /// The task is over: it failed, or no step is left.
    pub open spec fn over(self) -> bool {
        self.failure is Some || self.at >= self.plan.len()
    }

    /// The task at its next step.
    pub open spec fn next_step(self) -> TaskView {
        TaskView { at: self.at + 1, phase: Phase::First, ..self }
    }

    /// The task in another phase of its step.
    pub open spec fn in_phase(self, phase: Phase) -> TaskView {
        TaskView { phase, ..self }
    }

    /// The task, failed.
    pub open spec fn failed(self, e: ErrorView) -> TaskView {
        TaskView { failure: Some(e), ..self }
    }
}

/// A task that has these steps before it and none behind it.
pub open spec fn spec_fresh(
    plan: Seq<Step>,
    args: Seq<Seq<char>>,
    name: Seq<char>,
    version: Seq<char>,
    use_source_ref: bool,
) -> TaskView {
    TaskView {
        plan,
        at: 0,
        phase: Phase::First,
        failure: None,
        frozen: Seq::empty(),
        text: Seq::empty(),
        args,
        name,
        version,
        use_source_ref,
    }
}

/// The directory above the environment; the empty path where there is none.
pub open spec fn spec_venv_parent(p: ProjectView) -> Seq<char> {
    match spec_parent(p.paths.venv) {
        Some(dir) => dir,
        None => Seq::empty(),
    }
}

/// The call of the interpreter that creates the environment.
pub open spec fn spec_create(p: ProjectView) -> ActionView {
    ActionView::Run {
        program: p.python_info.binary,
        args: if p.settings.system_site_packages {
            seq!["-m"@, "venv"@, p.paths.venv, "--system-site-packages"@]
        } else {
            seq!["-m"@, "venv"@, p.paths.venv]
        },
        cwd: p.paths.project,
        capture: false,
    }
}

/// The file of the executable that a command names with its first word.
pub open spec fn spec_program(p: ProjectView, words: Seq<Seq<char>>) -> Seq<char> {
    spec_binary_path(
        p.paths.venv,
        p.layout,
        if words.len() > 0 {
            words[0]
        } else {
            Seq::empty()
        },
    )
}

/// A command as a call: its executable inside the environment, the words
/// after the first as arguments, run in the project.
pub open spec fn spec_run(p: ProjectView, words: Seq<Seq<char>>, capture: bool) -> ActionView {
    ActionView::Run {
        program: spec_program(p, words),
        args: if words.len() > 0 {
            words.skip(1)
        } else {
            Seq::empty()
        },
        cwd: p.paths.project,
        capture,
    }
}

/// Why a command of this kind failed.
pub open spec fn spec_command_failure(
    p: ProjectView,
    kind: CommandKind,
    words: Seq<Seq<char>>,
    code: i32,
    stderr: Seq<char>,
) -> ErrorView {
    if kind == CommandKind::UpgradePip {
        ErrorView::PipUpgradeFailed
    } else {
        ErrorView::ExternalCommandFailed {
            program: spec_program(p, words),
            exit_code: code,
            stderr,
        }
    }
}

/// What a step asks for in a phase.
pub open spec fn spec_step_action(p: ProjectView, t: TaskView, step: Step, phase: Phase) -> ActionView {
    match step {
        Step::RequireDescriptor => ActionView::Probe { path: p.paths.setup_py },
        Step::RequireLock => ActionView::Probe { path: p.paths.lock },
        Step::ExpectVenv => ActionView::Probe { path: p.paths.venv },
        Step::EnsureVenv => match phase {
            Phase::Second => ActionView::MakeDirs { path: spec_venv_parent(p) },
            Phase::Third => spec_create(p),
            Phase::First => ActionView::Probe { path: p.paths.venv },
        },
        Step::RemoveVenv => match phase {
            Phase::Second => ActionView::RemoveTree { path: p.paths.venv },
            _ => ActionView::Probe { path: p.paths.venv },
        },
        Step::CreateVenv => match phase {
            Phase::Second => spec_create(p),
            _ => ActionView::MakeDirs { path: spec_venv_parent(p) },
        },
        Step::Command(kind) => match phase {
            Phase::Second => spec_run(p, spec_command(p, kind, t.args), false),
            _ => ActionView::Probe { path: spec_program(p, spec_command(p, kind, t.args)) },
        },
        Step::Freeze => match phase {
            Phase::Second => spec_run(p, spec_command(p, CommandKind::Freeze, t.args), true),
            _ => ActionView::Probe {
                path: spec_program(p, spec_command(p, CommandKind::Freeze, t.args)),
            },
        },
        Step::WriteFrozen => ActionView::WriteText {
            path: p.paths.lock,
            text: spec_serialize(t.frozen, spec_metadata(p)),
        },
        Step::TidyLock | Step::BumpLock => match phase {
            Phase::Second => ActionView::WriteText { path: p.paths.lock, text: t.text },
            _ => ActionView::ReadText { path: p.paths.lock },
        },
        Step::ShowVenv => ActionView::Show { line: p.paths.venv },
        Step::ShowBinaries => ActionView::Show { line: spec_binaries_path(p.paths.venv, p.layout) },
    }
}

/// What a task asks for: the end once it is over, else what its step asks
/// for in its phase.
pub open spec fn spec_action(p: ProjectView, t: TaskView) -> ActionView {
    if t.failure is Some {
        ActionView::Finish { result: Err(t.failure->0) }
    } else if t.at >= t.plan.len() {
        ActionView::Finish { result: Ok(()) }
    } else {
        spec_step_action(p, t, t.plan[t.at as int], t.phase)
    }
}

/// The task after an event that answers what its step asked for in its
/// phase. An event that answers something else leaves the task as it is.
pub open spec fn spec_step_advance(
    p: ProjectView,
    t: TaskView,
    step: Step,
    phase: Phase,
    e: EventView,
) -> TaskView {
    match spec_step_action(p, t, step, phase) {
        ActionView::Probe { path } => match e {
            EventView::Found { present } => match step {
                Step::RequireDescriptor => if present {
                    t.next_step()
                } else {
                    t.failed(ErrorView::MissingSetupDescriptor)
                },
                Step::RequireLock => if present {
                    t.next_step()
                } else {
                    t.failed(ErrorView::MissingLock { path })
                },
                Step::ExpectVenv => if present {
                    t.next_step()
                } else {
                    t.failed(ErrorView::MissingEnvironment { path })
                },
                Step::EnsureVenv => if present {
                    t.next_step()
                } else {
                    t.in_phase(Phase::Second)
                },
                Step::RemoveVenv => if present {
                    t.in_phase(Phase::Second)
                } else {
                    t.next_step()
                },
                _ => if present {
                    t.in_phase(Phase::Second)
                } else {
                    t.failed(ErrorView::BinaryNotFound { path })
                },
            },
            _ => t,
        },
        ActionView::MakeDirs { path } => match e {
            EventView::Done => match step {
                Step::EnsureVenv => t.in_phase(Phase::Third),
                _ => t.in_phase(Phase::Second),
            },
            _ => t,
        },
        ActionView::Run { program, args, cwd, capture } => match e {
            EventView::Exited { code, stdout, stderr } => match step {
                Step::Command(kind) => if code == 0 {
                    t.next_step()
                } else {
                    t.failed(
                        spec_command_failure(p, kind, spec_command(p, kind, t.args), code, stderr),
                    )
                },
                Step::Freeze => if code == 0 {
                    match spec_frozen(stdout) {
                        Ok(records) => TaskView { frozen: records, ..t.next_step() },
                        Err(err) => t.failed(err),
                    }
                } else {
                    t.failed(
                        spec_command_failure(
                            p,
                            CommandKind::Freeze,
                            spec_command(p, CommandKind::Freeze, t.args),
                            code,
                            stderr,
                        ),
                    )
                },
                _ => if code == 0 {
                    t.next_step()
                } else {
                    t.failed(ErrorView::EnvironmentCreationFailed)
                },
            },
            _ => t,
        },
        ActionView::ReadText { path } => match e {
            EventView::Text { text } => {
                let written = if step == Step::TidyLock {
                    spec_tidy(text, t.frozen, spec_metadata(p))
                } else {
                    spec_bump(text, t.name, t.version, t.use_source_ref, spec_metadata(p))
                };
                match written {
                    Ok(new_text) => TaskView { text: new_text, ..t.in_phase(Phase::Second) },
                    Err(err) => t.failed(err),
                }
            },
            _ => t,
        },
        ActionView::RemoveTree { .. } | ActionView::WriteText { .. } | ActionView::Show { .. } => match e {
            EventView::Done => t.next_step(),
            _ => t,
        },
        ActionView::Finish { .. } => t,
    }
}

/// The task after an event. A task that is over stays as it is.
pub open spec fn spec_advance(p: ProjectView, t: TaskView, e: EventView) -> TaskView {
    if t.over() {
        t
    } else {
        spec_step_advance(p, t, t.plan[t.at as int], t.phase, e)
    }
}

fn next_step(task: Task) -> (next: Task)
    requires
        task.at < task.plan@.len(),
    ensures
        next@ == task@.next_step(),
{
    let len = task.plan.len();
    assert(task.at < len);
    Task { at: task.at + 1, phase: Phase::First, ..task }
}

fn in_phase(task: Task, phase: Phase) -> (next: Task)
    ensures
        next@ == task@.in_phase(phase),
{
    Task { phase, ..task }
}

fn failed(task: Task, e: Error) -> (next: Task)
    ensures
        next@ == task@.failed(e@),
{
    Task { failure: Some(e), ..task }
}

fn rest_words(words: &Vec<String>) -> (rest: Vec<String>)
    ensures
        rest.deep_view() == if words@.len() > 0 {
            words.deep_view().skip(1)
        } else {
            Seq::<Seq<char>>::empty()
        },
{
    let mut rest: Vec<String> = Vec::new();
    let mut i: usize = 1;
    while i < words.len()
        invariant
            1 <= i,
            words@.len() >= 1 ==> i <= words@.len(),
            rest@.len() == if i <= words@.len() {
                i - 1
            } else {
                0
            },
            forall|k: int| 0 <= k < rest@.len() ==> (#[trigger] rest@[k])@ == words@[k + 1]@,
        decreases words@.len() - i,
    {
        rest.push(words[i].clone());
        i = i + 1;
    }
    assert(rest.deep_view() == if words@.len() > 0 {
        words.deep_view().skip(1)
    } else {
        Seq::<Seq<char>>::empty()
    });
    rest
}

impl Project {
    /// The directory above the environment.
    pub fn venv_parent(&self) -> (dir: String)
        ensures
            dir@ == spec_venv_parent(self@),
    {
        match parent(self.paths.venv.as_str()) {
            Some(dir) => dir,
            None => String::new(),
        }
    }

    fn create(&self) -> (a: Action)
        ensures
            a@ == spec_create(self@),
    {
        let mut args: Vec<String> = Vec::new();
        assert(args.deep_view() == Seq::<Seq<char>>::empty());
        push_word(&mut args, "-m");
        push_word(&mut args, "venv");
        push_word(&mut args, self.paths.venv.as_str());
        assert(args.deep_view() == seq!["-m"@, "venv"@, self.paths.venv@]);
        if self.settings.system_site_packages {
            push_word(&mut args, "--system-site-packages");
            assert(args.deep_view() == seq![
                "-m"@,
                "venv"@,
                self.paths.venv@,
                "--system-site-packages"@,
            ]);
        }
        let a = Action::Run {
            program: self.python_info.binary.clone(),
            args,
            cwd: self.paths.project.clone(),
            capture: false,
        };
        assert(a@ == spec_create(self@));
        a
    }

    fn locate(&self, words: &Vec<String>, present: bool) -> (res: Result<String, Error>)
        ensures
            located(res) == if present {
                Ok::<_, ErrorView>(spec_program(self@, words.deep_view()))
            } else {
                Err(ErrorView::BinaryNotFound { path: spec_program(self@, words.deep_view()) })
            },
    {
        if words.len() > 0 {
            self.paths.resolve_binary(&self.layout, words[0].as_str(), present)
        } else {
            let nothing = String::new();
            self.paths.resolve_binary(&self.layout, nothing.as_str(), present)
        }
    }

    fn program(&self, words: &Vec<String>) -> (path: String)
        ensures
            path@ == spec_program(self@, words.deep_view()),
    {
        if words.len() > 0 {
            self.paths.binary_path(&self.layout, words[0].as_str())
        } else {
            let nothing = String::new();
            self.paths.binary_path(&self.layout, nothing.as_str())
        }
    }

    fn call(&self, words: &Vec<String>, capture: bool) -> (a: Action)
        ensures
            a@ == spec_run(self@, words.deep_view(), capture),
    {
        Action::Run {
            program: self.program(words),
            args: rest_words(words),
            cwd: self.paths.project.clone(),
            capture,
        }
    }

    fn command_failure(&self, kind: CommandKind, words: &Vec<String>, code: i32, stderr: String) -> (e:
        Error)
        ensures
            e@ == spec_command_failure(self@, kind, words.deep_view(), code, stderr@),
    {
        match kind {
            CommandKind::UpgradePip => Error::PipUpgradeFailed,
            _ => Error::ExternalCommandFailed {
                program: self.program(words),
                exit_code: code,
                stderr,
            },
        }
    }

    /// What the task asks for now. Once the task is over this is `Finish`,
    /// with the operation's result.
    pub fn action(&self, task: &Task) -> (a: Action)
        ensures
            a@ == spec_action(self@, task@),
    {
        if let Some(e) = &task.failure {
            return Action::Finish { result: Err(e.duplicate()) };
        }
        if task.at >= task.plan.len() {
            return Action::Finish { result: Ok(()) };
        }
        let step = task.plan[task.at];
        match step {
            Step::RequireDescriptor => Action::Probe { path: self.paths.setup_py.clone() },
            Step::RequireLock => Action::Probe { path: self.paths.lock.clone() },
            Step::ExpectVenv => Action::Probe { path: self.paths.venv.clone() },
            Step::EnsureVenv => match task.phase {
                Phase::Second => Action::MakeDirs { path: self.venv_parent() },
                Phase::Third => self.create(),
                Phase::First => Action::Probe { path: self.paths.venv.clone() },
            },
            Step::RemoveVenv => match task.phase {
                Phase::Second => Action::RemoveTree { path: self.paths.venv.clone() },
                _ => Action::Probe { path: self.paths.venv.clone() },
            },
            Step::CreateVenv => match task.phase {
                Phase::Second => self.create(),
                _ => Action::MakeDirs { path: self.venv_parent() },
            },
            Step::Command(kind) => {
                let words = self.command(kind, &task.args);
                match task.phase {
                    Phase::Second => self.call(&words, false),
                    _ => Action::Probe { path: self.program(&words) },
                }
            },
            Step::Freeze => {
                let words = self.command(CommandKind::Freeze, &task.args);
                match task.phase {
                    Phase::Second => self.call(&words, true),
                    _ => Action::Probe { path: self.program(&words) },
                }
            },
            Step::WriteFrozen => Action::WriteText {
                path: self.paths.lock.clone(),
                text: serialize(&task.frozen, &self.metadata()),
            },
            Step::TidyLock | Step::BumpLock => match task.phase {
                Phase::Second => Action::WriteText {
                    path: self.paths.lock.clone(),
                    text: task.text.clone(),
                },
                _ => Action::ReadText { path: self.paths.lock.clone() },
            },
            Step::ShowVenv => Action::Show { line: self.paths.venv.clone() },
            Step::ShowBinaries => Action::Show { line: self.paths.binaries_path(&self.layout) },
        }
    }
}

impl Project {
    /// The task after the caller has done what was asked and says what came
    /// of it. An event that does not answer the action leaves the task as
    /// it is, and so does any event once the task is over.
    pub fn advance(&self, task: Task, event: Event) -> (next: Task)
        ensures
            next@ == spec_advance(self@, task@, event@),
    {
        if task.failure.is_some() || task.at >= task.plan.len() {
            return task;
        }
        let step = task.plan[task.at];
        let phase = task.phase;
        match event {
            Event::Found { present } => match step {
                Step::RequireDescriptor => if present {
                    next_step(task)
                } else {
                    failed(task, Error::MissingSetupDescriptor)
                },
                Step::RequireLock => if present {
                    next_step(task)
                } else {
                    let path = self.paths.lock.clone();
                    failed(task, Error::MissingLock { path })
                },
                Step::ExpectVenv => if present {
                    next_step(task)
                } else {
                    let path = self.paths.venv.clone();
                    failed(task, Error::MissingEnvironment { path })
                },
                Step::EnsureVenv => match phase {
                    Phase::First => if present {
                        next_step(task)
                    } else {
                        in_phase(task, Phase::Second)
                    },
                    _ => task,
                },
                Step::RemoveVenv => match phase {
                    Phase::Second => task,
                    _ => if present {
                        in_phase(task, Phase::Second)
                    } else {
                        next_step(task)
                    },
                },
                Step::Command(kind) => match phase {
                    Phase::Second => task,
                    _ => {
                        let words = self.command(kind, &task.args);
                        match self.locate(&words, present) {
                            Ok(_) => in_phase(task, Phase::Second),
                            Err(e) => failed(task, e),
                        }
                    },
                },
                Step::Freeze => match phase {
                    Phase::Second => task,
                    _ => {
                        let words = self.command(CommandKind::Freeze, &task.args);
                        match self.locate(&words, present) {
                            Ok(_) => in_phase(task, Phase::Second),
                            Err(e) => failed(task, e),
                        }
                    },
                },
                _ => task,
            },
            Event::Done => match step {
                Step::EnsureVenv => match phase {
                    Phase::Second => in_phase(task, Phase::Third),
                    _ => task,
                },
                Step::CreateVenv => match phase {
                    Phase::Second => task,
                    _ => in_phase(task, Phase::Second),
                },
                Step::RemoveVenv => match phase {
                    Phase::Second => next_step(task),
                    _ => task,
                },
                Step::WriteFrozen | Step::ShowVenv | Step::ShowBinaries => next_step(task),
                Step::TidyLock | Step::BumpLock => match phase {
                    Phase::Second => next_step(task),
                    _ => task,
                },
                _ => task,
            },
            Event::Exited { code, stdout, stderr } => match step {
                Step::EnsureVenv => match phase {
                    Phase::Third => if code == 0 {
                        next_step(task)
                    } else {
                        failed(task, Error::EnvironmentCreationFailed)
                    },
                    _ => task,
                },
                Step::CreateVenv => match phase {
                    Phase::Second => if code == 0 {
                        next_step(task)
                    } else {
                        failed(task, Error::EnvironmentCreationFailed)
                    },
                    _ => task,
                },
                Step::Command(kind) => match phase {
                    Phase::Second => if code == 0 {
                        next_step(task)
                    } else {
                        let words = self.command(kind, &task.args);
                        let e = self.command_failure(kind, &words, code, stderr);
                        failed(task, e)
                    },
                    _ => task,
                },
                Step::Freeze => match phase {
                    Phase::Second => if code == 0 {
                        match frozen_dependencies(stdout.as_str()) {
                            Ok(records) => {
                                let moved = next_step(task);
                                Task { frozen: records, ..moved }
                            },
                            Err(e) => failed(task, e),
                        }
                    } else {
                        let words = self.command(CommandKind::Freeze, &task.args);
                        let e = self.command_failure(CommandKind::Freeze, &words, code, stderr);
                        failed(task, e)
                    },
                    _ => task,
                },
                _ => task,
            },
            Event::Text { text } => match step {
                Step::TidyLock => match phase {
                    Phase::Second => task,
                    _ => match tidy(text.as_str(), &task.frozen, &self.metadata()) {
                        Ok(new_text) => {
                            let moved = in_phase(task, Phase::Second);
                            Task { text: new_text, ..moved }
                        },
                        Err(e) => failed(task, e),
                    },
                },
                Step::BumpLock => match phase {
                    Phase::Second => task,
                    _ => match bump(
                        text.as_str(),
                        task.name.as_str(),
                        task.version.as_str(),
                        task.use_source_ref,
                        &self.metadata(),
                    ) {
                        Ok(new_text) => {
                            let moved = in_phase(task, Phase::Second);
                            Task { text: new_text, ..moved }
                        },
                        Err(e) => failed(task, e),
                    },
                },
                _ => task,
            },
        }
    }
}

} // verus!
