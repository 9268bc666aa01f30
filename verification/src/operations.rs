//! The operations of a project, each as the task that carries it out.

use vstd::prelude::*;
use crate::error::Error;
use crate::error::ErrorView;
use crate::project::CommandKind;
use crate::project::PostInstallAction;
use crate::project::Project;
use crate::task::spec_fresh;
use crate::task::Phase;
use crate::task::Step;
use crate::task::Task;
use crate::task::TaskView;

verus! {

/// A task with these steps before it that needs no words of the user's.
pub open spec fn spec_started(plan: Seq<Step>) -> TaskView {
    spec_fresh(plan, Seq::empty(), Seq::empty(), Seq::empty(), false)
}

/// A task that failed before its first step.
pub open spec fn spec_refused(e: ErrorView) -> TaskView {
    spec_started(Seq::empty()).failed(e)
}

/// Installing: the lock must be there before anything is touched; then the
/// environment is made sure of and the lock installed into it.
pub open spec fn plan_install(post: PostInstallAction) -> Seq<Step> {
    seq![
        Step::RequireLock,
        Step::EnsureVenv,
        Step::Command(
            if post == PostInstallAction::RunSetupPyDevelop {
                CommandKind::InstallLockedEditable
            } else {
                CommandKind::InstallLocked
            },
        ),
    ]
}

/// Generating a lock: the descriptor must be there; the environment is
/// made sure of; the installer upgrades itself; the project is installed
/// from its sources; what is installed is frozen and written.
pub open spec fn plan_lock() -> Seq<Step> {
    seq![
        Step::RequireDescriptor,
        Step::EnsureVenv,
        Step::Command(CommandKind::UpgradePip),
        Step::Command(CommandKind::InstallEditable),
        Step::Freeze,
        Step::WriteFrozen,
    ]
}

/// Tidying: the environment is removed and created anew; the project is
/// installed at the lock's versions; what is installed is frozen, cut down
/// to what the lock tracks, and written.
pub open spec fn plan_tidy() -> Seq<Step> {
    seq![
        Step::RemoveVenv,
        Step::CreateVenv,
        Step::Command(CommandKind::InstallConstrained),
        Step::Freeze,
        Step::TidyLock,
    ]
}

/// A command inside the environment, which must be there.
pub open spec fn plan_inside(kind: CommandKind) -> Seq<Step> {
    seq![Step::ExpectVenv, Step::Command(kind)]
}

fn fresh(plan: Vec<Step>, args: Vec<String>, name: String, version: String, use_source_ref: bool) -> (t:
    Task)
    ensures
        t@ == spec_fresh(plan@, args.deep_view(), name@, version@, use_source_ref),
{
    let t = Task {
        plan,
        at: 0,
        phase: Phase::First,
        failure: None,
        frozen: Vec::new(),
        text: String::new(),
        args,
        name,
        version,
        use_source_ref,
    };
    assert(t.frozen.deep_view() == Seq::<crate::record::RecordView>::empty());
    t
}

fn started(plan: Vec<Step>) -> (t: Task)
    ensures
        t@ == spec_started(plan@),
{
    let args: Vec<String> = Vec::new();
    assert(args.deep_view() == Seq::<Seq<char>>::empty());
    fresh(plan, args, String::new(), String::new(), false)
}

fn inside(kind: CommandKind) -> (t: Task)
    ensures
        t@ == spec_started(plan_inside(kind)),
{
    let mut plan: Vec<Step> = Vec::new();
    plan.push(Step::ExpectVenv);
    plan.push(Step::Command(kind));
    assert(plan@ == plan_inside(kind));
    started(plan)
}

fn single(step: Step) -> (t: Task)
    ensures
        t@ == spec_started(seq![step]),
{
    let mut plan: Vec<Step> = Vec::new();
    plan.push(step);
    assert(plan@ == seq![step]);
    started(plan)
}

impl Project {
    /// Removes the environment. Nothing is removed where there is none.
    pub fn clean_venv(&self) -> (t: Task)
        ensures
            t@ == spec_started(seq![Step::RemoveVenv]),
    {
        single(Step::RemoveVenv)
    }

    /// Creates the environment, with the directories above it.
    pub fn create_venv(&self) -> (t: Task)
        ensures
            t@ == spec_started(seq![Step::CreateVenv]),
    {
        single(Step::CreateVenv)
    }

    /// Creates the environment unless it is there.
    pub fn ensure_venv(&self) -> (t: Task)
        ensures
            t@ == spec_started(seq![Step::EnsureVenv]),
    {
        single(Step::EnsureVenv)
    }

    /// Fails unless the environment is there.
    pub fn expect_venv(&self) -> (t: Task)
        ensures
            t@ == spec_started(seq![Step::ExpectVenv]),
    {
        single(Step::ExpectVenv)
    }

    /// Upgrades the installer inside the environment.
    pub fn upgrade_pip(&self) -> (t: Task)
        ensures
            t@ == spec_started(seq![Step::Command(CommandKind::UpgradePip)]),
    {
        single(Step::Command(CommandKind::UpgradePip))
    }

    /// Installs the project from its sources, at the lock's versions.
    pub fn install_editable_with_constraint(&self) -> (t: Task)
        ensures
            t@ == spec_started(seq![Step::Command(CommandKind::InstallConstrained)]),
    {
        single(Step::Command(CommandKind::InstallConstrained))
    }

    /// Installs what the lock lists into the environment.
    pub fn install(&self, post: PostInstallAction) -> (t: Task)
        ensures
            t@ == spec_started(plan_install(post)),
    {
        let kind = match post {
            PostInstallAction::RunSetupPyDevelop => CommandKind::InstallLockedEditable,
            PostInstallAction::Nothing => CommandKind::InstallLocked,
        };
        let mut plan: Vec<Step> = Vec::new();
        plan.push(Step::RequireLock);
        plan.push(Step::EnsureVenv);
        plan.push(Step::Command(kind));
        assert(plan@ == plan_install(post));
        started(plan)
    }

    /// Generates the lock from what the project's descriptor asks for.
    pub fn lock(&self) -> (t: Task)
        ensures
            t@ == spec_started(plan_lock()),
    {
        let mut plan: Vec<Step> = Vec::new();
        plan.push(Step::RequireDescriptor);
        plan.push(Step::EnsureVenv);
        plan.push(Step::Command(CommandKind::UpgradePip));
        plan.push(Step::Command(CommandKind::InstallEditable));
        plan.push(Step::Freeze);
        plan.push(Step::WriteFrozen);
        assert(plan@ == plan_lock());
        started(plan)
    }

    /// Rebuilds the environment and cuts the lock down to what is still
    /// installed. `activated` says whether the calling shell has an
    /// environment activated; the operation then fails before anything is
    /// touched.
    pub fn tidy(&self, activated: bool) -> (t: Task)
        ensures
            t@ == if activated {
                spec_refused(ErrorView::ActiveEnvironmentConflict)
            } else {
                spec_started(plan_tidy())
            },
    {
        let mut plan: Vec<Step> = Vec::new();
        if activated {
            let t = started(plan);
            return Task { failure: Some(Error::ActiveEnvironmentConflict), ..t };
        }
        plan.push(Step::RemoveVenv);
        plan.push(Step::CreateVenv);
        plan.push(Step::Command(CommandKind::InstallConstrained));
        plan.push(Step::Freeze);
        plan.push(Step::TidyLock);
        assert(plan@ == plan_tidy());
        started(plan)
    }

    /// Pins one dependency of the lock to `version`, or to `version` as a
    /// source reference.
    pub fn bump(&self, name: &str, version: &str, use_source_ref: bool) -> (t: Task)
        ensures
            t@ == spec_fresh(
                seq![Step::RequireLock, Step::BumpLock],
                Seq::empty(),
                name@,
                version@,
                use_source_ref,
            ),
    {
        let mut plan: Vec<Step> = Vec::new();
        plan.push(Step::RequireLock);
        plan.push(Step::BumpLock);
        assert(plan@ == seq![Step::RequireLock, Step::BumpLock]);
        let args: Vec<String> = Vec::new();
        assert(args.deep_view() == Seq::<Seq<char>>::empty());
        fresh(plan, args, name.to_owned(), version.to_owned(), use_source_ref)
    }

    /// Runs a command of the user's inside the environment: the first word
    /// names the executable.
    pub fn run(&self, args: Vec<String>) -> (t: Task)
        requires
            args@.len() > 0,
        ensures
            t@ == spec_fresh(
                plan_inside(CommandKind::User),
                args.deep_view(),
                Seq::empty(),
                Seq::empty(),
                false,
            ),
    {
        let mut plan: Vec<Step> = Vec::new();
        plan.push(Step::ExpectVenv);
        plan.push(Step::Command(CommandKind::User));
        assert(plan@ == plan_inside(CommandKind::User));
        fresh(plan, args, String::new(), String::new(), false)
    }

    /// Lists what is installed in the environment.
    pub fn show_deps(&self) -> (t: Task)
        ensures
            t@ == spec_started(plan_inside(CommandKind::List)),
    {
        inside(CommandKind::List)
    }

    /// Lists what is installed in the environment and outdated.
    pub fn show_outdated(&self) -> (t: Task)
        ensures
            t@ == spec_started(plan_inside(CommandKind::Outdated)),
    {
        inside(CommandKind::Outdated)
    }

    /// Prints where the environment is.
    pub fn show_venv_path(&self) -> (t: Task)
        ensures
            t@ == spec_started(seq![Step::ShowVenv]),
    {
        single(Step::ShowVenv)
    }

    /// Prints where the environment's executables are.
    pub fn show_venv_bin_path(&self) -> (t: Task)
        ensures
            t@ == spec_started(seq![Step::ExpectVenv, Step::ShowBinaries]),
    {
        let mut plan: Vec<Step> = Vec::new();
        plan.push(Step::ExpectVenv);
        plan.push(Step::ShowBinaries);
        assert(plan@ == seq![Step::ExpectVenv, Step::ShowBinaries]);
        started(plan)
    }
}

} // verus!
