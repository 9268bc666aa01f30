//! A project: its interpreter, its settings and its places, and the
//! commands it runs inside its environment.

use vstd::prelude::*;
use crate::codec::Metadata;
use crate::codec::MetadataView;
use crate::error::Error;
use crate::error::ErrorView;
use crate::paths::resolve;
use crate::paths::spec_resolve;
use crate::paths::Paths;
use crate::paths::PathsView;
use crate::settings::PlatformLayout;
use crate::settings::PlatformLayoutView;
use crate::settings::PythonInfo;
use crate::settings::PythonInfoView;
use crate::settings::Settings;

verus! {

/// The version of this tool, as written into the header of a lock.
pub const DMENV_VERSION: &'static str = "0.1.0";

/// One project and what it was configured with.
#[derive(Debug)]
pub struct Project {
    pub python_info: PythonInfo,
    pub settings: Settings,
    pub paths: Paths,
    pub layout: PlatformLayout,
}

/// A [`Project`] with each text as a sequence of characters.
pub struct ProjectView {
    pub python_info: PythonInfoView,
    pub settings: Settings,
    pub paths: PathsView,
    pub layout: PlatformLayoutView,
}

impl View for Project {
    type V = ProjectView;

    open spec fn view(&self) -> ProjectView {
        ProjectView {
            python_info: self.python_info@,
            settings: self.settings,
            paths: self.paths@,
            layout: self.layout@,
        }
    }
}

/// Whether the project itself is installed, from its sources, once its
/// locked dependencies are.
#[derive(Debug, Clone, Copy, PartialEq, Eq, Structural)]
pub enum PostInstallAction {
    RunSetupPyDevelop,
    Nothing,
}

/// The commands a project runs inside its environment.
#[derive(Debug, Clone, Copy, PartialEq, Eq, Structural)]
pub enum CommandKind {
    /// Upgrade the installer itself.
    UpgradePip,
    /// Install the project from its sources, with the extras of its mode.
    InstallEditable,
    /// The same, with no version other than the lock's.
    InstallConstrained,
    /// Install what the lock lists.
    InstallLocked,
    /// Install what the lock lists, and the project from its sources.
    InstallLockedEditable,
    /// List what is installed.
    List,
    /// List what is installed and outdated.
    Outdated,
    /// List what is installed, one pin to a line.
    Freeze,
    /// A command of the user's.
    User,
}

/// The extras that the project is installed with.
pub open spec fn spec_extra(production: bool) -> Seq<char> {
    if production {
        ".[prod]"@
    } else {
        ".[dev]"@
    }
}

/// A call of the installer.
pub open spec fn spec_pip(rest: Seq<Seq<char>>) -> Seq<Seq<char>> {
    seq!["python"@, "-m"@, "pip"@] + rest
}

/// The call that installs the project from its sources.
pub open spec fn spec_install_editable(production: bool) -> Seq<Seq<char>> {
    spec_pip(seq!["install"@, "--editable"@, spec_extra(production)])
}

/// The words of a command: the name of an executable of the environment,
/// then its arguments.
pub open spec fn spec_command(p: ProjectView, kind: CommandKind, user: Seq<Seq<char>>) -> Seq<
    Seq<char>,
> {
    match kind {
        CommandKind::UpgradePip => spec_pip(seq!["install"@, "pip"@, "--upgrade"@]),
        CommandKind::InstallEditable => spec_install_editable(p.settings.production),
        CommandKind::InstallConstrained => spec_install_editable(p.settings.production) + seq![
            "--constraint"@,
            p.paths.lock,
        ],
        CommandKind::InstallLocked => spec_pip(seq!["install"@, "--requirement"@, p.paths.lock]),
        CommandKind::InstallLockedEditable => spec_pip(
            seq![
                "install"@,
                "--requirement"@,
                p.paths.lock,
                "--editable"@,
                spec_extra(p.settings.production),
            ],
        ),
        CommandKind::List => spec_pip(seq!["list"@]),
        CommandKind::Outdated => spec_pip(seq!["list"@, "--outdated"@, "--format"@, "columns"@]),
        CommandKind::Freeze => spec_pip(
            seq!["freeze"@, "--exclude-editable"@, "--all"@, "--local"@],
        ),
        CommandKind::User => user,
    }
}

/// What a lock generated now says of its origin.
pub open spec fn spec_metadata(p: ProjectView) -> MetadataView {
    MetadataView {
        dmenv_version: DMENV_VERSION@,
        python_platform: p.python_info.platform,
        python_version: p.python_info.version,
    }
}

/// A project at these places, or the error where they cannot be resolved.
pub open spec fn spec_new(
    project_path: Seq<char>,
    python_info: PythonInfoView,
    settings: Settings,
    layout: PlatformLayoutView,
) -> Result<ProjectView, ErrorView> {
    match spec_resolve(project_path, python_info.version, settings) {
        Ok(paths) => Ok(ProjectView { python_info, settings, paths, layout }),
        Err(e) => Err(e),
    }
}

/// The view of a project, or of the error in its place.
pub open spec fn created(r: Result<Project, Error>) -> Result<ProjectView, ErrorView> {
    match r {
        Ok(p) => Ok(p@),
        Err(e) => Err(e@),
    }
}

/// Adds a word to a command.
pub fn push_word(words: &mut Vec<String>, word: &str)
    ensures
        final(words).deep_view() == old(words).deep_view().push(word@),
{
    let ghost before = words.deep_view();
    let owned = word.to_owned();
    words.push(owned);
    assert(words.deep_view() == before.push(word@));
}

fn pip_words() -> (words: Vec<String>)
    ensures
        words.deep_view() == spec_pip(Seq::empty()),
{
    let mut words: Vec<String> = Vec::new();
    assert(words.deep_view() == Seq::<Seq<char>>::empty());
    push_word(&mut words, "python");
    push_word(&mut words, "-m");
    push_word(&mut words, "pip");
    assert(words.deep_view() == spec_pip(Seq::empty()));
    words
}

impl Project {
    /// A project below `project_path`, for this interpreter, these settings
    /// and this platform.
    pub fn new(
        project_path: String,
        python_info: PythonInfo,
        settings: Settings,
        layout: PlatformLayout,
    ) -> (res: Result<Project, Error>)
        ensures
            created(res) == spec_new(project_path@, python_info@, settings, layout@),
    {
        match resolve(project_path.as_str(), python_info.version.as_str(), &settings) {
            Ok(paths) => Ok(Project { python_info, settings, paths, layout }),
            Err(e) => Err(e),
        }
    }

    /// What a lock generated now says of its origin.
    pub fn metadata(&self) -> (m: Metadata)
        ensures
            m@ == spec_metadata(self@),
    {
        Metadata {
            dmenv_version: DMENV_VERSION.to_owned(),
            python_platform: self.python_info.platform.clone(),
            python_version: self.python_info.version.clone(),
        }
    }

    /// The call that installs the project from its sources, with the
    /// extras of its mode.
    pub fn get_install_editable_cmd(&self) -> (words: Vec<String>)
        ensures
            words.deep_view() == spec_install_editable(self.settings.production),
    {
        let mut words = pip_words();
        push_word(&mut words, "install");
        push_word(&mut words, "--editable");
        if self.settings.production {
            push_word(&mut words, ".[prod]");
        } else {
            push_word(&mut words, ".[dev]");
        }
        assert(words.deep_view() == spec_install_editable(self.settings.production));
        words
    }

    /// The words of a command; `user` is what a command of the user's is.
    pub fn command(&self, kind: CommandKind, user: &Vec<String>) -> (words: Vec<String>)
        ensures
            words.deep_view() == spec_command(self@, kind, user.deep_view()),
    {
        let mut words = pip_words();
        match kind {
            CommandKind::UpgradePip => {
                push_word(&mut words, "install");
                push_word(&mut words, "pip");
                push_word(&mut words, "--upgrade");
            },
            CommandKind::InstallEditable => {
                words = self.get_install_editable_cmd();
            },
            CommandKind::InstallConstrained => {
                words = self.get_install_editable_cmd();
                push_word(&mut words, "--constraint");
                push_word(&mut words, self.paths.lock.as_str());
            },
            CommandKind::InstallLocked => {
                push_word(&mut words, "install");
                push_word(&mut words, "--requirement");
                push_word(&mut words, self.paths.lock.as_str());
            },
            CommandKind::InstallLockedEditable => {
                push_word(&mut words, "install");
                push_word(&mut words, "--requirement");
                push_word(&mut words, self.paths.lock.as_str());
                push_word(&mut words, "--editable");
                if self.settings.production {
                    push_word(&mut words, ".[prod]");
                } else {
                    push_word(&mut words, ".[dev]");
                }
            },
            CommandKind::List => {
                push_word(&mut words, "list");
            },
            CommandKind::Outdated => {
                push_word(&mut words, "list");
                push_word(&mut words, "--outdated");
                push_word(&mut words, "--format");
                push_word(&mut words, "columns");
            },
            CommandKind::Freeze => {
                push_word(&mut words, "freeze");
                push_word(&mut words, "--exclude-editable");
                push_word(&mut words, "--all");
                push_word(&mut words, "--local");
            },
            CommandKind::User => {
                words = copy_words(user);
            },
        }
        assert(words.deep_view() == spec_command(self@, kind, user.deep_view()));
        words
    }
}

/// The same words, owned anew.
pub fn copy_words(words: &Vec<String>) -> (copy: Vec<String>)
    ensures
        copy.deep_view() == words.deep_view(),
{
    let mut copy: Vec<String> = Vec::new();
    let mut i: usize = 0;
    while i < words.len()
        invariant
            i <= words@.len(),
            copy@.len() == i,
            forall|k: int| 0 <= k < i ==> (#[trigger] copy@[k])@ == words@[k]@,
        decreases words@.len() - i,
    {
        copy.push(words[i].clone());
        i = i + 1;
    }
    assert(copy.deep_view() == words.deep_view());
    copy
}

} // verus!
