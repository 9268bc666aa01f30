//! The ways an operation can fail.

use vstd::prelude::*;

verus! {

/// Why an operation stopped. Every failure ends the operation at once;
/// nothing is retried.
#[derive(Debug, Clone, PartialEq, Eq)]
pub enum Error {
    /// The project has no `setup.py`.
    MissingSetupDescriptor,
    /// The environment directory does not exist.
    MissingEnvironment { path: String },
    /// The lock file does not exist.
    MissingLock { path: String },
    /// The interpreter could not create the environment.
    EnvironmentCreationFailed,
    /// The installer could not upgrade itself.
    PipUpgradeFailed,
    /// The environment holds no such executable.
    BinaryNotFound { path: String },
    /// The lock names no such dependency.
    DependencyNotFound { name: String },
    /// A line is neither `name==version` nor `name @ reference`.
    MalformedDependencyLine { line: String },
    /// The calling shell has an environment activated.
    ActiveEnvironmentConflict,
    /// The environment path has no parent.
    NoParentDirectory,
    /// Any other child process that exited with a failure.
    ExternalCommandFailed { program: String, exit_code: i32, stderr: String },
}

/// An [`Error`] with each text as a sequence of characters.
pub enum ErrorView {
    MissingSetupDescriptor,
    MissingEnvironment { path: Seq<char> },
    MissingLock { path: Seq<char> },
    EnvironmentCreationFailed,
    PipUpgradeFailed,
    BinaryNotFound { path: Seq<char> },
    DependencyNotFound { name: Seq<char> },
    MalformedDependencyLine { line: Seq<char> },
    ActiveEnvironmentConflict,
    NoParentDirectory,
    ExternalCommandFailed { program: Seq<char>, exit_code: i32, stderr: Seq<char> },
}

impl View for Error {
    type V = ErrorView;

    open spec fn view(&self) -> ErrorView {
        match self {
            Error::MissingSetupDescriptor => ErrorView::MissingSetupDescriptor,
            Error::MissingEnvironment { path } => ErrorView::MissingEnvironment { path: path@ },
            Error::MissingLock { path } => ErrorView::MissingLock { path: path@ },
            Error::EnvironmentCreationFailed => ErrorView::EnvironmentCreationFailed,
            Error::PipUpgradeFailed => ErrorView::PipUpgradeFailed,
            Error::BinaryNotFound { path } => ErrorView::BinaryNotFound { path: path@ },
            Error::DependencyNotFound { name } => ErrorView::DependencyNotFound { name: name@ },
            Error::MalformedDependencyLine { line } => ErrorView::MalformedDependencyLine {
                line: line@,
            },
            Error::ActiveEnvironmentConflict => ErrorView::ActiveEnvironmentConflict,
            Error::NoParentDirectory => ErrorView::NoParentDirectory,
            Error::ExternalCommandFailed { program, exit_code, stderr } => {
                ErrorView::ExternalCommandFailed {
                    program: program@,
                    exit_code: *exit_code,
                    stderr: stderr@,
                }
            },
        }
    }
}

impl Error {
    /// An error with the same contents.
    pub fn duplicate(&self) -> (copy: Error)
        ensures
            copy@ == self@,
    {
        match self {
            Error::MissingSetupDescriptor => Error::MissingSetupDescriptor,
            Error::MissingEnvironment { path } => Error::MissingEnvironment { path: path.clone() },
            Error::MissingLock { path } => Error::MissingLock { path: path.clone() },
            Error::EnvironmentCreationFailed => Error::EnvironmentCreationFailed,
            Error::PipUpgradeFailed => Error::PipUpgradeFailed,
            Error::BinaryNotFound { path } => Error::BinaryNotFound { path: path.clone() },
            Error::DependencyNotFound { name } => Error::DependencyNotFound { name: name.clone() },
            Error::MalformedDependencyLine { line } => Error::MalformedDependencyLine {
                line: line.clone(),
            },
            Error::ActiveEnvironmentConflict => Error::ActiveEnvironmentConflict,
            Error::NoParentDirectory => Error::NoParentDirectory,
            Error::ExternalCommandFailed { program, exit_code, stderr } => {
                Error::ExternalCommandFailed {
                    program: program.clone(),
                    exit_code: *exit_code,
                    stderr: stderr.clone(),
                }
            },
        }
    }
}

/// The view of an operation's outcome.
pub open spec fn outcome(r: Result<(), Error>) -> Result<(), ErrorView> {
    match r {
        Ok(_) => Ok(()),
        Err(e) => Err(e@),
    }
}

} // verus!
