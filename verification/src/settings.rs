//! What a project is configured with, fixed once at startup.

use vstd::prelude::*;
use vstd::string::StringExecFns;

verus! {

/// The user's choices for one project.
#[derive(Debug, Clone, Copy, PartialEq, Eq, Structural)]
pub struct Settings {
    /// Work with the production dependencies and the production lock.
    pub production: bool,
    /// Let the environment see the packages of the interpreter it was made from.
    pub system_site_packages: bool,
}

/// The interpreter that environments are created from.
#[derive(Debug, Clone, PartialEq, Eq)]
pub struct PythonInfo {
    /// The interpreter's executable.
    pub binary: String,
    /// Its version, such as `3.9`.
    pub version: String,
    /// Its platform label, such as `linux`.
    pub platform: String,
}

/// A [`PythonInfo`] with each text as a sequence of characters.
pub struct PythonInfoView {
    pub binary: Seq<char>,
    pub version: Seq<char>,
    pub platform: Seq<char>,
}

impl View for PythonInfo {
    type V = PythonInfoView;

    open spec fn view(&self) -> PythonInfoView {
        PythonInfoView { binary: self.binary@, version: self.version@, platform: self.platform@ }
    }
}

/// Where an environment keeps its executables on this platform, and what
/// their file names end in.
#[derive(Debug, Clone, PartialEq, Eq)]
pub struct PlatformLayout {
    pub subdir: String,
    pub suffix: String,
}

/// A [`PlatformLayout`] with each text as a sequence of characters.
pub struct PlatformLayoutView {
    pub subdir: Seq<char>,
    pub suffix: Seq<char>,
}

impl View for PlatformLayout {
    type V = PlatformLayoutView;

    open spec fn view(&self) -> PlatformLayoutView {
        PlatformLayoutView { subdir: self.subdir@, suffix: self.suffix@ }
    }
}

impl PlatformLayout {
    /// Executables live in `bin` and have no suffix.
    pub fn unix() -> (layout: PlatformLayout)
        ensures
            layout@ == (PlatformLayoutView { subdir: "bin"@, suffix: ""@ }),
    {
        PlatformLayout { subdir: String::from_str("bin"), suffix: String::from_str("") }
    }

    /// Executables live in `Scripts` and end in `.exe`.
    pub fn windows() -> (layout: PlatformLayout)
        ensures
            layout@ == (PlatformLayoutView { subdir: "Scripts"@, suffix: ".exe"@ }),
    {
        PlatformLayout { subdir: String::from_str("Scripts"), suffix: String::from_str(".exe") }
    }
}

} // verus!
