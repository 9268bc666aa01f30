//! Where a project keeps its environment, its lock and its descriptor.
//!
//! A path is a text whose segments are separated by `/`. Nothing here
//! touches a file system.

use vstd::prelude::*;
use vstd::string::StrSliceExecFns;
use vstd::string::StringExecFns;
use crate::error::Error;
use crate::error::ErrorView;
use crate::settings::PlatformLayout;
use crate::settings::PlatformLayoutView;
use crate::settings::Settings;
use crate::text::to_chars;

verus! {

/// The lock of the development dependencies.
pub const DEV_LOCK_FILENAME: &'static str = "requirements.lock";

/// The lock of the production dependencies.
pub const PROD_LOCK_FILENAME: &'static str = "production.lock";

/// The places of one project.
#[derive(Debug, Clone, PartialEq, Eq)]
pub struct Paths {
    /// The project's root.
    pub project: String,
    /// The environment directory.
    pub venv: String,
    /// The lock file.
    pub lock: String,
    /// The project descriptor.
    pub setup_py: String,
}

/// A [`Paths`] with each path as a sequence of characters.
pub struct PathsView {
    pub project: Seq<char>,
    pub venv: Seq<char>,
    pub lock: Seq<char>,
    pub setup_py: Seq<char>,
}

impl View for Paths {
    type V = PathsView;

    open spec fn view(&self) -> PathsView {
        PathsView {
            project: self.project@,
            venv: self.venv@,
            lock: self.lock@,
            setup_py: self.setup_py@,
        }
    }
}

/// `seg` below `base`: a segment that begins with a separator stands for
/// itself, and no second separator is put behind a base that ends in one.
pub open spec fn spec_join(base: Seq<char>, seg: Seq<char>) -> Seq<char> {
    if seg.len() > 0 && seg[0] == '/' {
        seg
    } else if base.len() == 0 || base.last() == '/' {
        base + seg
    } else {
        base + seq!['/'] + seg
    }
}

/// Index of the last separator of a path, or -1.
pub open spec fn last_slash(s: Seq<char>) -> int
    decreases s.len(),
{
    if s.len() == 0 {
        -1
    } else if s.last() == '/' {
        s.len() - 1
    } else {
        last_slash(s.drop_last())
    }
}

/// What stands before the last separator of a path. A single segment has
/// the empty path as its parent; the empty path and a lone separator have
/// none.
pub open spec fn spec_parent(path: Seq<char>) -> Option<Seq<char>> {
    let k = last_slash(path);
    if path.len() == 0 {
        None
    } else if k < 0 {
        Some(Seq::empty())
    } else if k == 0 {
        if path.len() == 1 {
            None
        } else {
            Some(seq!['/'])
        }
    } else {
        Some(path.take(k))
    }
}

/// `s` ends in `tail`.
pub open spec fn has_suffix(s: Seq<char>, tail: Seq<char>) -> bool {
    tail.len() <= s.len() && s.skip(s.len() - tail.len()) == tail
}

/// The directory that sets the environments of one mode apart.
pub open spec fn mode_name(production: bool) -> Seq<char> {
    if production {
        "prod"@
    } else {
        "dev"@
    }
}

/// The lock's file name: one of two, chosen by the mode alone.
pub open spec fn lock_name(production: bool) -> Seq<char> {
    if production {
        PROD_LOCK_FILENAME@
    } else {
        DEV_LOCK_FILENAME@
    }
}

/// The environment directory: below `.venv` in the project, then the mode,
/// then the interpreter's version.
pub open spec fn spec_venv_path(project: Seq<char>, version: Seq<char>, production: bool) -> Seq<
    char,
> {
    spec_join(spec_join(spec_join(project, ".venv"@), mode_name(production)), version)
}

/// The places of a project, or the error where the environment directory
/// has no parent.
pub open spec fn spec_resolve(project: Seq<char>, version: Seq<char>, settings: Settings) -> Result<
    PathsView,
    ErrorView,
> {
    let venv = spec_venv_path(project, version, settings.production);
    if spec_parent(venv) is None {
        Err(ErrorView::NoParentDirectory)
    } else {
        Ok(
            PathsView {
                project,
                venv,
                lock: spec_join(project, lock_name(settings.production)),
                setup_py: spec_join(project, "setup.py"@),
            },
        )
    }
}

/// The directory of an environment's executables.
pub open spec fn spec_binaries_path(venv: Seq<char>, layout: PlatformLayoutView) -> Seq<char> {
    spec_join(venv, layout.subdir)
}

/// The file of one executable of an environment.
pub open spec fn spec_binary_path(venv: Seq<char>, layout: PlatformLayoutView, name: Seq<char>) -> Seq<
    char,
> {
    spec_join(spec_binaries_path(venv, layout), name + layout.suffix)
}

/// The view of what resolving gives.
pub open spec fn resolved(r: Result<Paths, Error>) -> Result<PathsView, ErrorView> {
    match r {
        Ok(p) => Ok(p@),
        Err(e) => Err(e@),
    }
}

/// The view of a path, or of the error in its place.
pub open spec fn located(r: Result<String, Error>) -> Result<Seq<char>, ErrorView> {
    match r {
        Ok(p) => Ok(p@),
        Err(e) => Err(e@),
    }
}

/// The view of an optional path.
pub open spec fn some_view(r: Option<String>) -> Option<Seq<char>> {
    match r {
        Some(p) => Some(p@),
        None => None,
    }
}

/// Resolving is a function of the project, the version and the settings:
/// two results for the same three are the same.
pub proof fn lemma_resolve_deterministic(
    first: Result<Paths, Error>,
    second: Result<Paths, Error>,
    project: Seq<char>,
    version: Seq<char>,
    settings: Settings,
)
    requires
        resolved(first) == spec_resolve(project, version, settings),
        resolved(second) == spec_resolve(project, version, settings),
    ensures
        resolved(first) == resolved(second),
{
}

/// The lock's place goes by the project and the mode alone: another
/// interpreter has the same lock, and the lock's file name is one of two.
pub proof fn lemma_lock_ignores_version(
    project: Seq<char>,
    one: Seq<char>,
    other: Seq<char>,
    settings: Settings,
)
    requires
        spec_resolve(project, one, settings) is Ok,
        spec_resolve(project, other, settings) is Ok,
    ensures
        spec_resolve(project, one, settings)->Ok_0.lock == spec_resolve(
            project,
            other,
            settings,
        )->Ok_0.lock,
        spec_resolve(project, one, settings)->Ok_0.lock == spec_join(
            project,
            if settings.production {
                PROD_LOCK_FILENAME@
            } else {
                DEV_LOCK_FILENAME@
            },
        ),
{
}

/// The environment's place ends in the interpreter's version, so that two
/// versions never share an environment. This holds of versions that do not
/// begin with a separator.
pub proof fn lemma_venv_embeds_version(
    project: Seq<char>,
    one: Seq<char>,
    other: Seq<char>,
    production: bool,
)
    requires
        one.len() == 0 || one[0] != '/',
        other.len() == 0 || other[0] != '/',
        one != other,
    ensures
        spec_venv_path(project, one, production) != spec_venv_path(project, other, production),
        has_suffix(spec_venv_path(project, one, production), one),
{
    let base = spec_join(spec_join(project, ".venv"@), mode_name(production));
    let stem = if base.len() == 0 || base.last() == '/' {
        base
    } else {
        base + seq!['/']
    };
    let a = spec_venv_path(project, one, production);
    let b = spec_venv_path(project, other, production);
    assert(a == stem + one);
    assert(b == stem + other);
    assert(a.skip(stem.len() as int) == one);
    assert(b.skip(stem.len() as int) == other);
    assert(a.skip(a.len() - one.len()) == one);
}

/// `seg` below `base`.
pub fn join(base: &str, seg: &str) -> (path: String)
    ensures
        path@ == spec_join(base@, seg@),
{
    let b = to_chars(base);
    let s = to_chars(seg);
    if s.len() > 0 && s[0] == '/' {
        seg.to_owned()
    } else if b.len() == 0 || b[b.len() - 1] == '/' {
        let mut path = base.to_owned();
        path.append(seg);
        path
    } else {
        let mut path = base.to_owned();
        path.append("/");
        path.append(seg);
        proof {
            reveal_strlit("/");
            assert("/"@ == seq!['/']);
        }
        path
    }
}

/// What stands before the last separator of a path.
pub fn parent(path: &str) -> (dir: Option<String>)
    ensures
        some_view(dir) == spec_parent(path@),
{
    let chars = to_chars(path);
    let len = chars.len();
    if len == 0 {
        return None;
    }
    let mut i: usize = len;
    assert(chars@.take(len as int) == chars@);
    while i > 0 && chars[i - 1] != '/'
        invariant
            i <= len,
            len == chars@.len(),
            last_slash(chars@) == last_slash(chars@.take(i as int)),
        decreases i,
    {
        assert(chars@.take(i as int).drop_last() == chars@.take(i - 1));
        i = i - 1;
    }
    if i == 0 {
        Some(String::new())
    } else if i == 1 {
        if len == 1 {
            None
        } else {
            proof {
                reveal_strlit("/");
                assert("/"@ == seq!['/']);
            }
            Some(String::from_str("/"))
        }
    } else {
        Some(path.substring_char(0, i - 1).to_owned())
    }
}

/// The places of a project. Nothing is read or written: the same project,
/// version and settings always give the same places.
pub fn resolve(project_root: &str, interpreter_version: &str, settings: &Settings) -> (res: Result<
    Paths,
    Error,
>)
    ensures
        resolved(res) == spec_resolve(project_root@, interpreter_version@, *settings),
{
    let mode = if settings.production {
        "prod"
    } else {
        "dev"
    };
    let lock_file = if settings.production {
        PROD_LOCK_FILENAME
    } else {
        DEV_LOCK_FILENAME
    };
    let hidden = join(project_root, ".venv");
    let by_mode = join(hidden.as_str(), mode);
    let venv = join(by_mode.as_str(), interpreter_version);
    match parent(venv.as_str()) {
        None => Err(Error::NoParentDirectory),
        Some(_) => Ok(
            Paths {
                project: project_root.to_owned(),
                venv,
                lock: join(project_root, lock_file),
                setup_py: join(project_root, "setup.py"),
            },
        ),
    }
}

impl Paths {
    /// The directory of the environment's executables.
    pub fn binaries_path(&self, layout: &PlatformLayout) -> (path: String)
        ensures
            path@ == spec_binaries_path(self.venv@, layout@),
    {
        join(self.venv.as_str(), layout.subdir.as_str())
    }

    /// The file of one executable of the environment.
    pub fn binary_path(&self, layout: &PlatformLayout, name: &str) -> (path: String)
        ensures
            path@ == spec_binary_path(self.venv@, layout@, name@),
    {
        let dir = self.binaries_path(layout);
        let mut file = name.to_owned();
        file.append(layout.suffix.as_str());
        join(dir.as_str(), file.as_str())
    }

    /// The executable of that name, given whether its file is there; the
    /// error names the file that was looked for.
    pub fn resolve_binary(&self, layout: &PlatformLayout, name: &str, present: bool) -> (res: Result<
        String,
        Error,
    >)
        ensures
            located(res) == if present {
                Ok::<_, ErrorView>(spec_binary_path(self.venv@, layout@, name@))
            } else {
                Err(ErrorView::BinaryNotFound { path: spec_binary_path(self.venv@, layout@, name@) })
            },
    {
        let path = self.binary_path(layout, name);
        if present {
            Ok(path)
        } else {
            Err(Error::BinaryNotFound { path })
        }
    }
}

} // verus!
