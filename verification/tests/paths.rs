use dmenv::error::Error;
use dmenv::paths::{join, parent, resolve, DEV_LOCK_FILENAME, PROD_LOCK_FILENAME};
use dmenv::project::Project;
use dmenv::settings::{PlatformLayout, PythonInfo, Settings};

fn dev() -> Settings {
    Settings { production: false, system_site_packages: false }
}

fn prod() -> Settings {
    Settings { production: true, system_site_packages: false }
}

fn python(version: &str) -> PythonInfo {
    PythonInfo {
        binary: "/usr/bin/python3".to_string(),
        version: version.to_string(),
        platform: "linux".to_string(),
    }
}

#[test]
fn lock_file_names_are_fixed() {
    assert_eq!(DEV_LOCK_FILENAME, "requirements.lock");
    assert_eq!(PROD_LOCK_FILENAME, "production.lock");
}

#[test]
fn join_puts_a_separator_between() {
    assert_eq!(join("/home/me", "proj"), "/home/me/proj");
}

#[test]
fn join_adds_no_second_separator() {
    assert_eq!(join("/home/me/", "proj"), "/home/me/proj");
}

#[test]
fn join_to_the_empty_path_is_the_segment() {
    assert_eq!(join("", ".venv"), ".venv");
}

#[test]
fn join_lets_an_absolute_segment_stand() {
    assert_eq!(join("/home/me", "/opt/python"), "/opt/python");
}

#[test]
fn join_with_an_empty_segment_ends_in_a_separator() {
    assert_eq!(join("a", ""), "a/");
}

#[test]
fn parent_is_what_stands_before_the_last_separator() {
    assert_eq!(parent("a/b/c"), Some("a/b".to_string()));
}

#[test]
fn parent_of_a_single_segment_is_empty() {
    assert_eq!(parent("venv"), Some(String::new()));
}

#[test]
fn parent_below_the_root_is_the_root() {
    assert_eq!(parent("/venv"), Some("/".to_string()));
}

#[test]
fn the_root_has_no_parent() {
    assert_eq!(parent("/"), None);
}

#[test]
fn the_empty_path_has_no_parent() {
    assert_eq!(parent(""), None);
}

#[test]
fn resolve_development_paths() {
    let paths = resolve("/home/me/proj", "3.9", &dev()).unwrap();
    assert_eq!(paths.project, "/home/me/proj");
    assert_eq!(paths.venv, "/home/me/proj/.venv/dev/3.9");
    assert_eq!(paths.lock, "/home/me/proj/requirements.lock");
    assert_eq!(paths.setup_py, "/home/me/proj/setup.py");
}

#[test]
fn resolve_production_paths() {
    let paths = resolve("/home/me/proj", "3.9", &prod()).unwrap();
    assert_eq!(paths.venv, "/home/me/proj/.venv/prod/3.9");
    assert_eq!(paths.lock, "/home/me/proj/production.lock");
    assert_eq!(paths.setup_py, "/home/me/proj/setup.py");
}

#[test]
fn resolve_twice_gives_identical_paths() {
    let first = resolve("/srv/app", "3.11", &prod());
    let second = resolve("/srv/app", "3.11", &prod());
    assert_eq!(first, second);
    assert!(first.is_ok());
}

#[test]
fn resolve_keeps_the_lock_when_the_interpreter_changes() {
    let one = resolve("/srv/app", "3.8", &dev()).unwrap();
    let other = resolve("/srv/app", "3.12", &dev()).unwrap();
    assert_eq!(one.lock, other.lock);
    assert_ne!(one.venv, other.venv);
    assert!(one.venv.ends_with("3.8"));
    assert!(other.venv.ends_with("3.12"));
}

#[test]
fn resolve_in_the_current_directory() {
    let paths = resolve("", "3.9", &dev()).unwrap();
    assert_eq!(paths.venv, ".venv/dev/3.9");
    assert_eq!(paths.lock, "requirements.lock");
}

#[test]
fn resolve_fails_when_the_environment_has_no_parent() {
    assert_eq!(resolve("/home/me/proj", "/", &dev()), Err(Error::NoParentDirectory));
}

#[test]
fn binary_path_on_unix() {
    let paths = resolve("/p", "3.9", &dev()).unwrap();
    let layout = PlatformLayout::unix();
    assert_eq!(paths.binaries_path(&layout), "/p/.venv/dev/3.9/bin");
    assert_eq!(paths.binary_path(&layout, "python"), "/p/.venv/dev/3.9/bin/python");
}

#[test]
fn binary_path_on_windows() {
    let paths = resolve("/p", "3.9", &dev()).unwrap();
    let layout = PlatformLayout::windows();
    assert_eq!(paths.binaries_path(&layout), "/p/.venv/dev/3.9/Scripts");
    assert_eq!(paths.binary_path(&layout, "python"), "/p/.venv/dev/3.9/Scripts/python.exe");
}

#[test]
fn platform_layouts() {
    assert_eq!(
        PlatformLayout::unix(),
        PlatformLayout { subdir: "bin".to_string(), suffix: String::new() }
    );
    assert_eq!(
        PlatformLayout::windows(),
        PlatformLayout { subdir: "Scripts".to_string(), suffix: ".exe".to_string() }
    );
}

#[test]
fn resolve_binary_that_is_there() {
    let paths = resolve("/p", "3.9", &dev()).unwrap();
    let found = paths.resolve_binary(&PlatformLayout::unix(), "pip", true);
    assert_eq!(found, Ok("/p/.venv/dev/3.9/bin/pip".to_string()));
}

#[test]
fn resolve_binary_that_is_missing_names_the_path_tried() {
    let paths = resolve("/p", "3.9", &dev()).unwrap();
    let found = paths.resolve_binary(&PlatformLayout::windows(), "pip", false);
    assert_eq!(
        found,
        Err(Error::BinaryNotFound { path: "/p/.venv/dev/3.9/Scripts/pip.exe".to_string() })
    );
}

#[test]
fn new_project_resolves_its_paths() {
    let project =
        Project::new("/p".to_string(), python("3.9"), dev(), PlatformLayout::unix()).unwrap();
    assert_eq!(project.paths, resolve("/p", "3.9", &dev()).unwrap());
    assert_eq!(project.python_info, python("3.9"));
    assert_eq!(project.settings, dev());
    assert_eq!(project.layout, PlatformLayout::unix());
}

#[test]
fn new_project_fails_when_the_environment_has_no_parent() {
    let project = Project::new("/p".to_string(), python("/"), dev(), PlatformLayout::unix());
    assert_eq!(project.err(), Some(Error::NoParentDirectory));
}

#[test]
fn metadata_names_the_tool_and_the_interpreter() {
    let project =
        Project::new("/p".to_string(), python("3.9"), dev(), PlatformLayout::unix()).unwrap();
    let metadata = project.metadata();
    assert_eq!(metadata.dmenv_version, "0.1.0");
    assert_eq!(metadata.python_version, "3.9");
    assert_eq!(metadata.python_platform, "linux");
}

#[test]
fn the_crate_root_offers_the_main_items() {
    assert_eq!(dmenv::DEV_LOCK_FILENAME, DEV_LOCK_FILENAME);
    assert_eq!(dmenv::PROD_LOCK_FILENAME, PROD_LOCK_FILENAME);
    let error: dmenv::Error = Error::PipUpgradeFailed;
    assert_eq!(error, dmenv::Error::PipUpgradeFailed);
}
