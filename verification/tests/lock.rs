use dmenv::codec::{serialize, Metadata};
use dmenv::error::Error;
use dmenv::lock::{
    bump, bump_records, frozen_dependencies, names, tidy, tidy_records, without_ignored,
};
use dmenv::record::DependencyRecord;

fn pin(name: &str, version: &str) -> DependencyRecord {
    DependencyRecord { name: name.to_string(), version: version.to_string(), source_ref: None }
}

fn source(name: &str, reference: &str) -> DependencyRecord {
    DependencyRecord {
        name: name.to_string(),
        version: String::new(),
        source_ref: Some(reference.to_string()),
    }
}

fn header() -> Metadata {
    Metadata {
        dmenv_version: "0.1.0".to_string(),
        python_platform: "linux".to_string(),
        python_version: "3.9".to_string(),
    }
}

#[test]
fn names_finds_a_record_by_its_exact_name() {
    let records = vec![pin("Requests", "1"), pin("attrs", "2")];
    assert!(names(&records, &"attrs".to_string()));
    assert!(!names(&records, &"requests".to_string()));
    assert!(!names(&Vec::new(), &"attrs".to_string()));
}

#[test]
fn without_ignored_drops_pkg_resources() {
    let records = vec![pin("a", "1"), pin("pkg-resources", "0.0.0"), pin("b", "2")];
    assert_eq!(without_ignored(&records), vec![pin("a", "1"), pin("b", "2")]);
}

#[test]
fn frozen_dependencies_in_freeze_order() {
    let output = "urllib3==1.26.5\nattrs==21.2.0\ntool @ git+https://x/y@v1\n";
    assert_eq!(
        frozen_dependencies(output),
        Ok(vec![pin("urllib3", "1.26.5"), pin("attrs", "21.2.0"), source("tool", "git+https://x/y@v1")])
    );
}

#[test]
fn frozen_dependencies_leave_out_pkg_resources() {
    let output = "attrs==21.2.0\npkg-resources==0.0.0\nrequests==2.25.0\n";
    assert_eq!(
        frozen_dependencies(output),
        Ok(vec![pin("attrs", "21.2.0"), pin("requests", "2.25.0")])
    );
}

#[test]
fn frozen_dependencies_of_no_output() {
    assert_eq!(frozen_dependencies(""), Ok(Vec::new()));
}

#[test]
fn frozen_dependencies_fail_on_a_malformed_line() {
    let output = "attrs==21.2.0\nnot-a-valid-line\n";
    assert_eq!(
        frozen_dependencies(output),
        Err(Error::MalformedDependencyLine { line: "not-a-valid-line".to_string() })
    );
}

#[test]
fn frozen_dependencies_fail_on_an_empty_line() {
    assert_eq!(
        frozen_dependencies("attrs==21.2.0\n\nrequests==2.25.0\n"),
        Err(Error::MalformedDependencyLine { line: String::new() })
    );
}

#[test]
fn bump_replaces_one_version_and_nothing_else() {
    let before = vec![pin("attrs", "21.2.0"), pin("requests", "2.25.0"), pin("urllib3", "1.26.5")];
    let after = vec![pin("attrs", "21.2.0"), pin("requests", "2.31.0"), pin("urllib3", "1.26.5")];
    let lock = serialize(&before, &header());
    assert_eq!(bump(&lock, "requests", "2.31.0", false, &header()), Ok(serialize(&after, &header())));
}

#[test]
fn bump_changes_exactly_one_line() {
    let lock = "# dmenv: 0.1.0\n# python: 3.9\n# platform: linux\nattrs==21.2.0\nrequests==2.25.0\n";
    assert_eq!(
        bump(lock, "requests", "2.31.0", false, &header()),
        Ok("# dmenv: 0.1.0\n# python: 3.9\n# platform: linux\nattrs==21.2.0\nrequests==2.31.0\n"
            .to_string())
    );
}

#[test]
fn bump_of_an_unknown_name_fails() {
    let lock = serialize(&vec![pin("requests", "2.25.0")], &header());
    assert_eq!(
        bump(&lock, "nonexistent", "1.0", false, &header()),
        Err(Error::DependencyNotFound { name: "nonexistent".to_string() })
    );
}

#[test]
fn bump_matches_names_exactly() {
    let lock = serialize(&vec![pin("requests", "2.25.0")], &header());
    assert_eq!(
        bump(&lock, "Requests", "2.31.0", false, &header()),
        Err(Error::DependencyNotFound { name: "Requests".to_string() })
    );
}

#[test]
fn bump_to_a_source_reference() {
    let records = vec![pin("attrs", "21.2.0"), pin("tool", "1.0")];
    assert_eq!(
        bump_records(&records, "tool", "git+https://x/y@abc", true),
        Ok(vec![pin("attrs", "21.2.0"), source("tool", "git+https://x/y@abc")])
    );
}

#[test]
fn bump_from_a_source_reference_to_a_version() {
    let records = vec![source("tool", "git+https://x/y@abc")];
    assert_eq!(bump_records(&records, "tool", "2.0", false), Ok(vec![pin("tool", "2.0")]));
}

#[test]
fn bump_adds_nothing_to_an_empty_lock() {
    assert_eq!(
        bump_records(&Vec::new(), "requests", "2.31.0", false),
        Err(Error::DependencyNotFound { name: "requests".to_string() })
    );
}

#[test]
fn bump_writes_the_header_it_is_given() {
    let old = Metadata { python_version: "3.6".to_string(), ..header() };
    let lock = serialize(&vec![pin("requests", "2.25.0")], &old);
    assert_eq!(
        bump(&lock, "requests", "2.31.0", false, &header()),
        Ok(serialize(&vec![pin("requests", "2.31.0")], &header()))
    );
}

#[test]
fn bump_of_a_malformed_lock_fails() {
    assert_eq!(
        bump("what is this\n", "requests", "2.31.0", false, &header()),
        Err(Error::MalformedDependencyLine { line: "what is this".to_string() })
    );
}

#[test]
fn tidy_drops_what_the_lock_did_not_track() {
    let old = vec![pin("a", "1.0"), pin("b", "2.0")];
    let fresh = vec![pin("a", "1.0"), pin("b", "2.0"), pin("c", "3.0")];
    assert_eq!(tidy_records(&old, &fresh), vec![pin("a", "1.0"), pin("b", "2.0")]);
}

#[test]
fn tidy_keeps_the_fresh_pin() {
    let old = vec![source("a", "git+https://x/a@v1"), pin("b", "2.0")];
    let fresh = vec![pin("b", "2.1"), pin("a", "1.0")];
    assert_eq!(tidy_records(&old, &fresh), vec![pin("b", "2.1"), pin("a", "1.0")]);
}

#[test]
fn tidy_drops_what_is_no_longer_installed() {
    let old = vec![pin("a", "1.0"), pin("b", "2.0")];
    let fresh = vec![pin("b", "2.0")];
    assert_eq!(tidy_records(&old, &fresh), vec![pin("b", "2.0")]);
}

#[test]
fn tidy_rewrites_the_lock() {
    let old = serialize(&vec![pin("a", "1.0"), pin("b", "2.0")], &header());
    let fresh = vec![pin("a", "1.0"), pin("b", "2.0"), pin("c", "3.0")];
    assert_eq!(
        tidy(&old, &fresh, &header()),
        Ok("# dmenv: 0.1.0\n# python: 3.9\n# platform: linux\na==1.0\nb==2.0\n".to_string())
    );
}

#[test]
fn tidy_of_a_malformed_lock_fails() {
    assert_eq!(
        tidy("a==1.0\nb\n", &vec![pin("a", "1.0")], &header()),
        Err(Error::MalformedDependencyLine { line: "b".to_string() })
    );
}
