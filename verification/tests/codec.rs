use dmenv::codec::{deserialize, serialize, Metadata};
use dmenv::error::Error;
use dmenv::record::DependencyRecord;
use dmenv::text::lines;

fn pinned(name: &str, version: &str) -> DependencyRecord {
    DependencyRecord { name: name.to_string(), version: version.to_string(), source_ref: None }
}

fn sourced(name: &str, reference: &str) -> DependencyRecord {
    DependencyRecord {
        name: name.to_string(),
        version: String::new(),
        source_ref: Some(reference.to_string()),
    }
}

fn meta() -> Metadata {
    Metadata {
        dmenv_version: "0.1.0".to_string(),
        python_platform: "linux".to_string(),
        python_version: "3.9".to_string(),
    }
}

fn blank() -> Metadata {
    Metadata {
        dmenv_version: String::new(),
        python_platform: String::new(),
        python_version: String::new(),
    }
}

#[test]
fn lines_of_the_empty_text() {
    assert_eq!(lines(""), Vec::<String>::new());
}

#[test]
fn lines_end_at_line_feeds() {
    assert_eq!(lines("a\n\nb"), vec!["a".to_string(), String::new(), "b".to_string()]);
}

#[test]
fn a_final_line_feed_starts_no_line() {
    assert_eq!(lines("a\n"), vec!["a".to_string()]);
    assert_eq!(lines("\n"), vec![String::new()]);
}

#[test]
fn lines_lose_a_carriage_return() {
    assert_eq!(lines("a\r\nb\r\n"), vec!["a".to_string(), "b".to_string()]);
    assert_eq!(lines("a\rb"), vec!["a\rb".to_string()]);
}

#[test]
fn parse_a_registry_pin() {
    assert_eq!(
        DependencyRecord::parse_freeze_line("requests==2.25.0"),
        Ok(pinned("requests", "2.25.0"))
    );
}

#[test]
fn parse_a_source_pin() {
    assert_eq!(
        DependencyRecord::parse_freeze_line("tool @ git+https://example.com/tool.git@v1.2"),
        Ok(sourced("tool", "git+https://example.com/tool.git@v1.2"))
    );
}

#[test]
fn parse_keeps_pkg_resources() {
    assert_eq!(
        DependencyRecord::parse_freeze_line("pkg-resources==0.0.0"),
        Ok(pinned("pkg-resources", "0.0.0"))
    );
}

#[test]
fn parse_refuses_a_line_of_neither_shape() {
    assert_eq!(
        DependencyRecord::parse_freeze_line("not-a-valid-line"),
        Err(Error::MalformedDependencyLine { line: "not-a-valid-line".to_string() })
    );
}

#[test]
fn parse_refuses_a_missing_name() {
    assert_eq!(
        DependencyRecord::parse_freeze_line("==1.0"),
        Err(Error::MalformedDependencyLine { line: "==1.0".to_string() })
    );
}

#[test]
fn parse_refuses_a_missing_version() {
    assert_eq!(
        DependencyRecord::parse_freeze_line("requests=="),
        Err(Error::MalformedDependencyLine { line: "requests==".to_string() })
    );
}

#[test]
fn parse_refuses_a_missing_reference() {
    assert_eq!(
        DependencyRecord::parse_freeze_line("tool @ "),
        Err(Error::MalformedDependencyLine { line: "tool @ ".to_string() })
    );
}

#[test]
fn parse_refuses_the_empty_line() {
    assert_eq!(
        DependencyRecord::parse_freeze_line(""),
        Err(Error::MalformedDependencyLine { line: String::new() })
    );
}

#[test]
fn parse_refuses_a_single_equals_sign() {
    assert_eq!(
        DependencyRecord::parse_freeze_line("requests=2.25.0"),
        Err(Error::MalformedDependencyLine { line: "requests=2.25.0".to_string() })
    );
}

#[test]
fn parse_takes_the_rest_of_the_line_as_the_version() {
    assert_eq!(
        DependencyRecord::parse_freeze_line("a.b_c-d==1.0==2 x"),
        Ok(pinned("a.b_c-d", "1.0==2 x"))
    );
}

#[test]
fn a_record_is_written_as_its_line() {
    assert_eq!(pinned("requests", "2.25.0").to_line(), "requests==2.25.0");
    assert_eq!(sourced("tool", "git+https://x/y@v1").to_line(), "tool @ git+https://x/y@v1");
}

#[test]
fn a_line_parses_back_to_its_record() {
    let record = sourced("tool", "git+https://x/y@v1");
    assert_eq!(DependencyRecord::parse_freeze_line(&record.to_line()), Ok(record));
}

#[test]
fn duplicate_copies_every_field() {
    let record = sourced("tool", "ref");
    assert_eq!(record.duplicate(), record);
    let record = pinned("a", "1");
    assert_eq!(record.duplicate(), record);
}

#[test]
fn serialize_writes_the_header_then_the_records() {
    let records = vec![pinned("requests", "2.25.0"), sourced("tool", "git+https://x/y@v1")];
    assert_eq!(
        serialize(&records, &meta()),
        "# dmenv: 0.1.0\n# python: 3.9\n# platform: linux\nrequests==2.25.0\ntool @ git+https://x/y@v1\n"
    );
}

#[test]
fn serialize_without_records_is_the_header() {
    assert_eq!(
        serialize(&Vec::new(), &meta()),
        "# dmenv: 0.1.0\n# python: 3.9\n# platform: linux\n"
    );
}

#[test]
fn deserialize_reads_back_what_serialize_wrote() {
    let records = vec![
        pinned("attrs", "21.2.0"),
        sourced("tool", "git+https://x/y@v1"),
        pinned("requests", "2.25.0"),
    ];
    let text = serialize(&records, &meta());
    assert_eq!(deserialize(&text), Ok((records, meta())));
}

#[test]
fn deserialize_reads_back_a_single_record() {
    let records = vec![pinned("requests", "2.25.0")];
    let text = serialize(&records, &meta());
    assert_eq!(deserialize(&text), Ok((records, meta())));
}

#[test]
fn deserialize_of_the_empty_text() {
    assert_eq!(deserialize(""), Ok((Vec::new(), blank())));
}

#[test]
fn deserialize_passes_over_comments_and_empty_lines() {
    let text = "# Generated by hand\n\nrequests==2.25.0\n# python: 3.7\n\nattrs==21.2.0\n";
    let expected = Metadata { python_version: "3.7".to_string(), ..blank() };
    assert_eq!(
        deserialize(text),
        Ok((vec![pinned("requests", "2.25.0"), pinned("attrs", "21.2.0")], expected))
    );
}

#[test]
fn deserialize_takes_the_last_header_of_a_kind() {
    let text = "# dmenv: 0.1.0\n# dmenv: 0.2.0\n";
    let expected = Metadata { dmenv_version: "0.2.0".to_string(), ..blank() };
    assert_eq!(deserialize(text), Ok((Vec::new(), expected)));
}

#[test]
fn deserialize_reads_windows_line_ends() {
    let text = "# platform: win32\r\nrequests==2.25.0\r\n";
    let expected = Metadata { python_platform: "win32".to_string(), ..blank() };
    assert_eq!(deserialize(text), Ok((vec![pinned("requests", "2.25.0")], expected)));
}

#[test]
fn deserialize_fails_on_the_first_line_that_is_no_dependency() {
    let text = "requests==2.25.0\nnot-a-valid-line\nalso bad\n";
    assert_eq!(
        deserialize(text),
        Err(Error::MalformedDependencyLine { line: "not-a-valid-line".to_string() })
    );
}

#[test]
fn errors_copy_their_fields() {
    let error = Error::ExternalCommandFailed {
        program: "/p/bin/python".to_string(),
        exit_code: 2,
        stderr: "boom".to_string(),
    };
    assert_eq!(error.duplicate(), error);
    let error = Error::DependencyNotFound { name: "x".to_string() };
    assert_eq!(error.duplicate(), error);
}
