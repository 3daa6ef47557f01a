use rucp::request::{validate, TransferRequest, ValidationError};
use rucp::snapshot::{PathKind, Snapshot};

fn request<'a>(sources: &[&'a str], destination: &'a str) -> TransferRequest<'a> {
    TransferRequest { sources: sources.to_vec(), destination }
}

fn disk(entries: &[(&str, PathKind)]) -> Snapshot {
    let mut snapshot = Snapshot::new();
    for (path, kind) in entries {
        snapshot.record(path, *kind);
    }
    snapshot
}

#[test]
fn valid_request_keeps_sources_and_destination() {
    let snapshot = disk(&[
        ("one.txt", PathKind::File),
        ("two.txt", PathKind::File),
        ("dest", PathKind::Directory),
    ]);
    let valid = validate(request(&["one.txt", "two.txt"], "dest"), &snapshot).ok().unwrap();
    assert_eq!(valid.sources(), &vec!["one.txt", "two.txt"]);
    assert_eq!(valid.destination(), "dest");
    assert!(valid.destination_is_dir());
}

#[test]
fn single_source_may_go_to_a_file() {
    let snapshot = disk(&[("src.txt", PathKind::File), ("dest.txt", PathKind::File)]);
    let valid = validate(request(&["src.txt"], "dest.txt"), &snapshot).ok().unwrap();
    assert_eq!(valid.sources(), &vec!["src.txt"]);
    assert_eq!(valid.destination(), "dest.txt");
    assert!(!valid.destination_is_dir());
}

#[test]
fn single_source_may_go_to_a_path_that_is_missing() {
    let snapshot = disk(&[("src.txt", PathKind::File)]);
    let valid = validate(request(&["src.txt"], "new.txt"), &snapshot).ok().unwrap();
    assert_eq!(valid.destination(), "new.txt");
    assert!(!valid.destination_is_dir());
}

#[test]
fn directory_counts_as_an_existing_source() {
    let snapshot = disk(&[("srcdir", PathKind::Directory), ("dest", PathKind::Directory)]);
    assert!(validate(request(&["srcdir"], "dest"), &snapshot).is_ok());
}

#[test]
fn missing_source_is_reported() {
    let snapshot = disk(&[("dest.txt", PathKind::File)]);
    let error = validate(request(&["missing.txt"], "dest.txt"), &snapshot).err().unwrap();
    assert_eq!(error, ValidationError::SourceNotFound("missing.txt".to_string()));
    assert_eq!(error.message(), "missing.txt does not exist");
}

#[test]
fn first_missing_source_is_the_one_reported() {
    let snapshot = disk(&[("a", PathKind::File), ("d", PathKind::File)]);
    let error = validate(request(&["a", "b", "c", "d"], "dest"), &snapshot).err().unwrap();
    assert_eq!(error, ValidationError::SourceNotFound("b".to_string()));
    let error = validate(request(&["c", "b", "a"], "dest"), &snapshot).err().unwrap();
    assert_eq!(error, ValidationError::SourceNotFound("c".to_string()));
}

#[test]
fn missing_source_comes_before_the_destination() {
    let snapshot = disk(&[("one.txt", PathKind::File), ("three.txt", PathKind::File)]);
    let error = validate(request(&["one.txt", "two.txt"], "three.txt"), &snapshot).err().unwrap();
    assert_eq!(error, ValidationError::SourceNotFound("two.txt".to_string()));
}

#[test]
fn several_sources_need_a_directory() {
    let snapshot = disk(&[
        ("one.txt", PathKind::File),
        ("two.txt", PathKind::File),
        ("three.txt", PathKind::File),
    ]);
    let error = validate(request(&["one.txt", "two.txt"], "three.txt"), &snapshot).err().unwrap();
    assert_eq!(error, ValidationError::DestinationMustBeDirectory("three.txt".to_string()));
    assert_eq!(error.message(), "three.txt should be a directory");
}

#[test]
fn several_sources_need_a_destination_that_exists() {
    let snapshot = disk(&[("one.txt", PathKind::File), ("two.txt", PathKind::File)]);
    let error = validate(request(&["one.txt", "two.txt"], "nowhere"), &snapshot).err().unwrap();
    assert_eq!(error, ValidationError::DestinationMustBeDirectory("nowhere".to_string()));
}

#[test]
fn validation_gives_the_same_answer_each_time() {
    let snapshot = disk(&[("a", PathKind::File), ("dest", PathKind::Directory)]);
    let first = validate(request(&["a", "b"], "dest"), &snapshot).err();
    let second = validate(request(&["a", "b"], "dest"), &snapshot).err();
    assert_eq!(first, second);
    assert_eq!(first, Some(ValidationError::SourceNotFound("b".to_string())));
}
