use rucp::plan::{get_file_name, name_or_error, PlanError, Transfer, TransferStep};
use rucp::request::{validate, TransferRequest};
use rucp::snapshot::{PathKind, Snapshot};

fn cp(source: &str, destination: &str) -> TransferStep {
    TransferStep::Cp(source.to_string(), destination.to_string())
}

fn plan(entries: &[(&str, PathKind)]) -> Result<Transfer, PlanError> {
    let mut snapshot = Snapshot::new();
    let mut request = TransferRequest { sources: vec![], destination: "" };
    for (i, (path, kind)) in entries.iter().enumerate() {
        snapshot.record(path, *kind);
        if i + 1 < entries.len() {
            request.sources.push(*path);
        } else {
            request.destination = *path;
        }
    }
    validate(request, &snapshot).expect("the request is valid").compute_transfer()
}

#[test]
fn single_source_to_file() {
    let transfer = plan(&[("src.txt", PathKind::File), ("dest.txt", PathKind::File)]).unwrap();
    assert_eq!(transfer.steps(), &vec![cp("src.txt", "dest.txt")]);
}

#[test]
fn single_source_to_new_path() {
    let transfer = plan(&[("src.txt", PathKind::File), ("new.txt", PathKind::Missing)]).unwrap();
    assert_eq!(transfer.steps(), &vec![cp("src.txt", "new.txt")]);
}

#[test]
fn single_source_to_directory() {
    let transfer = plan(&[("src.txt", PathKind::File), ("outdir", PathKind::Directory)]).unwrap();
    assert_eq!(transfer.steps(), &vec![cp("src.txt", "outdir/src.txt")]);
}

#[test]
fn several_sources_to_directory() {
    let transfer = plan(&[
        ("one.txt", PathKind::File),
        ("two.txt", PathKind::File),
        ("dest", PathKind::Directory),
    ])
    .unwrap();
    assert_eq!(
        transfer.steps(),
        &vec![cp("one.txt", "dest/one.txt"), cp("two.txt", "dest/two.txt")]
    );
}

#[test]
fn sources_are_copied_under_their_last_component() {
    let transfer = plan(&[
        ("/var/log/messages", PathKind::File),
        ("deep/down/notes.md", PathKind::File),
        ("somedir/", PathKind::Directory),
        ("backup", PathKind::Directory),
    ])
    .unwrap();
    assert_eq!(
        transfer.steps(),
        &vec![
            cp("/var/log/messages", "backup/messages"),
            cp("deep/down/notes.md", "backup/notes.md"),
            cp("somedir/", "backup/somedir"),
        ]
    );
}

#[test]
fn destination_with_trailing_separator_gets_no_second_one() {
    let transfer = plan(&[("a/src.txt", PathKind::File), ("outdir/", PathKind::Directory)]).unwrap();
    assert_eq!(transfer.steps(), &vec![cp("a/src.txt", "outdir/src.txt")]);
}

#[test]
fn source_without_a_name_is_reported() {
    let error = plan(&[("/", PathKind::Directory), ("dest", PathKind::Directory)]).unwrap_err();
    assert_eq!(error, PlanError::NoFileName("/".to_string()));
    assert_eq!(error.message(), "/ has no name");
}

#[test]
fn first_source_without_a_name_is_the_one_reported() {
    let error = plan(&[
        ("a.txt", PathKind::File),
        ("sub/..", PathKind::Directory),
        ("/", PathKind::Directory),
        ("dest", PathKind::Directory),
    ])
    .unwrap_err();
    assert_eq!(error, PlanError::NoFileName("sub/..".to_string()));
}

#[test]
fn source_without_a_name_may_go_to_a_file() {
    let transfer = plan(&[("..", PathKind::Directory), ("dest.txt", PathKind::File)]).unwrap();
    assert_eq!(transfer.steps(), &vec![cp("..", "dest.txt")]);
}

#[test]
fn plan_is_the_same_each_time() {
    let entries = [
        ("one.txt", PathKind::File),
        ("two.txt", PathKind::File),
        ("dest", PathKind::Directory),
    ];
    let first = plan(&entries).unwrap();
    let second = plan(&entries).unwrap();
    assert_eq!(first.steps(), second.steps());
}

#[test]
fn one_source_and_several_sources_agree_on_a_directory() {
    let mut snapshot = Snapshot::new();
    snapshot.record("src.txt", PathKind::File);
    snapshot.record("outdir", PathKind::Directory);
    let request = TransferRequest { sources: vec!["src.txt"], destination: "outdir" };
    let valid = validate(request, &snapshot).ok().unwrap();
    let one = valid.compute_transfer_one_source().unwrap();
    let several = valid.compute_transfer_several_sources().unwrap();
    assert_eq!(one.steps(), several.steps());
    assert_eq!(one.steps(), &vec![cp("src.txt", "outdir/src.txt")]);
}

#[test]
fn no_sources_give_an_empty_plan() {
    let transfer = plan(&[("dest", PathKind::Directory)]).unwrap();
    assert_eq!(transfer.len(), 0);
}

#[test]
fn file_name_is_the_last_component() {
    assert_eq!(get_file_name("dir/sub/file.txt"), Ok("file.txt".to_string()));
    assert_eq!(get_file_name("file.txt"), Ok("file.txt".to_string()));
    assert_eq!(get_file_name("/usr/bin/"), Ok("bin".to_string()));
    assert_eq!(get_file_name("/"), Err(PlanError::NoFileName("/".to_string())));
    assert_eq!(get_file_name("a/.."), Err(PlanError::NoFileName("a/..".to_string())));
}

#[test]
fn name_or_error_passes_the_name_on() {
    assert_eq!(name_or_error("a/b", Some("b".to_string())), Ok("b".to_string()));
    assert_eq!(name_or_error("a/b", None), Err(PlanError::NoFileName("a/b".to_string())));
}
