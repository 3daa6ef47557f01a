use rucp::snapshot::{PathKind, Snapshot};

#[test]
fn nothing_is_recorded_at_first() {
    let snapshot = Snapshot::new();
    assert_eq!(snapshot.kind_of("src.txt"), PathKind::Missing);
    assert!(!snapshot.is_present("src.txt"));
    assert!(!snapshot.is_dir("src.txt"));
    assert_eq!(snapshot.kind_of(""), PathKind::Missing);
}

#[test]
fn recorded_paths_are_found() {
    let mut snapshot = Snapshot::new();
    snapshot.record("src.txt", PathKind::File);
    snapshot.record("outdir", PathKind::Directory);
    assert_eq!(snapshot.kind_of("src.txt"), PathKind::File);
    assert_eq!(snapshot.kind_of("outdir"), PathKind::Directory);
    assert!(snapshot.is_present("src.txt"));
    assert!(!snapshot.is_dir("src.txt"));
    assert!(snapshot.is_present("outdir"));
    assert!(snapshot.is_dir("outdir"));
    assert_eq!(snapshot.kind_of("outdir/src.txt"), PathKind::Missing);
    assert_eq!(snapshot.kind_of("src"), PathKind::Missing);
}

#[test]
fn later_observation_replaces_the_earlier() {
    let mut snapshot = Snapshot::new();
    snapshot.record("dest", PathKind::File);
    snapshot.record("other", PathKind::File);
    snapshot.record("dest", PathKind::Directory);
    assert_eq!(snapshot.kind_of("dest"), PathKind::Directory);
    assert_eq!(snapshot.kind_of("other"), PathKind::File);
    snapshot.record("dest", PathKind::Missing);
    assert_eq!(snapshot.kind_of("dest"), PathKind::Missing);
    assert!(!snapshot.is_present("dest"));
}
