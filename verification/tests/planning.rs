use xfetch::plan::plan;
use xfetch::plan::resolve_answer;
use xfetch::plan::Action;
use xfetch::plan::FsOp;
use xfetch::plan::Observation;
use xfetch::plan::PathKind;
use xfetch::plan::Plan;
use xfetch::plan::Resolution;
use xfetch::report::Severity;
use xfetch::request::Request;
use xfetch::request::Variant;

fn create_req(path: &str, directory: bool) -> Request {
    Request::Create { path: path.to_string(), directory }
}

fn import_req(source: &str, destination: Option<&str>) -> Request {
    Request::Import {
        source: source.to_string(),
        destination: destination.map(|d| d.to_string()),
    }
}

#[test]
fn create_on_fresh_path_acts_at_once() {
    let p = plan(
        Variant::Xfetch,
        &create_req("foo.txt", false),
        true,
        Observation::ForCreate { exists: false },
    );
    match p {
        Plan::Act { action: Action::Perform { op, done, fail_prefix } } => {
            match op {
                FsOp::CreateFile { path } => assert_eq!(path, "foo.txt"),
                other => panic!("unexpected op: {:?}", other),
            }
            assert_eq!(done.severity, Severity::Info);
            assert_eq!(done.line(), "Success: File created: foo.txt");
            assert_eq!(fail_prefix, "Failed to create file: ");
        }
        other => panic!("unexpected plan: {:?}", other),
    }
}

#[test]
fn create_directory_on_fresh_path() {
    let p = plan(
        Variant::Cortex,
        &create_req("mydir", true),
        false,
        Observation::ForCreate { exists: false },
    );
    match p {
        Plan::Act { action: Action::Perform { op, done, .. } } => {
            match op {
                FsOp::CreateDir { path } => assert_eq!(path, "mydir"),
                other => panic!("unexpected op: {:?}", other),
            }
            assert_eq!(done.line(), "Success: Directory created: mydir");
        }
        other => panic!("unexpected plan: {:?}", other),
    }
}

#[test]
fn create_on_existing_path_asks_first() {
    let p = plan(
        Variant::Xfetch,
        &create_req("foo.txt", false),
        true,
        Observation::ForCreate { exists: true },
    );
    match p {
        Plan::Ask { prompt, then, skip } => {
            assert_eq!(prompt, "Warning: foo.txt:  already exists. Overwrite? (y/n): ");
            match resolve_answer("n\n", then, skip) {
                Resolution::Skipped { report } => {
                    assert_eq!(report.severity, Severity::Warning);
                    assert_eq!(report.line(), "Skipped: File not overwritten: foo.txt");
                }
                other => panic!("unexpected resolution: {:?}", other),
            }
        }
        other => panic!("unexpected plan: {:?}", other),
    }
}

#[test]
fn confirmed_overwrite_proceeds_to_create() {
    let p = plan(
        Variant::Xfetch,
        &create_req("foo.txt", false),
        true,
        Observation::ForCreate { exists: true },
    );
    match p {
        Plan::Ask { then, skip, .. } => match resolve_answer("y\n", then, skip) {
            Resolution::Proceed { action: Action::Perform { op, .. } } => match op {
                FsOp::CreateFile { path } => assert_eq!(path, "foo.txt"),
                other => panic!("unexpected op: {:?}", other),
            },
            other => panic!("unexpected resolution: {:?}", other),
        },
        other => panic!("unexpected plan: {:?}", other),
    }
}

#[test]
fn unelevated_xfetch_only_reexecs() {
    let p = plan(
        Variant::Xfetch,
        &create_req("foo.txt", false),
        false,
        Observation::ForCreate { exists: false },
    );
    assert!(matches!(p, Plan::Reexec));
    let q = plan(
        Variant::Xfetch,
        &import_req("src.txt", None),
        false,
        Observation::ForTransfer { source_kind: PathKind::File, dest_exists: true },
    );
    assert!(matches!(q, Plan::Reexec));
}

#[test]
fn import_file_lands_in_current_directory_by_default() {
    let p = plan(
        Variant::Xfetch,
        &import_req("src.txt", None),
        true,
        Observation::ForTransfer { source_kind: PathKind::File, dest_exists: false },
    );
    match p {
        Plan::Act { action: Action::Perform { op, done, fail_prefix } } => {
            match op {
                FsOp::CopyFile { source, dest } => {
                    assert_eq!(source, "src.txt");
                    assert_eq!(dest, "./src.txt");
                }
                other => panic!("unexpected op: {:?}", other),
            }
            assert_eq!(done.line(), "Success: File imported to: .");
            assert_eq!(fail_prefix, "Failed to import file: ");
        }
        other => panic!("unexpected plan: {:?}", other),
    }
}

#[test]
fn import_directory_copies_the_subtree() {
    let p = plan(
        Variant::Xfetch,
        &import_req("srcdir", Some("dest")),
        true,
        Observation::ForTransfer { source_kind: PathKind::Dir, dest_exists: false },
    );
    match p {
        Plan::Act { action: Action::Perform { op, done, .. } } => {
            match op {
                FsOp::CopyTree { source, dest } => {
                    assert_eq!(source, "srcdir");
                    assert_eq!(dest, "dest");
                }
                other => panic!("unexpected op: {:?}", other),
            }
            assert_eq!(done.line(), "Success: Directory imported to: dest");
        }
        other => panic!("unexpected plan: {:?}", other),
    }
}

#[test]
fn import_missing_source_is_rejected() {
    let p = plan(
        Variant::Xfetch,
        &import_req("ghost", Some("dest")),
        true,
        Observation::ForTransfer { source_kind: PathKind::Missing, dest_exists: false },
    );
    match p {
        Plan::Act { action: Action::Reject { report } } => {
            assert_eq!(report.severity, Severity::Error);
            assert_eq!(report.line(), "Error: The specified path does not exist.");
        }
        other => panic!("unexpected plan: {:?}", other),
    }
}

#[test]
fn import_existing_destination_asks_about_the_directory() {
    let p = plan(
        Variant::Xfetch,
        &import_req("src.txt", Some("dest")),
        true,
        Observation::ForTransfer { source_kind: PathKind::File, dest_exists: true },
    );
    match p {
        Plan::Ask { prompt, then, skip } => {
            assert_eq!(prompt, "Warning: dest:  already exists. Overwrite? (y/n): ");
            match resolve_answer("", then, skip) {
                Resolution::Skipped { report } => {
                    assert_eq!(report.line(), "Skipped: Item not overwritten: dest");
                }
                other => panic!("unexpected resolution: {:?}", other),
            }
        }
        other => panic!("unexpected plan: {:?}", other),
    }
}

#[test]
fn cortex_copy_of_directory_is_shallow() {
    for paste in [false, true] {
        let req = if paste {
            Request::Paste { source: "srcdir".to_string(), destination: "destdir".to_string() }
        } else {
            Request::Copy { source: "srcdir".to_string(), destination: "destdir".to_string() }
        };
        let p = plan(
            Variant::Cortex,
            &req,
            false,
            Observation::ForTransfer { source_kind: PathKind::Dir, dest_exists: false },
        );
        match p {
            Plan::Act { action: Action::Perform { op, done, .. } } => {
                match op {
                    FsOp::CopyEntry { source, dest } => {
                        assert_eq!(source, "srcdir");
                        assert_eq!(dest, "destdir");
                    }
                    other => panic!("unexpected op: {:?}", other),
                }
                assert_eq!(done.line(), "Success: Item copied to: destdir");
            }
            other => panic!("unexpected plan: {:?}", other),
        }
    }
}
