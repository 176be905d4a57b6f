use xfetch::confirm::decide_overwrite;
use xfetch::confirm::overwrite_prompt;
use xfetch::confirm::Decision;
use xfetch::elevate::elevation_outcome_line;
use xfetch::elevate::preflight;
use xfetch::elevate::user_is_root;
use xfetch::elevate::Gate;
use xfetch::paths::base_name;
use xfetch::paths::import_target;
use xfetch::report::failure_report;
use xfetch::report::Severity;
use xfetch::request::Variant;
use xfetch::text::str_eq;
use xfetch::text::trim;

#[test]
fn trim_strips_both_ends() {
    assert_eq!(trim("  a b \n"), "a b");
    assert_eq!(trim("y\n"), "y");
    assert_eq!(trim(""), "");
    assert_eq!(trim(" \t\r\n"), "");
    assert_eq!(trim("no-blanks"), "no-blanks");
}

#[test]
fn str_eq_compares_characters() {
    assert!(str_eq("create", "create"));
    assert!(!str_eq("create", "created"));
    assert!(!str_eq("a", "b"));
    assert!(str_eq("", ""));
}

#[test]
fn only_trimmed_y_confirms() {
    assert_eq!(decide_overwrite("y\n"), Decision::Confirmed);
    assert_eq!(decide_overwrite("Y"), Decision::Confirmed);
    assert_eq!(decide_overwrite("  y  "), Decision::Confirmed);
    assert_eq!(decide_overwrite("n"), Decision::Declined);
    assert_eq!(decide_overwrite(""), Decision::Declined);
    assert_eq!(decide_overwrite("yes"), Decision::Declined);
    assert_eq!(decide_overwrite("yY"), Decision::Declined);
}

#[test]
fn prompt_names_the_destination() {
    assert_eq!(
        overwrite_prompt("foo.txt"),
        "Warning: foo.txt:  already exists. Overwrite? (y/n): "
    );
}

#[test]
fn base_name_is_the_last_component() {
    assert_eq!(base_name("a/b/c.txt"), "c.txt");
    assert_eq!(base_name("c.txt"), "c.txt");
    assert_eq!(base_name("a/"), "");
    assert_eq!(base_name("/x"), "x");
}

#[test]
fn import_target_joins_directory_and_base_name() {
    assert_eq!(import_target("src.txt", "."), "./src.txt");
    assert_eq!(import_target("a/b.txt", "dest"), "dest/b.txt");
    assert_eq!(import_target("x", "dir/"), "dir/x");
    assert_eq!(import_target("deep/thing", ""), "thing");
}

#[test]
fn failure_report_keeps_prefix_and_detail() {
    let r = failure_report("Failed to create file: ", "permission denied");
    assert_eq!(r.severity, Severity::Error);
    assert_eq!(r.line(), "Error: Failed to create file: permission denied");
}

#[test]
fn root_user_is_elevated() {
    assert!(user_is_root(&Some("root".to_string())));
    assert!(!user_is_root(&Some("alice".to_string())));
    assert!(!user_is_root(&None));
}

#[test]
fn gate_reexecs_only_unelevated_xfetch() {
    assert_eq!(preflight(Variant::Xfetch, false), Gate::Reexec);
    assert_eq!(preflight(Variant::Xfetch, true), Gate::RunHere);
    assert_eq!(preflight(Variant::Cortex, false), Gate::RunHere);
    assert_eq!(preflight(Variant::Cortex, true), Gate::RunHere);
}

#[test]
fn elevation_outcome_lines() {
    assert_eq!(elevation_outcome_line(true), "Elevated privileges granted.");
    assert_eq!(
        elevation_outcome_line(false),
        "Failed to obtain elevated privileges."
    );
}
