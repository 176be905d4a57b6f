use xfetch::parse::parse_args;
use xfetch::request::Request;
use xfetch::request::UsageError;
use xfetch::request::Variant;

fn args(a: &[&str]) -> Vec<String> {
    a.iter().map(|s| s.to_string()).collect()
}

#[test]
fn parse_create_file() {
    match parse_args(Variant::Xfetch, &args(&["create", "foo.txt"])) {
        Ok(Request::Create { path, directory }) => {
            assert_eq!(path, "foo.txt");
            assert!(!directory);
        }
        other => panic!("unexpected: {:?}", other),
    }
}

#[test]
fn parse_create_directory_flag_before_path() {
    match parse_args(Variant::Xfetch, &args(&["create", "-d", "mydir"])) {
        Ok(Request::Create { path, directory }) => {
            assert_eq!(path, "mydir");
            assert!(directory);
        }
        other => panic!("unexpected: {:?}", other),
    }
}

#[test]
fn parse_create_directory_flag_after_path() {
    match parse_args(Variant::Cortex, &args(&["create", "mydir", "--directory"])) {
        Ok(Request::Create { path, directory }) => {
            assert_eq!(path, "mydir");
            assert!(directory);
        }
        other => panic!("unexpected: {:?}", other),
    }
}

#[test]
fn parse_create_missing_path() {
    match parse_args(Variant::Xfetch, &args(&["create"])) {
        Err(e) => assert_eq!(e, UsageError::MissingPath),
        other => panic!("unexpected: {:?}", other),
    }
}

#[test]
fn parse_create_unknown_flag() {
    match parse_args(Variant::Xfetch, &args(&["create", "-x", "p"])) {
        Err(e) => assert_eq!(e, UsageError::UnknownFlag),
        other => panic!("unexpected: {:?}", other),
    }
}

#[test]
fn parse_create_extra_argument() {
    match parse_args(Variant::Xfetch, &args(&["create", "a", "b"])) {
        Err(e) => assert_eq!(e, UsageError::ExtraArgument),
        other => panic!("unexpected: {:?}", other),
    }
}

#[test]
fn parse_import_default_destination() {
    match parse_args(Variant::Xfetch, &args(&["import", "src.txt"])) {
        Ok(Request::Import { source, destination }) => {
            assert_eq!(source, "src.txt");
            assert!(destination.is_none());
        }
        other => panic!("unexpected: {:?}", other),
    }
}

#[test]
fn parse_import_with_destination() {
    match parse_args(Variant::Xfetch, &args(&["import", "src.txt", "dest"])) {
        Ok(Request::Import { source, destination }) => {
            assert_eq!(source, "src.txt");
            assert_eq!(destination.as_deref(), Some("dest"));
        }
        other => panic!("unexpected: {:?}", other),
    }
}

#[test]
fn parse_import_missing_source() {
    match parse_args(Variant::Xfetch, &args(&["import"])) {
        Err(e) => assert_eq!(e, UsageError::MissingSource),
        other => panic!("unexpected: {:?}", other),
    }
}

#[test]
fn parse_no_subcommand() {
    match parse_args(Variant::Xfetch, &args(&[])) {
        Err(e) => assert_eq!(e, UsageError::NoSubcommand),
        other => panic!("unexpected: {:?}", other),
    }
}

#[test]
fn parse_unknown_subcommand() {
    match parse_args(Variant::Xfetch, &args(&["copy", "a", "b"])) {
        Err(e) => assert_eq!(e, UsageError::UnknownSubcommand),
        other => panic!("unexpected: {:?}", other),
    }
    match parse_args(Variant::Cortex, &args(&["import", "a"])) {
        Err(e) => assert_eq!(e, UsageError::UnknownSubcommand),
        other => panic!("unexpected: {:?}", other),
    }
}

#[test]
fn parse_copy_and_paste() {
    match parse_args(Variant::Cortex, &args(&["copy", "a", "b"])) {
        Ok(Request::Copy { source, destination }) => {
            assert_eq!(source, "a");
            assert_eq!(destination, "b");
        }
        other => panic!("unexpected: {:?}", other),
    }
    match parse_args(Variant::Cortex, &args(&["paste", "a", "b"])) {
        Ok(Request::Paste { source, destination }) => {
            assert_eq!(source, "a");
            assert_eq!(destination, "b");
        }
        other => panic!("unexpected: {:?}", other),
    }
}

#[test]
fn parse_copy_missing_destination() {
    match parse_args(Variant::Cortex, &args(&["copy", "a"])) {
        Err(e) => assert_eq!(e, UsageError::MissingDestination),
        other => panic!("unexpected: {:?}", other),
    }
    match parse_args(Variant::Cortex, &args(&["paste"])) {
        Err(e) => assert_eq!(e, UsageError::MissingSource),
        other => panic!("unexpected: {:?}", other),
    }
}
