use app_backend::greeting::greet;
use app_backend::listing::{list_files, list_files_command, DirProbe, EntryRecord, ListError};

#[test]
fn greet_formats_name() {
    assert_eq!(
        greet("Rustacean"),
        "Hello, Rustacean! You've been greeted from Rust!"
    );
}

#[test]
fn greet_accepts_empty_name() {
    assert_eq!(greet(""), "Hello, ! You've been greeted from Rust!");
}

#[test]
fn missing_path_fails_with_path_not_found() {
    let r = list_files("/no/such/place", DirProbe::Missing);
    let e = r.err().expect("a missing path must fail");
    assert!(matches!(e, ListError::PathNotFound { .. }));
    let m = e.message();
    assert!(m.contains("/no/such/place"));
    assert_eq!(m, "Path does not exist: /no/such/place");
}

#[test]
fn file_path_fails_with_not_a_directory() {
    let r = list_files("/etc/hostname", DirProbe::NotDirectory);
    let e = r.err().expect("a non-directory path must fail");
    assert!(matches!(e, ListError::NotADirectory { .. }));
    assert_eq!(e.message(), "Path is not a directory: /etc/hostname");
}

#[test]
fn empty_directory_lists_nothing() {
    let r = list_files("/tmp/empty", DirProbe::Listing(Vec::new()));
    assert_eq!(r.ok().expect("an empty directory must succeed"), Vec::<String>::new());
}

#[test]
fn two_entries_are_listed_exactly() {
    let probe = DirProbe::Listing(vec![
        EntryRecord::Named("a.txt".to_owned()),
        EntryRecord::Named("sub".to_owned()),
    ]);
    let mut names = list_files("/tmp/two", probe).ok().expect("a clean listing must succeed");
    names.sort();
    assert_eq!(names, vec!["a.txt".to_owned(), "sub".to_owned()]);
}

#[test]
fn enumeration_order_is_preserved() {
    let probe = DirProbe::Listing(vec![
        EntryRecord::Named("b".to_owned()),
        EntryRecord::Named("a".to_owned()),
        EntryRecord::Named("c".to_owned()),
    ]);
    let names = list_files("/tmp/ordered", probe).ok().expect("a clean listing must succeed");
    assert_eq!(names, vec!["b".to_owned(), "a".to_owned(), "c".to_owned()]);
}

#[test]
fn undecodable_name_aborts_whole_listing() {
    let probe = DirProbe::Listing(vec![
        EntryRecord::Named("a.txt".to_owned()),
        EntryRecord::Undecoded("\"fo\\xFFo\"".to_owned()),
        EntryRecord::Named("sub".to_owned()),
    ]);
    let r = list_files("/tmp/bad", probe);
    let e = r.err().expect("one undecodable name must abort the whole call");
    assert!(matches!(e, ListError::InvalidEntryName { .. }));
    assert_eq!(e.message(), "Non-UTF-8 filename: \"fo\\xFFo\"");
}

#[test]
fn open_failure_reports_cause() {
    let probe = DirProbe::OpenFailed("permission denied".to_owned());
    let e = list_files("/root/locked", probe).err().expect("a failed open must fail");
    assert!(matches!(e, ListError::DirectoryReadError { .. }));
    assert_eq!(
        e.message(),
        "Failed to read directory '/root/locked': permission denied"
    );
}

#[test]
fn entry_read_failure_reports_cause() {
    let probe = DirProbe::Listing(vec![
        EntryRecord::Named("ok.txt".to_owned()),
        EntryRecord::Failed("input/output error".to_owned()),
    ]);
    let e = list_files("/tmp/flaky", probe).err().expect("a failed entry read must fail");
    assert!(matches!(e, ListError::DirectoryReadError { .. }));
    assert_eq!(e.message(), "Failed to read entry: input/output error");
}

#[test]
fn first_defect_decides_the_error() {
    let probe = DirProbe::Listing(vec![
        EntryRecord::Named("ok.txt".to_owned()),
        EntryRecord::Failed("input/output error".to_owned()),
        EntryRecord::Undecoded("\"later\"".to_owned()),
    ]);
    let e = list_files("/tmp/mixed", probe).err().expect("the listing must fail");
    assert!(matches!(e, ListError::DirectoryReadError { .. }));
}

#[test]
fn command_maps_failures_to_message_strings() {
    let r = list_files_command("/gone", DirProbe::Missing);
    assert_eq!(r, Err("Path does not exist: /gone".to_owned()));
}

#[test]
fn command_passes_names_through() {
    let probe = DirProbe::Listing(vec![EntryRecord::Named("only".to_owned())]);
    let r = list_files_command("/tmp/one", probe);
    assert_eq!(r, Ok(vec!["only".to_owned()]));
}
