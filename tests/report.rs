use path_inspect::cli::{parse_args, InspectError, Invocation};
use path_inspect::path::{file_name, join_path};
use path_inspect::perms::permission_text;
use path_inspect::report::{DirOrFile, EntryMetadata, PrettyFile};
use path_inspect::text::pad;

const BORDER: &str = "====================================================================";

fn args(v: &[&str]) -> Vec<String> {
    v.iter().map(|s| s.to_string()).collect()
}

fn meta(created: Option<&str>, modified: Option<&str>, accessed: Option<&str>) -> EntryMetadata {
    EntryMetadata {
        is_symlink: false,
        mode: 0o100644,
        created: created.map(|s| s.to_string()),
        last_modified: modified.map(|s| s.to_string()),
        last_accessed: accessed.map(|s| s.to_string()),
    }
}

fn invocation(path: &str, wants_hash: bool) -> Invocation {
    Invocation { path: path.to_string(), wants_hash }
}

fn labels(text: &str) -> Vec<String> {
    text.lines()
        .filter(|l| l.contains(": "))
        .map(|l| l.split(": ").next().unwrap().trim_end().to_string())
        .collect()
}

#[test]
fn pad_appends_spaces_up_to_width() {
    assert_eq!(pad("Name", 15), "Name           ");
    assert_eq!(pad("Absolute path", 15), "Absolute path  ");
    assert_eq!(pad("exactly", 7), "exactly");
    assert_eq!(pad("much too long", 4), "much too long");
    assert_eq!(pad("", 3), "   ");
}

#[test]
fn permission_bits_render_as_rwx() {
    assert_eq!(permission_text(0o644), "rw-r--r--");
    assert_eq!(permission_text(0o100755), "rwxr-xr-x");
    assert_eq!(permission_text(0), "---------");
    assert_eq!(permission_text(0o777), "rwxrwxrwx");
    assert_eq!(permission_text(0o421), "r---w---x");
}

#[test]
fn final_name_of_paths() {
    assert_eq!(file_name("a/b.txt"), Some("b.txt".to_string()));
    assert_eq!(file_name("/tmp/dir/"), Some("dir".to_string()));
    assert_eq!(file_name("a/./"), Some("a".to_string()));
    assert_eq!(file_name("./x"), Some("x".to_string()));
    assert_eq!(file_name("notes"), Some("notes".to_string()));
    assert_eq!(file_name("..."), Some("...".to_string()));
    assert_eq!(file_name("a/.."), None);
    assert_eq!(file_name("."), None);
    assert_eq!(file_name(""), None);
}

#[test]
fn root_has_no_name() {
    assert_eq!(file_name("/"), None);
    assert_eq!(file_name("//"), None);
}

#[test]
fn join_against_working_directory() {
    assert_eq!(join_path("/home/u", "x/y"), "/home/u/x/y");
    assert_eq!(join_path("/home/u/", "x"), "/home/u/x");
    assert_eq!(join_path("/", "x"), "/x");
    assert_eq!(join_path("/home/u", "/etc/hosts"), "/etc/hosts");
    assert_eq!(join_path("", "x"), "x");
    assert_eq!(join_path("/home/u", ".."), "/home/u/..");
}

#[test]
fn no_arguments_is_usage_error() {
    let r = parse_args(&args(&[]));
    assert!(matches!(r, Err(InspectError::MissingArgument)));
    assert_eq!(InspectError::MissingArgument.exit_code(), 404);
    assert_eq!(InspectError::MissingArgument.message(), "Missing expected argument: file");
}

#[test]
fn filesystem_failures_exit_500() {
    assert_eq!(InspectError::MetadataRead.exit_code(), 500);
    assert_eq!(InspectError::WorkingDirectory.exit_code(), 500);
    assert_eq!(InspectError::Canonicalization.exit_code(), 500);
    assert_eq!(InspectError::MetadataRead.message(), "Failed to read file metadata");
    assert_eq!(InspectError::WorkingDirectory.message(), "Error getting cwd");
}

#[test]
fn path_alone_asks_for_no_hash() {
    let inv = parse_args(&args(&["notes.txt"])).unwrap();
    assert_eq!(inv.path, "notes.txt");
    assert!(!inv.wants_hash);
}

#[test]
fn hash_flag_anywhere_after_path() {
    assert!(parse_args(&args(&["f", "--sha256"])).unwrap().wants_hash);
    assert!(parse_args(&args(&["f", "x", "-h"])).unwrap().wants_hash);
    assert!(parse_args(&args(&["f", "-h", "y"])).unwrap().wants_hash);
    assert!(!parse_args(&args(&["f", "--sha", "-H", "sha256"])).unwrap().wants_hash);
    let only = parse_args(&args(&["-h"])).unwrap();
    assert_eq!(only.path, "-h");
    assert!(!only.wants_hash);
}

#[test]
fn kind_text() {
    assert_eq!(DirOrFile::Dir.to_text(), "Directory");
    assert_eq!(DirOrFile::File.to_text(), "File");
}

#[test]
fn plain_file_report_text() {
    let inv = parse_args(&args(&["docs/notes.txt"])).unwrap();
    let r = PrettyFile::new(&inv, meta(None, None, None), "/home/u/docs/notes.txt".to_string(), false);
    let expected = format!(
        "{BORDER}\n\n\
         Name           : notes.txt\n\n\
         Absolute path  : /home/u/docs/notes.txt\n\n\
         Type           : File\n\n\
         Symlink        : false\n\n\
         Permissions    : rw-r--r--\n\n\
         {BORDER}\n"
    );
    assert_eq!(r.render(), expected);
    assert_eq!(
        labels(&r.render()),
        vec!["Name", "Absolute path", "Type", "Symlink", "Permissions"]
    );
}

#[test]
fn directory_type_is_directory() {
    let inv = invocation("src", false);
    let r = PrettyFile::new(&inv, meta(None, None, None), "/w/src".to_string(), true);
    assert_eq!(r.dir_or_file, DirOrFile::Dir);
    assert!(r.render().contains("\nType           : Directory\n\n"));
}

#[test]
fn hash_flag_shows_placeholder() {
    let inv = parse_args(&args(&["f.bin", "--verbose", "-h"])).unwrap();
    let r = PrettyFile::new(&inv, meta(None, None, None), "/w/f.bin".to_string(), false);
    assert_eq!(r.sha256, Some("[unimplemented]".to_string()));
    let text = r.render();
    assert!(text.contains("\nsha256         : [unimplemented]\n\n"));
    assert_eq!(
        labels(&text),
        vec!["Name", "Absolute path", "Type", "Symlink", "sha256", "Permissions"]
    );
}

#[test]
fn root_report_omits_name() {
    let inv = invocation("/", false);
    let r = PrettyFile::new(&inv, meta(None, None, None), "/".to_string(), true);
    assert_eq!(r.filename, None);
    let text = r.render();
    assert!(!text.contains("Name"));
    assert_eq!(labels(&text), vec!["Absolute path", "Type", "Symlink", "Permissions"]);
}

#[test]
fn absolute_path_shown_as_given() {
    let inv = invocation("../x/./y", false);
    let r = PrettyFile::new(&inv, meta(None, None, None), "/a/x/y".to_string(), false);
    assert!(r.render().contains("\nAbsolute path  : /a/x/y\n\n"));
}

#[test]
fn timestamps_omitted_one_by_one() {
    let inv = invocation("f", false);
    let r = PrettyFile::new(&inv, meta(Some("T1"), None, Some("T3")), "/f".to_string(), false);
    let text = r.render();
    assert!(text.contains("\nCreated        : T1\n\n"));
    assert!(text.contains("\nLast accessed  : T3\n\n"));
    assert!(!text.contains("Last modified"));
    let r = PrettyFile::new(&inv, meta(None, Some("T2"), None), "/f".to_string(), false);
    assert_eq!(
        labels(&r.render()),
        vec!["Name", "Absolute path", "Type", "Symlink", "Last modified", "Permissions"]
    );
    let r = PrettyFile::new(&inv, meta(Some("a"), Some("b"), Some("c")), "/f".to_string(), false);
    assert_eq!(
        labels(&r.render()),
        vec![
            "Name", "Absolute path", "Type", "Symlink", "Created", "Last modified",
            "Last accessed", "Permissions"
        ]
    );
}

#[test]
fn symlink_flag_shown() {
    let inv = invocation("link", false);
    let mut m = meta(None, None, None);
    m.is_symlink = true;
    let r = PrettyFile::new(&inv, m, "/target".to_string(), false);
    assert!(r.render().contains("\nSymlink        : true\n\n"));
}
