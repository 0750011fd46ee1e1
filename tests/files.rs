use zen::text::{count_rows, eq_ignore_ascii_case, file_extension, first_lines, same_text, split_lines_with_endings, strip_line_ending};
use zen::tree::{arrange_entries, DirEntryInfo, FileExplorer, FileTreeNode};

fn entry(name: &str, dir: bool) -> DirEntryInfo {
    DirEntryInfo { name: name.to_string(), path: format!("/p/{name}"), is_directory: dir }
}

#[test]
fn entries_are_filtered_and_ordered() {
    let entries = vec![
        entry("zeta.rs", false),
        entry(".git", true),
        entry("src", true),
        entry("target", true),
        entry("Cargo.toml", false),
        entry("assets", true),
        entry(".env", false),
        entry("README.md", false),
        entry("targets", false),
    ];
    let names: Vec<(String, bool)> = arrange_entries(entries).into_iter().map(|e| (e.name, e.is_directory)).collect();
    let expected = [
        ("assets", true),
        ("src", true),
        ("Cargo.toml", false),
        ("README.md", false),
        ("targets", false),
        ("zeta.rs", false),
    ];
    assert_eq!(names.len(), expected.len());
    for ((n, d), (en, ed)) in names.iter().zip(expected.iter()) {
        assert_eq!(n, en);
        assert_eq!(d, ed);
    }
    assert!(arrange_entries(Vec::new()).is_empty());
}

#[test]
fn equal_names_are_all_kept() {
    let out = arrange_entries(vec![entry("a", false), entry("a", false), entry("a", true)]);
    assert_eq!(out.len(), 3);
    assert!(out[0].is_directory);
}

#[test]
fn explorer_hands_out_pending_file_once() {
    let mut explorer = FileExplorer::default();
    assert_eq!(explorer.take_pending_file(), None);
    explorer.select_file("/p/a.rs".to_string());
    assert_eq!(explorer.selected_file, Some("/p/a.rs".to_string()));
    assert_eq!(explorer.take_pending_file(), Some("/p/a.rs".to_string()));
    assert_eq!(explorer.take_pending_file(), None);
    assert_eq!(explorer.selected_file, Some("/p/a.rs".to_string()));
    let tree = FileTreeNode { path: "/p".to_string(), is_directory: true, children: Vec::new(), expanded: false };
    explorer.open_project(tree);
    let root = explorer.root.as_mut().unwrap();
    assert_eq!(root.path, "/p");
    root.toggle_expanded();
    assert!(root.expanded);
}

#[test]
fn lines_keep_their_endings() {
    assert_eq!(split_lines_with_endings("a\nb"), vec!["a\n".to_string(), "b".to_string()]);
    assert_eq!(split_lines_with_endings("a\n\n"), vec!["a\n".to_string(), "\n".to_string()]);
    assert!(split_lines_with_endings("").is_empty());
    assert_eq!(split_lines_with_endings("x\r\ny").concat(), "x\r\ny");
}

#[test]
fn lines_without_endings() {
    assert_eq!(first_lines("a\r\nb\nc", 10), vec!["a", "b", "c"]);
    assert_eq!(first_lines("a\r\nb\nc", 2), vec!["a", "b"]);
    assert_eq!(first_lines("only\r", 5), vec!["only\r"]);
    assert_eq!(strip_line_ending("x\r\n"), "x");
    assert_eq!(strip_line_ending("x\n"), "x");
    assert_eq!(strip_line_ending("x"), "x");
    assert_eq!(count_rows(""), 1);
    assert_eq!(count_rows("a\n"), 1);
    assert_eq!(count_rows("a\nb"), 2);
}

#[test]
fn names_and_extensions() {
    assert_eq!(file_extension("lib.rs"), Some("rs".to_string()));
    assert_eq!(file_extension(".hidden"), None);
    assert_eq!(file_extension(".hidden.md"), Some("md".to_string()));
    assert!(eq_ignore_ascii_case("CMakeLists.txt", "cmakelists.TXT"));
    assert!(!eq_ignore_ascii_case("CMakeLists.txt", "CMakeList.txt"));
    assert!(!eq_ignore_ascii_case("é", "É"));
    assert!(same_text("abc", "abc"));
    assert!(!same_text("abc", "abd"));
}
