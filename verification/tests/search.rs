use orion::session::FileSearcher;
use orion::walk::{Entry, WalkItem};

fn file(path: &str, name: &str) -> WalkItem {
    WalkItem::Entry(Entry { path: path.to_string(), name: name.to_string(), is_file: true })
}

fn directory(path: &str, name: &str) -> WalkItem {
    WalkItem::Entry(Entry { path: path.to_string(), name: name.to_string(), is_file: false })
}

fn failure(detail: &str) -> WalkItem {
    WalkItem::Failure(detail.to_string())
}

fn searcher(query: &str) -> FileSearcher {
    FileSearcher::new(query.to_string(), "root".to_string())
}

fn paths(searcher: &FileSearcher) -> Vec<String> {
    searcher.results().iter().map(|result| result.path.clone()).collect()
}

fn sample_walk() -> Vec<WalkItem> {
    vec![
        directory("root", "root"),
        file("root/notes.txt", "notes.txt"),
        directory("root/notes", "notes"),
        file("root/notes/old_notes.md", "old_notes.md"),
        failure("IO error for operation on root/locked: Permission denied (os error 13)"),
        file("root/todo.txt", "todo.txt"),
        file("root/zz/notes", "notes"),
    ]
}

#[test]
fn new_searcher_keeps_query_and_root_and_has_no_results() {
    let searcher = FileSearcher::new("needle".to_string(), "some/root".to_string());
    assert_eq!(searcher.query(), "needle");
    assert_eq!(searcher.root_dir(), "some/root");
    assert!(searcher.results().is_empty());
}

#[test]
fn scan_reports_exactly_the_matching_files() {
    let mut searcher = searcher("notes");
    searcher.scan(&sample_walk(), false);
    assert_eq!(
        paths(&searcher),
        vec!["root/notes.txt", "root/notes/old_notes.md", "root/zz/notes"]
    );
}

#[test]
fn scan_never_reports_a_directory() {
    let mut searcher = searcher("notes");
    searcher.scan(&vec![directory("root/notes", "notes")], false);
    assert!(searcher.results().is_empty());
}

#[test]
fn scan_matches_the_base_name_and_not_the_path() {
    let mut searcher = searcher("root");
    searcher.scan(&sample_walk(), false);
    assert!(searcher.results().is_empty());
}

#[test]
fn scan_with_empty_query_reports_every_file() {
    let mut searcher = searcher("");
    searcher.scan(&sample_walk(), false);
    assert_eq!(
        paths(&searcher),
        vec!["root/notes.txt", "root/notes/old_notes.md", "root/todo.txt", "root/zz/notes"]
    );
}

#[test]
fn scan_of_failures_only_reports_nothing() {
    let mut searcher = searcher("anything");
    let lines = searcher.scan(
        &vec![failure("IO error for operation on nowhere: No such file or directory (os error 2)")],
        false,
    );
    assert!(searcher.results().is_empty());
    assert_eq!(
        lines,
        vec![
            "",
            "[Orion] Searching for files...",
            "[Orion] Error: IO error for operation on nowhere: No such file or directory (os error 2) | Continuing...",
        ]
    );
}

#[test]
fn scan_of_empty_walk_writes_only_the_opening() {
    let mut searcher = searcher("anything");
    let lines = searcher.scan(&Vec::new(), true);
    assert!(searcher.results().is_empty());
    assert_eq!(lines, vec!["", "[Orion] Searching for files..."]);
}

#[test]
fn failure_does_not_hide_later_entries() {
    let mut searcher = searcher("todo");
    searcher.scan(&sample_walk(), false);
    assert_eq!(paths(&searcher), vec!["root/todo.txt"]);
}

#[test]
fn results_keep_walk_order_and_repeat_on_a_second_run() {
    let mut first = searcher(".");
    first.scan(&sample_walk(), false);
    let mut second = searcher(".");
    second.scan(&sample_walk(), true);
    assert_eq!(
        paths(&first),
        vec!["root/notes.txt", "root/notes/old_notes.md", "root/todo.txt"]
    );
    assert_eq!(paths(&first), paths(&second));
}

#[test]
fn file_walked_twice_is_reported_twice() {
    let mut searcher = searcher("a");
    searcher.scan(&vec![file("root/a", "a"), file("root/a", "a")], false);
    assert_eq!(paths(&searcher), vec!["root/a", "root/a"]);
}

#[test]
fn second_scan_appends_to_earlier_results() {
    let mut searcher = searcher("a");
    searcher.scan(&vec![file("one/a", "a")], false);
    searcher.scan(&vec![file("two/b", "b"), file("two/a", "a")], false);
    assert_eq!(paths(&searcher), vec!["one/a", "two/a"]);
}

#[test]
fn quiet_scan_writes_the_opening_and_the_failures() {
    let mut searcher = searcher("notes");
    let lines = searcher.scan(&sample_walk(), false);
    assert_eq!(
        lines,
        vec![
            "",
            "[Orion] Searching for files...",
            "[Orion] Error: IO error for operation on root/locked: Permission denied (os error 13) | Continuing...",
        ]
    );
}

#[test]
fn verbose_scan_writes_every_entry_and_every_match() {
    let mut searcher = searcher("notes");
    let lines = searcher.scan(&sample_walk(), true);
    assert_eq!(
        lines,
        vec![
            "",
            "[Orion] Searching for files...",
            "[VM] Orion Currently processing: root",
            "[VM] Orion Currently processing: root/notes.txt",
            "[Orion] Found match: root/notes.txt",
            "[VM] Orion Currently processing: root/notes",
            "[VM] Orion Currently processing: root/notes/old_notes.md",
            "[Orion] Found match: root/notes/old_notes.md",
            "[Orion] Error: IO error for operation on root/locked: Permission denied (os error 13) | Continuing...",
            "[VM] Orion Currently processing: root/todo.txt",
            "[VM] Orion Currently processing: root/zz/notes",
            "[Orion] Found match: root/zz/notes",
        ]
    );
    assert_eq!(
        paths(&searcher),
        vec!["root/notes.txt", "root/notes/old_notes.md", "root/zz/notes"]
    );
}

#[test]
fn visit_adds_a_matching_file() {
    let mut searcher = searcher("test_file.txt");
    let lines = searcher.visit(&file("root/test_file.txt", "test_file.txt"), false);
    assert!(lines.is_empty());
    assert_eq!(paths(&searcher), vec!["root/test_file.txt"]);
}

#[test]
fn visit_ignores_a_file_that_does_not_match() {
    let mut searcher = searcher("nonexistent");
    let lines = searcher.visit(&file("root/test_file.txt", "test_file.txt"), false);
    assert!(lines.is_empty());
    assert!(searcher.results().is_empty());
}

#[test]
fn visit_in_verbose_mode_writes_the_entry_then_the_match() {
    let mut searcher = searcher("verbose_test_file.txt");
    let lines =
        searcher.visit(&file("root/verbose_test_file.txt", "verbose_test_file.txt"), true);
    assert_eq!(
        lines,
        vec![
            "[VM] Orion Currently processing: root/verbose_test_file.txt",
            "[Orion] Found match: root/verbose_test_file.txt",
        ]
    );
    assert_eq!(paths(&searcher), vec!["root/verbose_test_file.txt"]);
}

#[test]
fn visit_in_verbose_mode_writes_a_directory_without_matching_it() {
    let mut searcher = searcher("sub");
    let lines = searcher.visit(&directory("root/sub", "sub"), true);
    assert_eq!(lines, vec!["[VM] Orion Currently processing: root/sub"]);
    assert!(searcher.results().is_empty());
}

#[test]
fn visit_writes_a_failure_in_either_mode() {
    let mut searcher = searcher("x");
    let quiet = searcher.visit(&failure("denied"), false);
    let verbose = searcher.visit(&failure("denied"), true);
    assert_eq!(quiet, vec!["[Orion] Error: denied | Continuing..."]);
    assert_eq!(quiet, verbose);
    assert!(searcher.results().is_empty());
}
