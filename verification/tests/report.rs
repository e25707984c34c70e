use orion::report::decimal_text;
use orion::session::FileSearcher;
use orion::walk::{Entry, WalkItem};

fn file(path: &str, name: &str) -> WalkItem {
    WalkItem::Entry(Entry { path: path.to_string(), name: name.to_string(), is_file: true })
}

#[test]
fn report_without_results_is_the_single_no_match_line() {
    let searcher = FileSearcher::new("x".to_string(), "root".to_string());
    assert_eq!(searcher.report("1.5ms"), vec!["[Orion] No files found matching the query."]);
    assert_eq!(searcher.display_results(), vec!["[Orion] No files found matching the query."]);
}

#[test]
fn report_with_one_result_lists_count_root_path_and_time() {
    let mut searcher = FileSearcher::new("test_file.txt".to_string(), "/tmp/root".to_string());
    searcher.scan(&vec![file("/tmp/root/test_file.txt", "test_file.txt")], false);
    assert_eq!(
        searcher.report("1.5ms"),
        vec![
            "[Orion] Done!",
            "[Orion] Found 1 file(s) matching the query in /tmp/root:",
            "Orion found: /tmp/root/test_file.txt",
            "[Orion] Search completed.",
            "[Orion] Elapsed time: 1.5ms",
        ]
    );
}

#[test]
fn report_lists_results_in_the_order_found() {
    let mut searcher = FileSearcher::new("".to_string(), "r".to_string());
    let mut walk = Vec::new();
    for name in ["b", "a", "c", "a", "k", "j", "i", "h", "g", "f", "e", "d"] {
        walk.push(file(&format!("r/{}", name), name));
    }
    searcher.scan(&walk, false);
    let lines = searcher.report("2s");
    assert_eq!(lines.len(), 16);
    assert_eq!(lines[0], "[Orion] Done!");
    assert_eq!(lines[1], "[Orion] Found 12 file(s) matching the query in r:");
    assert_eq!(lines[2], "Orion found: r/b");
    assert_eq!(lines[3], "Orion found: r/a");
    assert_eq!(lines[4], "Orion found: r/c");
    assert_eq!(lines[5], "Orion found: r/a");
    assert_eq!(lines[13], "Orion found: r/d");
    assert_eq!(lines[14], "[Orion] Search completed.");
    assert_eq!(lines[15], "[Orion] Elapsed time: 2s");
}

#[test]
fn report_does_not_change_the_search() {
    let mut searcher = FileSearcher::new("a".to_string(), "r".to_string());
    searcher.scan(&vec![file("r/a", "a")], false);
    let first = searcher.report("1s");
    let second = searcher.report("1s");
    assert_eq!(first, second);
    assert_eq!(searcher.results().len(), 1);
    assert_eq!(searcher.query(), "a");
    assert_eq!(searcher.root_dir(), "r");
}

#[test]
fn display_results_with_results_ends_with_the_elapsed_time() {
    let mut searcher = FileSearcher::new("a".to_string(), "r".to_string());
    searcher.scan(&vec![file("r/a", "a")], false);
    let lines = searcher.display_results();
    assert_eq!(lines.len(), 5);
    assert_eq!(lines[0], "[Orion] Done!");
    assert_eq!(lines[1], "[Orion] Found 1 file(s) matching the query in r:");
    assert_eq!(lines[2], "Orion found: r/a");
    assert_eq!(lines[3], "[Orion] Search completed.");
    assert!(lines[4].starts_with("[Orion] Elapsed time: "));
    assert!(lines[4].len() > "[Orion] Elapsed time: ".len());
}

#[test]
fn decimal_text_writes_numbers_as_std_does() {
    assert_eq!(decimal_text(0), "0");
    assert_eq!(decimal_text(7), "7");
    assert_eq!(decimal_text(10), "10");
    assert_eq!(decimal_text(109), "109");
    assert_eq!(decimal_text(1234567890), "1234567890");
    assert_eq!(decimal_text(usize::MAX), usize::MAX.to_string());
}
