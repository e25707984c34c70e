//! One search: its query, its root, the matches found so far and the moment
//! it began.

use crate::report::{
    completed_line, completed_text, count_line, count_text, done_line, done_text, elapsed_line,
    elapsed_text, failure_line, lemma_walk_texts_empty, lemma_walk_texts_push, match_line,
    no_match_line, opening_lines, report_texts, result_line, result_text, search_texts,
    step_texts, visiting_line,
};
use crate::walk::{
    hit_paths, lemma_hit_paths_empty, lemma_hit_paths_push, step_paths, walk, WalkItem,
    WalkItemView,
};
use std::time::Instant;
use vstd::prelude::*;
use vstd::string::*;

verus! {

/// `std::time::Instant`, carried through as an opaque value.
#[verifier::external_type_specification]
#[verifier::external_body]
pub struct ExInstant(std::time::Instant);

/// Reads the clock with `std::time::Instant::now`. Nothing is claimed about the
/// instant that comes back.
#[verifier::external_body]
fn now() -> (instant: Instant) {
    Instant::now()
}

/// Renders the time that has passed since `start`, read with
/// `std::time::Instant::elapsed`, in the `Debug` form of a
/// `std::time::Duration`. Nothing is claimed about the text: it depends on the
/// clock.
#[verifier::external_body]
fn elapsed_since(start: &Instant) -> (text: String) {
    format!("{:?}", start.elapsed())
}

/// One file that matched.
#[derive(Debug, Clone, PartialEq, Eq)]
pub struct SearchResult {
    /// The full path of the file, as the walk gave it.
    pub path: String,
}

impl View for SearchResult {
    type V = Seq<char>;

    open spec fn view(&self) -> Seq<char> {
        self.path@
    }
}

impl DeepView for SearchResult {
    type V = Seq<char>;

    open spec fn deep_view(&self) -> Seq<char> {
        self@
    }
}

/// The state of one search. The query, the root and the starting time are
/// fixed when the search is made; the results only ever grow at the end.
pub struct FileSearcher {
    query: String,
    results: Vec<SearchResult>,
    root_dir: String,
    start_time: Instant,
}

/// The mathematical value of a [`FileSearcher`].
pub struct FileSearcherView {
    /// The text looked for in base names.
    pub query: Seq<char>,
    /// The root the search was made for.
    pub root_dir: Seq<char>,
    /// The paths of the matches, in the order they were found.
    pub results: Seq<Seq<char>>,
    /// When the search was made.
    pub start_time: Instant,
}

impl FileSearcherView {
    /// The search after it has seen `item`: a hit adds its path at the end of
    /// the results, anything else changes nothing.
    pub open spec fn record(self, item: WalkItemView) -> FileSearcherView {
        FileSearcherView { results: self.results + step_paths(item, self.query), ..self }
    }

    /// The search after it has seen the whole walk `items`: the paths of the
    /// hits are added at the end of the results, in walk order.
    pub open spec fn after(self, items: Seq<WalkItemView>) -> FileSearcherView {
        FileSearcherView { results: self.results + hit_paths(items, self.query), ..self }
    }
}

impl View for FileSearcher {
    type V = FileSearcherView;

    closed spec fn view(&self) -> FileSearcherView {
        FileSearcherView {
            query: self.query@,
            root_dir: self.root_dir@,
            results: self.results.deep_view(),
            start_time: self.start_time,
        }
    }
}

impl FileSearcher {
    /// A fresh search for `query` under `root_dir`, with no results yet. The
    /// clock is read once, here.
    pub fn new(query: String, root_dir: String) -> (searcher: FileSearcher)
        ensures
            searcher@.query == query@,
            searcher@.root_dir == root_dir@,
            searcher@.results == Seq::<Seq<char>>::empty(),
    {
        let searcher = FileSearcher { query, results: Vec::new(), root_dir, start_time: now() };
        assert(searcher.results.deep_view() =~= Seq::<Seq<char>>::empty());
        searcher
    }

    /// The text looked for.
    pub fn query(&self) -> (query: &str)
        ensures
            query@ == self@.query,
    {
        self.query.as_str()
    }

    /// The root this search was made for.
    pub fn root_dir(&self) -> (root_dir: &str)
        ensures
            root_dir@ == self@.root_dir,
    {
        self.root_dir.as_str()
    }

    /// The matches found so far, oldest first.
    pub fn results(&self) -> (results: &Vec<SearchResult>)
        ensures
            results.deep_view() == self@.results,
    {
        &self.results
    }

    /// Takes one item of a walk. A regular file whose base name contains the
    /// query is added at the end of the results; nothing else ever changes.
    /// Returns the lines to write for the item, which depend on `verbose`
    /// while the results do not.
    pub fn visit(&mut self, item: &WalkItem, verbose: bool) -> (lines: Vec<String>)
        ensures
            final(self)@ == old(self)@.record(item@),
            lines.deep_view() == step_texts(item@, old(self)@.query, verbose),
    {
        let mut lines: Vec<String> = Vec::new();
        match item {
            WalkItem::Failure(detail) => {
                lines.push(failure_line(detail.as_str()));
            },
            WalkItem::Entry(entry) => {
                if verbose {
                    lines.push(visiting_line(entry.path.as_str()));
                }
                if entry.is_file && crate::matching::matches(entry.name.as_str(), self.query.as_str()) {
                    self.results.push(SearchResult { path: entry.path.clone() });
                    if verbose {
                        lines.push(match_line(entry.path.as_str()));
                    }
                }
            },
        }
        assert(self@.results =~= old(self)@.results + step_paths(item@, old(self)@.query));
        assert(lines.deep_view() =~= step_texts(item@, old(self)@.query, verbose));
        lines
    }

    /// Runs the search over a walk that was already made: writes the opening
    /// lines, then takes every item in order. The paths of the hits are added
    /// at the end of the results in walk order, one for each hit, whatever
    /// else the walk holds and whatever `verbose` is.
    pub fn scan(&mut self, items: &Vec<WalkItem>, verbose: bool) -> (lines: Vec<String>)
        ensures
            final(self)@ == old(self)@.after(items.deep_view()),
            lines.deep_view() == search_texts(items.deep_view(), old(self)@.query, verbose),
    {
        let mut lines = opening_lines();
        let ghost walked = items.deep_view();
        proof {
            lemma_hit_paths_empty(self@.query);
            lemma_walk_texts_empty(self@.query, verbose);
            assert(walked.take(0) =~= Seq::<WalkItemView>::empty());
            assert(self@.results =~= old(self)@.results + hit_paths(walked.take(0), self@.query));
        }
        let mut i: usize = 0;
        while i < items.len()
            invariant
                i <= items.len(),
                walked == items.deep_view(),
                self@ == old(self)@.after(walked.take(i as int)),
                lines.deep_view() == search_texts(walked.take(i as int), old(self)@.query, verbose),
            decreases items.len() - i,
        {
            let ghost before = lines.deep_view();
            let mut step = self.visit(&items[i], verbose);
            let ghost added = step.deep_view();
            lines.append(&mut step);
            proof {
                let seen = walked.take(i as int);
                assert(walked.take(i + 1) =~= seen.push(items[i as int]@));
                lemma_hit_paths_push(seen, items[i as int]@, old(self)@.query);
                lemma_walk_texts_push(seen, items[i as int]@, old(self)@.query, verbose);
                assert(lines.deep_view() =~= before + added);
                assert(self@.results =~= old(self)@.results + hit_paths(
                    walked.take(i + 1),
                    old(self)@.query,
                ));
            }
            i += 1;
        }
        assert(walked.take(items.len() as int) =~= walked);
        lines
    }

    /// Walks the tree under `root_dir` and runs the search over what the walk
    /// yields. What is found depends on the file system, so the contract says
    /// what holds of every walk: the results and the lines are those that
    /// [`FileSearcher::scan`] gives for it.
    pub fn search(&mut self, root_dir: &str, verbose: bool) -> (lines: Vec<String>)
        ensures
            exists|items: Seq<WalkItemView>|
                final(self)@ == #[trigger] old(self)@.after(items) && lines.deep_view()
                    == search_texts(items, old(self)@.query, verbose),
            final(self)@.query == old(self)@.query,
            final(self)@.root_dir == old(self)@.root_dir,
            final(self)@.start_time == old(self)@.start_time,
            old(self)@.results.is_prefix_of(final(self)@.results),
    {
        let items = walk(root_dir);
        let lines = self.scan(&items, verbose);
        assert(self@ == old(self)@.after(items.deep_view()));
        lines
    }

    /// The report of this search, given the rendered time it took. Without
    /// results it is the single no-match line; with results it gives their
    /// number and the root, each path in the order found, and the time last.
    pub fn report(&self, elapsed: &str) -> (lines: Vec<String>)
        ensures
            lines.deep_view() == report_texts(self@.root_dir, self@.results, elapsed@),
    {
        let mut lines: Vec<String> = Vec::new();
        if self.results.len() == 0 {
            lines.push(no_match_line());
            assert(lines.deep_view() =~= report_texts(self@.root_dir, self@.results, elapsed@));
            return lines;
        }
        lines.push(done_line());
        lines.push(count_line(self.results.len(), self.root_dir.as_str()));
        let ghost paths = self@.results;
        let ghost head = seq![done_text(), count_text(paths.len(), self@.root_dir)];
        assert(lines.deep_view() =~= head);
        let mut i: usize = 0;
        while i < self.results.len()
            invariant
                i <= self.results.len(),
                paths == self.results.deep_view(),
                lines.deep_view() == head + paths.take(i as int).map_values(
                    |path: Seq<char>| result_text(path),
                ),
            decreases self.results.len() - i,
        {
            let ghost before = lines.deep_view();
            let line = result_line(self.results[i].path.as_str());
            assert(line@ == result_text(paths[i as int]));
            lines.push(line);
            proof {
                assert(lines.deep_view() =~= before.push(result_text(paths[i as int])));
                assert(paths.take(i + 1) =~= paths.take(i as int).push(paths[i as int]));
                assert(paths.take(i + 1).map_values(|path: Seq<char>| result_text(path))
                    =~= paths.take(i as int).map_values(|path: Seq<char>| result_text(path)).push(
                    result_text(paths[i as int]),
                ));
            }
            i += 1;
        }
        assert(paths.take(self.results.len() as int) =~= paths);
        let ghost listed = lines.deep_view();
        lines.push(completed_line());
        lines.push(elapsed_line(elapsed));
        assert(lines.deep_view() =~= listed + seq![completed_text(), elapsed_text(elapsed@)]);
        lines
    }

    /// The report of this search as it stands now. The time since the search
    /// was made is read from the clock, and only if there are results.
    pub fn display_results(&self) -> (lines: Vec<String>)
        ensures
            exists|elapsed: Seq<char>|
                lines.deep_view() == #[trigger] report_texts(
                    self@.root_dir,
                    self@.results,
                    elapsed,
                ),
    {
        if self.results.len() == 0 {
            self.report("")
        } else {
            let elapsed = elapsed_since(&self.start_time);
            self.report(elapsed.as_str())
        }
    }
}

/// Taking a walk item by item gives what taking it whole gives: a search that
/// has seen `items` and then sees `item` stands where a search stands that has
/// seen the walk made of both.
pub proof fn lemma_after_then_record(
    search: FileSearcherView,
    items: Seq<WalkItemView>,
    item: WalkItemView,
)
    ensures
        search.after(items).record(item) == search.after(items.push(item)),
        search.after(Seq::empty()) == search,
{
    lemma_hit_paths_push(items, item, search.query);
    lemma_hit_paths_empty(search.query);
    assert(search.after(items).record(item).results =~= search.after(items.push(item)).results);
    assert(search.after(Seq::empty()).results =~= search.results);
}

/// A search only ever adds at the end: what was found before a walk is still
/// there after it, in the same places, and the query, the root and the
/// starting time are as they were.
pub proof fn lemma_results_only_grow(search: FileSearcherView, items: Seq<WalkItemView>)
    ensures
        search.results.is_prefix_of(search.after(items).results),
        search.after(items).results.len() == search.results.len() + hit_paths(
            items,
            search.query,
        ).len(),
        search.after(items).query == search.query,
        search.after(items).root_dir == search.root_dir,
        search.after(items).start_time == search.start_time,
{
}

/// Searching the same walk again gives the same results in the same order:
/// two searches for one query that start from the same results and see the
/// same walk end with the same results, whether or not they were made at the
/// same time, for the same root, or run in the same mode.
pub proof fn lemma_same_walk_same_results(
    first: FileSearcherView,
    second: FileSearcherView,
    items: Seq<WalkItemView>,
)
    requires
        first.query == second.query,
        first.results == second.results,
    ensures
        first.after(items).results == second.after(items).results,
{
}

} // verus!
