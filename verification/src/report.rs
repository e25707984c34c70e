//! The text of every line a search writes: while it walks, and when it reports.

use crate::walk::{is_hit, WalkItemView};
use vstd::prelude::*;
use vstd::string::*;

verus! {

/// The decimal digit for `d`, for `d` below ten.
pub open spec fn digit(d: nat) -> char {
    if d == 0 {
        '0'
    } else if d == 1 {
        '1'
    } else if d == 2 {
        '2'
    } else if d == 3 {
        '3'
    } else if d == 4 {
        '4'
    } else if d == 5 {
        '5'
    } else if d == 6 {
        '6'
    } else if d == 7 {
        '7'
    } else if d == 8 {
        '8'
    } else {
        '9'
    }
}

/// `n` written in base ten, without sign, padding or leading zeros.
pub open spec fn decimal(n: nat) -> Seq<char>
    decreases n,
{
    if n < 10 {
        seq![digit(n)]
    } else {
        decimal(n / 10).push(digit(n % 10))
    }
}

/// The two lines that open a search: a blank one, then the notice.
pub open spec fn opening_texts() -> Seq<Seq<char>> {
    seq![Seq::empty(), "[Orion] Searching for files..."@]
}

/// Verbose mode: the entry at `path` is being looked at.
pub open spec fn visiting_text(path: Seq<char>) -> Seq<char> {
    "[VM] Orion Currently processing: "@ + path
}

/// Verbose mode: the file at `path` matched.
pub open spec fn match_text(path: Seq<char>) -> Seq<char> {
    "[Orion] Found match: "@ + path
}

/// An entry could not be read; the walk goes on.
pub open spec fn failure_text(detail: Seq<char>) -> Seq<char> {
    "[Orion] Error: "@ + detail + " | Continuing..."@
}

/// The whole report of a search that found nothing.
pub open spec fn no_match_text() -> Seq<char> {
    "[Orion] No files found matching the query."@
}

/// First line of the report of a search that found something.
pub open spec fn done_text() -> Seq<char> {
    "[Orion] Done!"@
}

/// How many files matched, and under which root.
pub open spec fn count_text(count: nat, root_dir: Seq<char>) -> Seq<char> {
    "[Orion] Found "@ + decimal(count) + " file(s) matching the query in "@ + root_dir + ":"@
}

/// One reported path.
pub open spec fn result_text(path: Seq<char>) -> Seq<char> {
    "Orion found: "@ + path
}

/// Closes the list of reported paths.
pub open spec fn completed_text() -> Seq<char> {
    "[Orion] Search completed."@
}

/// The time the search took, as already rendered in `elapsed`.
pub open spec fn elapsed_text(elapsed: Seq<char>) -> Seq<char> {
    "[Orion] Elapsed time: "@ + elapsed
}

/// The lines one walk item gives rise to. A failure is always written. An
/// entry is written in verbose mode only: first that it is visited, whether it
/// is a file or a directory, then, if it is a hit, that it matched.
pub open spec fn step_texts(item: WalkItemView, query: Seq<char>, verbose: bool) -> Seq<Seq<char>> {
    match item {
        WalkItemView::Failure(detail) => seq![failure_text(detail)],
        WalkItemView::Entry(entry) => if !verbose {
            Seq::empty()
        } else if is_hit(item, query) {
            seq![visiting_text(entry.path), match_text(entry.path)]
        } else {
            seq![visiting_text(entry.path)]
        },
    }
}

/// The lines of a whole walk: those of its items, one item after the other.
pub open spec fn walk_texts(items: Seq<WalkItemView>, query: Seq<char>, verbose: bool) -> Seq<
    Seq<char>,
> {
    items.map_values(|item: WalkItemView| step_texts(item, query, verbose)).flatten()
}

/// Everything a search over the walk `items` writes before its report.
pub open spec fn search_texts(items: Seq<WalkItemView>, query: Seq<char>, verbose: bool) -> Seq<
    Seq<char>,
> {
    opening_texts() + walk_texts(items, query, verbose)
}

/// The report on `results`, found under `root_dir`, after a search that took
/// `elapsed`. Without results it is the single no-match line and `elapsed`
/// plays no part; with results it gives their number, each path in order, and
/// the elapsed time last.
pub open spec fn report_texts(root_dir: Seq<char>, results: Seq<Seq<char>>, elapsed: Seq<char>) -> Seq<
    Seq<char>,
> {
    if results.len() == 0 {
        seq![no_match_text()]
    } else {
        seq![done_text(), count_text(results.len(), root_dir)] + results.map_values(
            |path: Seq<char>| result_text(path),
        ) + seq![completed_text(), elapsed_text(elapsed)]
    }
}

/// Walking one more item appends exactly that item's lines.
pub proof fn lemma_walk_texts_push(
    items: Seq<WalkItemView>,
    item: WalkItemView,
    query: Seq<char>,
    verbose: bool,
)
    ensures
        walk_texts(items.push(item), query, verbose) == walk_texts(items, query, verbose)
            + step_texts(item, query, verbose),
{
    let f = |item: WalkItemView| step_texts(item, query, verbose);
    assert(items.push(item).map_values(f) =~= items.map_values(f).push(f(item)));
    items.map_values(f).lemma_flatten_push(f(item));
}

/// The empty walk writes nothing.
pub proof fn lemma_walk_texts_empty(query: Seq<char>, verbose: bool)
    ensures
        walk_texts(Seq::empty(), query, verbose) == Seq::<Seq<char>>::empty(),
{
    let f = |item: WalkItemView| step_texts(item, query, verbose);
    assert(Seq::<WalkItemView>::empty().map_values(f) =~= Seq::<Seq<Seq<char>>>::empty());
}

/// The one-character text of a digit.
fn digit_str(d: usize) -> (text: &'static str)
    requires
        d < 10,
    ensures
        text@ == seq![digit(d as nat)],
{
    proof {
        reveal_strlit("0");
        reveal_strlit("1");
        reveal_strlit("2");
        reveal_strlit("3");
        reveal_strlit("4");
        reveal_strlit("5");
        reveal_strlit("6");
        reveal_strlit("7");
        reveal_strlit("8");
        reveal_strlit("9");
    }
    let text = if d == 0 {
        "0"
    } else if d == 1 {
        "1"
    } else if d == 2 {
        "2"
    } else if d == 3 {
        "3"
    } else if d == 4 {
        "4"
    } else if d == 5 {
        "5"
    } else if d == 6 {
        "6"
    } else if d == 7 {
        "7"
    } else if d == 8 {
        "8"
    } else {
        "9"
    };
    assert(text@ =~= seq![digit(d as nat)]);
    text
}

/// Writes `n` in base ten.
pub fn decimal_text(n: usize) -> (text: String)
    ensures
        text@ == decimal(n as nat),
    decreases n,
{
    if n < 10 {
        String::from_str(digit_str(n))
    } else {
        let mut text = decimal_text(n / 10);
        text.append(digit_str(n % 10));
        assert(text@ =~= decimal(n as nat));
        text
    }
}

/// The two texts joined.
fn join(head: &str, tail: &str) -> (line: String)
    ensures
        line@ == head@ + tail@,
{
    let mut line = String::from_str(head);
    line.append(tail);
    line
}

pub(crate) fn opening_lines() -> (lines: Vec<String>)
    ensures
        lines.deep_view() == opening_texts(),
{
    let mut lines: Vec<String> = Vec::new();
    lines.push(String::new());
    lines.push(String::from_str("[Orion] Searching for files..."));
    assert(lines.deep_view() =~= opening_texts());
    lines
}

pub(crate) fn visiting_line(path: &str) -> (line: String)
    ensures
        line@ == visiting_text(path@),
{
    join("[VM] Orion Currently processing: ", path)
}

pub(crate) fn match_line(path: &str) -> (line: String)
    ensures
        line@ == match_text(path@),
{
    join("[Orion] Found match: ", path)
}

pub(crate) fn failure_line(detail: &str) -> (line: String)
    ensures
        line@ == failure_text(detail@),
{
    let mut line = join("[Orion] Error: ", detail);
    line.append(" | Continuing...");
    line
}

pub(crate) fn no_match_line() -> (line: String)
    ensures
        line@ == no_match_text(),
{
    String::from_str("[Orion] No files found matching the query.")
}

pub(crate) fn done_line() -> (line: String)
    ensures
        line@ == done_text(),
{
    String::from_str("[Orion] Done!")
}

pub(crate) fn count_line(count: usize, root_dir: &str) -> (line: String)
    ensures
        line@ == count_text(count as nat, root_dir@),
{
    let number = decimal_text(count);
    let mut line = join("[Orion] Found ", number.as_str());
    line.append(" file(s) matching the query in ");
    line.append(root_dir);
    line.append(":");
    line
}

pub(crate) fn result_line(path: &str) -> (line: String)
    ensures
        line@ == result_text(path@),
{
    join("Orion found: ", path)
}

pub(crate) fn completed_line() -> (line: String)
    ensures
        line@ == completed_text(),
{
    String::from_str("[Orion] Search completed.")
}

pub(crate) fn elapsed_line(elapsed: &str) -> (line: String)
    ensures
        line@ == elapsed_text(elapsed@),
{
    join("[Orion] Elapsed time: ", elapsed)
}

} // verus!
