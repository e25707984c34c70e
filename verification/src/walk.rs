//! What a directory walk yields, and which of it a query selects.

use crate::matching::{contains_text, lemma_empty_query_matches};
use vstd::prelude::*;

verus! {

/// One node met during a walk: a file, a directory or anything else the file
/// system holds.
#[derive(Debug, Clone, PartialEq, Eq)]
pub struct Entry {
    /// The full path of the node, starting with the root the walk was given.
    pub path: String,
    /// The base name of the node: the last component of its path.
    pub name: String,
    /// Whether the node is a regular file.
    pub is_file: bool,
}

/// The mathematical value of an [`Entry`].
pub struct EntryView {
    pub path: Seq<char>,
    pub name: Seq<char>,
    pub is_file: bool,
}

impl View for Entry {
    type V = EntryView;

    open spec fn view(&self) -> EntryView {
        EntryView { path: self.path@, name: self.name@, is_file: self.is_file }
    }
}

impl DeepView for Entry {
    type V = EntryView;

    open spec fn deep_view(&self) -> EntryView {
        self@
    }
}

/// One step of a walk: either a node that was reached, or the reason why one
/// could not be read. A failure never ends a walk.
#[derive(Debug, Clone, PartialEq, Eq)]
pub enum WalkItem {
    Entry(Entry),
    Failure(String),
}

/// The mathematical value of a [`WalkItem`].
pub enum WalkItemView {
    Entry(EntryView),
    Failure(Seq<char>),
}

impl View for WalkItem {
    type V = WalkItemView;

    open spec fn view(&self) -> WalkItemView {
        match self {
            WalkItem::Entry(entry) => WalkItemView::Entry(entry@),
            WalkItem::Failure(detail) => WalkItemView::Failure(detail@),
        }
    }
}

impl DeepView for WalkItem {
    type V = WalkItemView;

    open spec fn deep_view(&self) -> WalkItemView {
        self@
    }
}

/// Walks the tree under `root` with `walkdir::WalkDir::new(root)` in its default
/// settings, to the end, and hands out what its iterator yields, one item for
/// each and in the iterator's order. A `walkdir::DirEntry` comes as its `path`
/// as displayed, its `file_name` as text (what is not Unicode in either is
/// replaced), and whether its `file_type` is a regular file; a
/// `walkdir::Error` comes as its message. Nothing is claimed about the items:
/// they depend on what the file system holds.
#[verifier::external_body]
pub(crate) fn walk(root: &str) -> (items: Vec<WalkItem>) {
    let mut items = Vec::new();
    for step in walkdir::WalkDir::new(root) {
        items.push(match step {
            Ok(found) => WalkItem::Entry(Entry {
                path: found.path().display().to_string(),
                name: found.file_name().to_string_lossy().to_string(),
                is_file: found.file_type().is_file(),
            }),
            Err(error) => WalkItem::Failure(error.to_string()),
        });
    }
    items
}

/// The item is a regular file.
pub open spec fn is_file(item: WalkItemView) -> bool {
    item matches WalkItemView::Entry(entry) && entry.is_file
}

/// The item is a regular file whose base name contains `query`. Directories
/// and failures are never hits, whatever their text.
pub open spec fn is_hit(item: WalkItemView, query: Seq<char>) -> bool {
    item matches WalkItemView::Entry(entry) && entry.is_file && contains_text(entry.name, query)
}

/// The path an item carries; the empty text for a failure.
pub open spec fn path_of(item: WalkItemView) -> Seq<char> {
    match item {
        WalkItemView::Entry(entry) => entry.path,
        WalkItemView::Failure(_) => Seq::empty(),
    }
}

/// The regular files of a walk, in the order of the walk.
pub open spec fn files(items: Seq<WalkItemView>) -> Seq<WalkItemView> {
    items.filter(|item: WalkItemView| is_file(item))
}

/// The hits of a walk for `query`, in the order of the walk.
pub open spec fn hits(items: Seq<WalkItemView>, query: Seq<char>) -> Seq<WalkItemView> {
    items.filter(|item: WalkItemView| is_hit(item, query))
}

/// The paths of the given items, one for each and in their order.
pub open spec fn paths_of(items: Seq<WalkItemView>) -> Seq<Seq<char>> {
    items.map_values(|item: WalkItemView| path_of(item))
}

/// The paths a search for `query` reports over the walk `items`: those of the
/// hits, one for each, in the order of the walk.
pub open spec fn hit_paths(items: Seq<WalkItemView>, query: Seq<char>) -> Seq<Seq<char>> {
    paths_of(hits(items, query))
}

/// What one item adds to the reported paths: its path if it is a hit, nothing
/// otherwise.
pub open spec fn step_paths(item: WalkItemView, query: Seq<char>) -> Seq<Seq<char>> {
    if is_hit(item, query) {
        seq![path_of(item)]
    } else {
        Seq::empty()
    }
}

/// Walking one more item adds exactly that item's share to the reported paths.
pub proof fn lemma_hit_paths_push(items: Seq<WalkItemView>, item: WalkItemView, query: Seq<char>)
    ensures
        hit_paths(items.push(item), query) == hit_paths(items, query) + step_paths(item, query),
{
    let pred = |item: WalkItemView| is_hit(item, query);
    reveal(Seq::filter);
    assert(items.push(item).drop_last() =~= items);
    assert(items.push(item).last() == item);
    assert(hit_paths(items.push(item), query) =~= hit_paths(items, query) + step_paths(
        item,
        query,
    ));
}

/// The empty walk reports nothing.
pub proof fn lemma_hit_paths_empty(query: Seq<char>)
    ensures
        hit_paths(Seq::empty(), query) == Seq::<Seq<char>>::empty(),
{
    reveal(Seq::filter);
    assert(hit_paths(Seq::empty(), query) =~= Seq::<Seq<char>>::empty());
}

/// A walk made of two parts reports what the first part gives, then what the
/// second part gives: no item changes what another one contributes.
pub proof fn lemma_hit_paths_concat(
    first: Seq<WalkItemView>,
    second: Seq<WalkItemView>,
    query: Seq<char>,
)
    ensures
        hit_paths(first + second, query) == hit_paths(first, query) + hit_paths(second, query),
{
    let pred = |item: WalkItemView| is_hit(item, query);
    Seq::filter_distributes_over_add(first, second, pred);
    assert(hit_paths(first + second, query) =~= hit_paths(first, query) + hit_paths(
        second,
        query,
    ));
}

/// A search reports exactly the matching files: as many paths as the walk has
/// regular files whose base name contains the query, the k-th path being that
/// of the k-th such file. Taking any other item out of the walk, be it a file
/// that does not match, a directory or a failure, leaves the report as it is.
pub proof fn lemma_reports_exactly_the_matching_files(items: Seq<WalkItemView>, query: Seq<char>)
    ensures
        hit_paths(items, query).len() == hits(items, query).len(),
        forall|k: int|
            0 <= k < hits(items, query).len() ==> {
                let hit = #[trigger] hits(items, query)[k];
                &&& is_hit(hit, query)
                &&& items.contains(hit)
                &&& hit_paths(items, query)[k] == path_of(hit)
            },
        forall|i: int|
            0 <= i < items.len() && !is_hit(items[i], query) ==> #[trigger] hit_paths(
                items.remove(i),
                query,
            ) == hit_paths(items, query),
{
    let pred = |item: WalkItemView| is_hit(item, query);
    assert forall|k: int| 0 <= k < hits(items, query).len() implies {
        let hit = #[trigger] hits(items, query)[k];
        &&& is_hit(hit, query)
        &&& items.contains(hit)
        &&& hit_paths(items, query)[k] == path_of(hit)
    } by {
        let hit = hits(items, query)[k];
        items.lemma_filter_pred(pred, k);
        assert(hits(items, query).contains(hit));
        items.lemma_filter_contains_rev(pred, hit);
    }
    assert forall|i: int| 0 <= i < items.len() && !is_hit(items[i], query) implies #[trigger] hit_paths(
        items.remove(i),
        query,
    ) == hit_paths(items, query) by {
        lemma_skipping_a_miss(items, i, query);
    }
}

/// Taking an item that is no hit out of the walk leaves the report as it is.
proof fn lemma_skipping_a_miss(items: Seq<WalkItemView>, i: int, query: Seq<char>)
    requires
        0 <= i < items.len(),
        !is_hit(items[i], query),
    ensures
        hit_paths(items.remove(i), query) == hit_paths(items, query),
{
    let head = items.take(i);
    let tail = items.skip(i + 1);
    assert(items =~= head.push(items[i]) + tail);
    assert(items.remove(i) =~= head + tail);
    lemma_hit_paths_push(head, items[i], query);
    lemma_hit_paths_concat(head.push(items[i]), tail, query);
    lemma_hit_paths_concat(head, tail, query);
    assert(hit_paths(head, query) + step_paths(items[i], query) =~= hit_paths(head, query));
}

/// With the empty query every regular file is a hit.
proof fn lemma_empty_query_hits_are_the_files(items: Seq<WalkItemView>)
    ensures
        hits(items, Seq::empty()) == files(items),
    decreases items.len(),
{
    reveal(Seq::filter);
    if items.len() > 0 {
        lemma_empty_query_hits_are_the_files(items.drop_last());
        match items.last() {
            WalkItemView::Entry(entry) => lemma_empty_query_matches(entry.name),
            WalkItemView::Failure(_) => {},
        }
    }
}

/// With the empty query every regular file is reported: the paths of all the
/// files of the walk, in walk order.
pub proof fn lemma_empty_query_reports_every_file(items: Seq<WalkItemView>)
    ensures
        hit_paths(items, Seq::empty()) == paths_of(files(items)),
{
    lemma_empty_query_hits_are_the_files(items);
}

/// A walk that meets no regular file reports nothing, whatever the query. Such
/// is the walk of a root that does not exist, which holds failures only.
pub proof fn lemma_walk_without_files_reports_nothing(items: Seq<WalkItemView>, query: Seq<char>)
    requires
        forall|i: int| 0 <= i < items.len() ==> !is_file(#[trigger] items[i]),
    ensures
        hit_paths(items, query) == Seq::<Seq<char>>::empty(),
{
    let pred = |item: WalkItemView| is_hit(item, query);
    items.lemma_all_neg_filter_empty(pred);
    assert(hit_paths(items, query) =~= Seq::<Seq<char>>::empty());
}

/// A failure in the middle of a walk hides nothing: everything walked before
/// it and everything walked after it is reported as if the failure had not
/// been met.
pub proof fn lemma_failure_hides_nothing(
    before: Seq<WalkItemView>,
    detail: Seq<char>,
    after: Seq<WalkItemView>,
    query: Seq<char>,
)
    ensures
        hit_paths(before.push(WalkItemView::Failure(detail)) + after, query) == hit_paths(
            before,
            query,
        ) + hit_paths(after, query),
        hit_paths(before.push(WalkItemView::Failure(detail)) + after, query) == hit_paths(
            before + after,
            query,
        ),
{
    let failure = WalkItemView::Failure(detail);
    lemma_hit_paths_push(before, failure, query);
    lemma_hit_paths_concat(before.push(failure), after, query);
    lemma_hit_paths_concat(before, after, query);
    assert(hit_paths(before, query) + step_paths(failure, query) =~= hit_paths(before, query));
}

/// Results come in walk order: of two hits, the one walked first is reported
/// first.
pub proof fn lemma_results_keep_walk_order(
    items: Seq<WalkItemView>,
    query: Seq<char>,
    i: int,
    j: int,
)
    requires
        0 <= i < j < items.len(),
        is_hit(items[i], query),
        is_hit(items[j], query),
    ensures
        exists|a: int, b: int|
            0 <= a < b < hit_paths(items, query).len() && #[trigger] hit_paths(items, query)[a]
                == path_of(items[i]) && #[trigger] hit_paths(items, query)[b] == path_of(
                items[j],
            ),
{
    let upto_i = items.take(i);
    let between = items.subrange(i + 1, j);
    let rest = items.skip(j + 1);
    let upto_j = upto_i.push(items[i]) + between;
    assert(items =~= upto_j.push(items[j]) + rest);
    lemma_hit_paths_push(upto_i, items[i], query);
    lemma_hit_paths_concat(upto_i.push(items[i]), between, query);
    lemma_hit_paths_push(upto_j, items[j], query);
    lemma_hit_paths_concat(upto_j.push(items[j]), rest, query);
    let a = hit_paths(upto_i, query).len() as int;
    let b = hit_paths(upto_j, query).len() as int;
    let all = hit_paths(items, query);
    assert(all =~= hit_paths(upto_i, query) + seq![path_of(items[i])] + hit_paths(between, query)
        + seq![path_of(items[j])] + hit_paths(rest, query));
    assert(all[a] == path_of(items[i]));
    assert(all[b] == path_of(items[j]));
}

} // verus!
