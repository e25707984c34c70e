//! Case-sensitive substring matching of a query against a file's base name.

use vstd::prelude::*;

verus! {

/// `needle` stands in `hay` as one contiguous run that begins at index `at`.
pub open spec fn occurs_at(hay: Seq<char>, needle: Seq<char>, at: int) -> bool {
    &&& 0 <= at
    &&& at + needle.len() <= hay.len()
    &&& hay.subrange(at, at + needle.len()) == needle
}

/// `needle` is a contiguous substring of `hay`: exact character containment,
/// with no case folding, normalisation or wildcards.
pub open spec fn contains_text(hay: Seq<char>, needle: Seq<char>) -> bool {
    exists|at: int| occurs_at(hay, needle, at)
}

/// The characters of `text`, in order.
pub(crate) fn chars_of(text: &str) -> (chars: Vec<char>)
    ensures
        chars@ == text@,
{
    let mut chars: Vec<char> = Vec::new();
    for c in it: text.chars()
        invariant
            chars@ == it.seq().take(it.index()),
            it.seq() == text@,
    {
        chars.push(c);
    }
    chars
}

/// Whether `needle` occurs in `hay` at index `at`.
fn starts_at(hay: &Vec<char>, needle: &Vec<char>, at: usize) -> (yes: bool)
    requires
        at + needle.len() <= hay.len(),
    ensures
        yes == occurs_at(hay@, needle@, at as int),
{
    let mut k: usize = 0;
    while k < needle.len()
        invariant
            k <= needle.len(),
            at + needle.len() <= hay.len(),
            forall|j: int| 0 <= j < k ==> hay@[at + j] == needle@[j],
        decreases needle.len() - k,
    {
        if hay[at + k] != needle[k] {
            assert(hay@.subrange(at as int, at + needle.len())[k as int] != needle@[k as int]);
            return false;
        }
        k += 1;
    }
    assert(hay@.subrange(at as int, at + needle.len()) =~= needle@);
    true
}

/// Whether `needle` occurs anywhere in `hay`, tried position by position from the left.
fn occurs_in(hay: &Vec<char>, needle: &Vec<char>) -> (hit: bool)
    ensures
        hit == contains_text(hay@, needle@),
{
    if needle.len() > hay.len() {
        return false;
    }
    let last: usize = hay.len() - needle.len();
    let mut at: usize = 0;
    loop
        invariant
            at <= last,
            last + needle.len() == hay.len(),
            forall|i: int| 0 <= i < at ==> !occurs_at(hay@, needle@, i),
        decreases last - at,
    {
        if starts_at(hay, needle, at) {
            return true;
        }
        if at == last {
            return false;
        }
        at += 1;
    }
}

/// Decides whether a file is reported: true exactly when `query` occurs in
/// `base_name` as a contiguous substring, compared character by character.
/// An empty `query` occurs in every name.
pub fn matches(base_name: &str, query: &str) -> (hit: bool)
    ensures
        hit == contains_text(base_name@, query@),
{
    let hay = chars_of(base_name);
    let needle = chars_of(query);
    occurs_in(&hay, &needle)
}

/// The empty query is contained in every name, so it selects every file.
pub proof fn lemma_empty_query_matches(name: Seq<char>)
    ensures
        contains_text(name, Seq::<char>::empty()),
{
    assert(name.subrange(0, 0) =~= Seq::<char>::empty());
    assert(occurs_at(name, Seq::<char>::empty(), 0));
}

/// Every name contains itself.
pub proof fn lemma_name_matches_itself(name: Seq<char>)
    ensures
        contains_text(name, name),
{
    assert(name.subrange(0, name.len() as int) =~= name);
    assert(occurs_at(name, name, 0));
}

} // verus!
