//! Stripping the white space around a line of input.

use crate::matching::chars_of;
use vstd::prelude::*;
use vstd::string::*;

verus! {

/// The character is white space: one of the code points that Unicode gives the
/// property `White_Space`, among them the blank, the tab and the line
/// terminators.
pub open spec fn is_space(c: char) -> bool {
    let code = c as u32;
    ||| 0x09 <= code <= 0x0d
    ||| code == 0x20
    ||| code == 0x85
    ||| code == 0xa0
    ||| code == 0x1680
    ||| 0x2000 <= code <= 0x200a
    ||| code == 0x2028
    ||| code == 0x2029
    ||| code == 0x202f
    ||| code == 0x205f
    ||| code == 0x3000
}

/// Every character of the text is white space.
pub open spec fn all_space(text: Seq<char>) -> bool {
    forall|i: int| 0 <= i < text.len() ==> is_space(#[trigger] text[i])
}

/// The text without the white space at its beginning and at its end. White
/// space inside the text stays.
pub open spec fn trimmed(text: Seq<char>) -> Seq<char>
    decreases text.len(),
{
    if text.len() > 0 && is_space(text.first()) {
        trimmed(text.drop_first())
    } else if text.len() > 0 && is_space(text.last()) {
        trimmed(text.drop_last())
    } else {
        text
    }
}

/// White space at the beginning does not count.
proof fn lemma_trimmed_skips_leading(text: Seq<char>, from: int)
    requires
        0 <= from <= text.len(),
        all_space(text.take(from)),
    ensures
        trimmed(text) == trimmed(text.skip(from)),
    decreases from,
{
    if from == 0 {
        assert(text.skip(0) =~= text);
    } else {
        assert(text.take(from)[0] == text[0]);
        let rest = text.drop_first();
        assert forall|i: int| 0 <= i < from - 1 implies is_space(
            #[trigger] rest.take(from - 1)[i],
        ) by {
            assert(text.take(from)[i + 1] == rest.take(from - 1)[i]);
        }
        lemma_trimmed_skips_leading(rest, from - 1);
        assert(rest.skip(from - 1) =~= text.skip(from));
    }
}

/// White space at the end does not count, once none is left at the beginning.
proof fn lemma_trimmed_drops_trailing(text: Seq<char>, to: int)
    requires
        0 <= to <= text.len(),
        all_space(text.skip(to)),
        text.len() > 0 ==> !is_space(text.first()),
    ensures
        trimmed(text) == trimmed(text.take(to)),
    decreases text.len() - to,
{
    if to == text.len() {
        assert(text.take(to) =~= text);
    } else {
        assert(text.skip(to)[text.len() - to - 1] == text.last());
        let rest = text.drop_last();
        assert forall|i: int| 0 <= i < rest.len() - to implies is_space(
            #[trigger] rest.skip(to)[i],
        ) by {
            assert(text.skip(to)[i] == rest.skip(to)[i]);
        }
        if rest.len() > 0 {
            assert(rest.first() == text.first());
        }
        lemma_trimmed_drops_trailing(rest, to);
        assert(rest.take(to) =~= text.take(to));
    }
}

/// The piece of `text` from index `from` up to index `to` is what trimming
/// gives, and nothing but white space stands before it and after it.
pub open spec fn is_core(text: Seq<char>, from: int, to: int) -> bool {
    &&& 0 <= from <= to <= text.len()
    &&& text.subrange(from, to) == trimmed(text)
    &&& all_space(text.take(from))
    &&& all_space(text.skip(to))
}

/// What trimming gives is a piece of the text with nothing but white space
/// before it and after it, and it neither begins nor ends with white space.
/// Only one piece of a text is such, so this says what trimming is. The
/// bounds of the piece are handed back.
pub proof fn lemma_trimmed_is_the_core(text: Seq<char>) -> (bounds: (int, int))
    ensures
        is_core(text, bounds.0, bounds.1),
        trimmed(text).len() > 0 ==> !is_space(trimmed(text).first()) && !is_space(
            trimmed(text).last(),
        ),
    decreases text.len(),
{
    if text.len() > 0 && is_space(text.first()) {
        let rest = text.drop_first();
        let (from, to) = lemma_trimmed_is_the_core(rest);
        assert(text.subrange(from + 1, to + 1) == trimmed(text)) by {
            assert(text.subrange(from + 1, to + 1) =~= rest.subrange(from, to));
        }
        assert(all_space(text.take(from + 1))) by {
            assert forall|i: int| 0 <= i < from + 1 implies is_space(
                #[trigger] text.take(from + 1)[i],
            ) by {
                if i > 0 {
                    assert(rest.take(from)[i - 1] == text.take(from + 1)[i]);
                }
            }
        }
        assert(all_space(text.skip(to + 1))) by {
            assert(text.skip(to + 1) =~= rest.skip(to));
        }
        (from + 1, to + 1)
    } else if text.len() > 0 && is_space(text.last()) {
        let rest = text.drop_last();
        let (from, to) = lemma_trimmed_is_the_core(rest);
        assert(text.subrange(from, to) == trimmed(text)) by {
            assert(text.subrange(from, to) =~= rest.subrange(from, to));
        }
        assert(all_space(text.take(from))) by {
            assert(text.take(from) =~= rest.take(from));
        }
        assert(all_space(text.skip(to))) by {
            assert forall|i: int| 0 <= i < text.len() - to implies is_space(
                #[trigger] text.skip(to)[i],
            ) by {
                if i < rest.len() - to {
                    assert(rest.skip(to)[i] == text.skip(to)[i]);
                }
            }
        }
        (from, to)
    } else {
        assert(text.subrange(0, text.len() as int) =~= text);
        (0, text.len() as int)
    }
}

/// Whether the character is white space.
pub fn is_whitespace(c: char) -> (yes: bool)
    ensures
        yes == is_space(c),
{
    let code = c as u32;
    (0x09 <= code && code <= 0x0d) || code == 0x20 || code == 0x85 || code == 0xa0 || code
        == 0x1680 || (0x2000 <= code && code <= 0x200a) || code == 0x2028 || code == 0x2029
        || code == 0x202f || code == 0x205f || code == 0x3000
}

/// Strips the white space, line terminator included, from both ends of a line.
pub fn trim(text: &str) -> (core: &str)
    ensures
        core@ == trimmed(text@),
{
    let chars = chars_of(text);
    let mut from: usize = 0;
    while from < chars.len() && is_whitespace(chars[from])
        invariant
            from <= chars.len(),
            all_space(chars@.take(from as int)),
        decreases chars.len() - from,
    {
        assert forall|i: int| 0 <= i < from + 1 implies is_space(
            #[trigger] chars@.take(from + 1)[i],
        ) by {
            if i < from {
                assert(chars@.take(from as int)[i] == chars@.take(from + 1)[i]);
            }
        }
        from += 1;
    }
    let mut to: usize = chars.len();
    while to > from && is_whitespace(chars[to - 1])
        invariant
            from <= to <= chars.len(),
            all_space(chars@.skip(to as int)),
        decreases to,
    {
        assert forall|i: int| 0 <= i < chars.len() - (to - 1) implies is_space(
            #[trigger] chars@.skip(to - 1)[i],
        ) by {
            if i > 0 {
                assert(chars@.skip(to as int)[i - 1] == chars@.skip(to - 1)[i]);
            }
        }
        to -= 1;
    }
    proof {
        let rest = chars@.skip(from as int);
        let core = chars@.subrange(from as int, to as int);
        lemma_trimmed_skips_leading(chars@, from as int);
        assert(rest.skip(to - from) =~= chars@.skip(to as int));
        assert(rest.take(to - from) =~= core);
        if rest.len() > 0 {
            assert(rest.first() == chars@[from as int]);
        }
        lemma_trimmed_drops_trailing(rest, to - from);
        if core.len() > 0 {
            assert(core.first() == chars@[from as int]);
            assert(core.last() == chars@[to - 1]);
        }
    }
    text.substring_char(from, to)
}

} // verus!
