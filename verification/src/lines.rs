//! The line-number gutter: how many lines the raw document text spans.
//!
//! A line is a newline-delimited segment; a trailing newline closes the last
//! line rather than open an empty one, and empty text still counts as one
//! line, so the gutter is never blank.

use vstd::prelude::*;

verus! {

/// How many newline characters `text` holds.
pub open spec fn spec_newline_count(text: Seq<char>) -> nat
    decreases text.len(),
{
    if text.len() == 0 {
        0
    } else {
        spec_newline_count(text.drop_last()) + if text.last() == '\n' {
            1nat
        } else {
            0nat
        }
    }
}

/// How many lines `text` spans: its newline-delimited segments, a trailing
/// newline closing the last one, and at least one even for empty text.
pub open spec fn spec_line_count(text: Seq<char>) -> nat {
    if text.len() == 0 {
        1
    } else if text.last() == '\n' {
        spec_newline_count(text)
    } else {
        spec_newline_count(text) + 1
    }
}

/// There are never more newlines than characters.
proof fn lemma_newline_count_le_len(text: Seq<char>)
    ensures
        spec_newline_count(text) <= text.len(),
    decreases text.len(),
{
    if text.len() > 0 {
        lemma_newline_count_le_len(text.drop_last());
    }
}

/// The number of lines in `text`, for the gutter.
pub fn line_count(text: &str) -> (n: usize)
    ensures
        n == spec_line_count(text@),
{
    let len = text.unicode_len();
    let mut newlines: usize = 0;
    assert(text@.take(0) =~= Seq::<char>::empty());
    for i in 0..len
        invariant
            len == text@.len(),
            newlines == spec_newline_count(text@.take(i as int)),
            newlines <= i,
    {
        let c = text.get_char(i);
        proof {
            assert(text@.take(i + 1).drop_last() =~= text@.take(i as int));
            assert(text@.take(i + 1).last() == text@[i as int]);
        }
        if c == '\n' {
            newlines = newlines + 1;
        }
    }
    proof {
        assert(text@.take(len as int) =~= text@);
        lemma_newline_count_le_len(text@);
    }
    if len == 0 {
        1
    } else if text.get_char(len - 1) == '\n' {
        newlines
    } else {
        assert(spec_newline_count(text@) < text@.len()) by {
            assert(text@.drop_last().len() == text@.len() - 1);
            lemma_newline_count_le_len(text@.drop_last());
        }
        newlines + 1
    }
}

} // verus!
