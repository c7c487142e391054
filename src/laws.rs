//! Facts that relate the results of several operations.
use vstd::prelude::*;
use vstd::utf8::*;

use crate::captures::LuaCaptures;
use crate::matches::{valid_spans, LuaMatch};
use crate::pattern::{
    covered, span_inside, first_match, gap_end, gap_start, gaps, has_match, match_spans, rejoin, rejoin_prefix,
    repeated,
};

verus! {

broadcast use vstd::utf8::encode_utf8_valid_utf8;

proof fn lemma_rejoin_prefix_covers(bytes: Seq<u8>, spans: Seq<(usize, usize)>, i: int)
    requires
        valid_spans(bytes, spans),
        0 <= i <= spans.len(),
    ensures
        rejoin_prefix(gaps(bytes, spans), covered(bytes, spans), i) == bytes.subrange(0, gap_start(spans, i)),
    decreases i,
{
    if i == 0 {
        assert(rejoin_prefix(gaps(bytes, spans), covered(bytes, spans), 0) =~= bytes.subrange(0, 0));
    } else {
        lemma_rejoin_prefix_covers(bytes, spans, i - 1);
        let s = spans[i - 1];
        assert(gap_start(spans, i - 1) <= s.0) by {
            if i > 1 {
                assert(spans[i - 2].1 <= spans[i - 1].0);
            }
        }
        assert(gap_end(bytes, spans, i - 1) == s.0);
        assert(bytes.subrange(0, gap_start(spans, i - 1)) + bytes.subrange(gap_start(spans, i - 1), s.0 as int)
            + bytes.subrange(s.0 as int, s.1 as int) =~= bytes.subrange(0, s.1 as int));
    }
}

/// Splitting a text at the spans of its matches and putting each matched
/// stretch back between the pieces, in order, gives the text again.
pub proof fn lemma_split_reassembles(bytes: Seq<u8>, spans: Seq<(usize, usize)>)
    requires
        valid_spans(bytes, spans),
    ensures
        rejoin(gaps(bytes, spans), covered(bytes, spans)) == bytes,
{
    let n = spans.len() as int;
    lemma_rejoin_prefix_covers(bytes, spans, n);
    assert(covered(bytes, spans).len() == n);
    assert(bytes.subrange(0, gap_start(spans, n)) + bytes.subrange(gap_start(spans, n), bytes.len() as int) =~= bytes);
}


/// There is no leftmost match exactly when the pattern matches nowhere, and
/// that is exactly when the list of all matches is empty.
pub proof fn lemma_find_agrees_with_is_match(pattern: Seq<char>, text: Seq<char>)
    ensures
        first_match(pattern, text) is None <==> !has_match(pattern, text),
        !has_match(pattern, text) <==> match_spans(pattern, text).len() == 0,
{
}

/// What `finish` returns, less what `start` returns, plus one, is what
/// `len` returns: the 1-based start and the 0-based exclusive end are never
/// confused.
pub proof fn lemma_position_convention(m: LuaMatch)
    requires
        m.wf(),
    ensures
        m.finish_position() - (m.start_position() - 1) == m.match_len(),
        m.match_len() >= 0,
{
}

/// Every group that took part in a match lies inside the whole match, over
/// the same text.
pub proof fn lemma_groups_inside_whole_match(c: LuaCaptures, i: int)
    requires
        c.wf(),
        0 <= i < c.groups().len(),
        c.groups()[i] is Some,
    ensures
        c.groups()[0] is Some,
        span_inside(c.groups()[i]->0, c.groups()[0]->0),
{
}

/// Group 0 of the captures of a text is the leftmost match in it.
pub proof fn lemma_group_zero_is_whole_match(c: LuaCaptures)
    requires
        c.wf(),
    ensures
        c.groups()[0] == first_match(c.pattern(), c.source()),
{
}

/// Where a text holds one match, replacing every match is replacing that
/// one: the text before it, the replacement, and the text after it.
pub proof fn lemma_replace_first_is_replace_all_of_one(
    bytes: Seq<u8>,
    spans: Seq<(usize, usize)>,
    rep: Seq<u8>,
)
    requires
        valid_spans(bytes, spans),
        spans.len() == 1,
    ensures
        rejoin(gaps(bytes, spans), repeated(rep, spans.len())) == bytes.subrange(0, spans[0].0 as int)
            + rep + bytes.subrange(spans[0].1 as int, bytes.len() as int),
{
    assert(rejoin_prefix(gaps(bytes, spans), repeated(rep, 1), 0) =~= seq![]);
    assert(rejoin_prefix(gaps(bytes, spans), repeated(rep, 1), 1) =~= bytes.subrange(
        0,
        spans[0].0 as int,
    ) + rep);
}

} // verus!
