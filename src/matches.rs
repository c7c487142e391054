//! Match results: byte spans over one reference-counted text buffer.
use std::ops::Range;
use std::sync::Arc;

use vstd::prelude::*;
use vstd::string::StringSliceAdditionalSpecFns;
use vstd::utf8::*;

use crate::pattern::{engine_spans, match_spans, LuaRegex};

verus! {

broadcast use encode_utf8_valid_utf8;

/// The bytes of a text, as the matching engine indexes them.
pub open spec fn bytes_of(text: Seq<char>) -> Seq<u8> {
    encode_utf8(text)
}

/// `start..end` is a span of `bytes` that starts and ends on character
/// boundaries. No Rust string is longer than `isize::MAX` bytes, so neither
/// is any offset into one.
pub open spec fn valid_span(bytes: Seq<u8>, start: int, end: int) -> bool {
    &&& 0 <= start <= end <= bytes.len()
    &&& end <= isize::MAX
    &&& is_char_boundary(bytes, start)
    &&& is_char_boundary(bytes, end)
}

/// Valid spans, in increasing order of their starts, none overlapping the
/// next.
pub open spec fn valid_spans(bytes: Seq<u8>, spans: Seq<(usize, usize)>) -> bool {
    &&& forall|i: int| 0 <= i < spans.len() ==> valid_span(bytes, spans[i].0 as int, spans[i].1 as int)
    &&& forall|i: int, j: int|
        0 <= i < j < spans.len() ==> #[trigger] spans[i].1 <= #[trigger] spans[j].0
            && spans[i].0 < spans[j].0
}

/// A capture group's span is valid where the group took part in the match.
pub open spec fn valid_group(bytes: Seq<u8>, group: Option<(usize, usize)>) -> bool {
    match group {
        Some(s) => valid_span(bytes, s.0 as int, s.1 as int),
        None => true,
    }
}

/// The decimal digits of `n`, most significant first.
pub open spec fn decimal(n: nat) -> Seq<char>
    decreases n,
{
    if n < 10 {
        seq![((n + 48) as u8) as char]
    } else {
        decimal(n / 10) + seq![((n % 10 + 48) as u8) as char]
    }
}

/// Relies on `usize::to_string`: the decimal digits, without sign or
/// padding.
#[verifier::external_body]
pub(crate) fn to_decimal(n: usize) -> (r: String)
    ensures
        r@ == decimal(n as nat),
{
    n.to_string()
}

/// Relies on `Arc::clone`: the new handle points at the same value.
#[verifier::external_body]
pub(crate) fn share(text: &Arc<String>) -> (r: Arc<String>)
    ensures
        r == *text,
{
    Arc::clone(text)
}

/// A boundary of the whole text that lies inside a suffix is a boundary of
/// that suffix.
proof fn lemma_boundary_of_suffix(bytes: Seq<u8>, start: int, end: int)
    requires
        valid_utf8(bytes),
        0 <= start <= end <= bytes.len(),
        is_char_boundary(bytes, start),
        is_char_boundary(bytes, end),
    ensures
        valid_utf8(bytes.subrange(start, bytes.len() as int)),
        is_char_boundary(bytes.subrange(start, bytes.len() as int), end - start),
{
    let rest = bytes.subrange(start, bytes.len() as int);
    valid_utf8_split(bytes, start);
    if end < bytes.len() {
        is_char_boundary_iff_not_is_continuation_byte(bytes, end);
        is_char_boundary_iff_not_is_continuation_byte(rest, end - start);
        assert(rest[end - start] == bytes[end]);
    } else {
        is_char_boundary_start_end_of_seq(rest);
    }
}

/// The text of `text` between two byte offsets.
pub fn slice_text(text: &str, start: usize, end: usize) -> (r: String)
    requires
        valid_span(bytes_of(text@), start as int, end as int),
    ensures
        bytes_of(r@) == bytes_of(text@).subrange(start as int, end as int),
{
    let ghost bytes = bytes_of(text@);
    let (_, rest) = text.split_at(start);
    proof {
        lemma_boundary_of_suffix(bytes, start as int, end as int);
    }
    let (mid, _) = rest.split_at(end - start);
    assert(mid.spec_bytes() =~= bytes.subrange(start as int, end as int));
    mid.to_owned()
}

/// Represents a single match over a string.
pub struct LuaMatch {
    /// The whole text that was searched, shared with every other result of
    /// the same search.
    text: Arc<String>,
    /// The start of the match, inclusive, in bytes.
    start: usize,
    /// The end of the match, exclusive, in bytes.
    end: usize,
}

impl LuaMatch {
    pub open spec fn wf(&self) -> bool {
        valid_span(bytes_of(self.source()), self.begin(), self.stop())
    }

    /// The text the result is over: what the shared buffer holds.
    pub open spec fn source(&self) -> Seq<char> {
        self.buffer()@
    }

    /// The byte offset where the match begins (0-based).
    pub closed spec fn begin(&self) -> int {
        self.start as int
    }

    /// The byte offset just past the match.
    pub closed spec fn stop(&self) -> int {
        self.end as int
    }

    pub closed spec fn buffer(&self) -> Arc<String> {
        self.text
    }

    /// What `start` returns: the first byte's position counted from 1.
    pub open spec fn start_position(&self) -> int {
        self.begin() + 1
    }

    /// What `finish` returns: the 0-based offset just past the match.
    pub open spec fn finish_position(&self) -> int {
        self.stop()
    }

    /// What `len` returns: the number of bytes matched.
    pub open spec fn match_len(&self) -> int {
        self.stop() - self.begin()
    }

    pub fn new(text: Arc<String>, range: &Range<usize>) -> (r: LuaMatch)
        requires
            valid_span(bytes_of(text@), range.start as int, range.end as int),
        ensures
            r.wf(),
            r.buffer() == text,
            r.source() == text@,
            r.begin() == range.start,
            r.stop() == range.end,
    {
        LuaMatch { text, start: range.start, end: range.end }
    }

    pub(crate) fn from_span(text: Arc<String>, span: (usize, usize)) -> (r: LuaMatch)
        requires
            valid_span(bytes_of(text@), span.0 as int, span.1 as int),
        ensures
            r.wf(),
            r.buffer() == text,
            r.source() == text@,
            r.begin() == span.0,
            r.stop() == span.1,
    {
        LuaMatch { text, start: span.0, end: span.1 }
    }

    /// The 0-based byte range of the match.
    pub fn range(&self) -> (r: Range<usize>)
        ensures
            r.start == self.begin(),
            r.end == self.stop(),
    {
        self.start..self.end
    }

    /// The length of the match in bytes.
    pub fn len(&self) -> (r: usize)
        requires
            self.wf(),
        ensures
            r == self.match_len(),
    {
        self.end - self.start
    }

    pub fn is_empty(&self) -> (r: bool)
        ensures
            r == (self.begin() == self.stop()),
    {
        self.start == self.end
    }

    /// The position of the first byte of the match, counted from 1.
    pub fn start(&self) -> (r: usize)
        requires
            self.wf(),
        ensures
            r == self.start_position(),
    {
        self.start + 1
    }

    /// The position of the last byte of the match, counted from 1; that is
    /// the 0-based offset just past the match.
    pub fn finish(&self) -> (r: usize)
        ensures
            r == self.finish_position(),
    {
        self.end
    }

    /// The matched text.
    pub fn text(&self) -> (r: String)
        requires
            self.wf(),
        ensures
            bytes_of(r@) == bytes_of(self.source()).subrange(self.begin(), self.stop()),
    {
        slice_text(self.text.as_str(), self.start, self.end)
    }

    /// A handle on the whole searched text.
    pub fn full_text(&self) -> (r: Arc<String>)
        ensures
            r == self.buffer(),
            r@ == self.source(),
    {
        share(&self.text)
    }

    /// A label holding the matched text.
    pub fn display(&self) -> (r: String)
        requires
            self.wf(),
        ensures
            r@.len() >= 7,
            r@.subrange(0, 6) == "Match("@,
            r@.last() == ')',
            bytes_of(r@.subrange(6, r@.len() - 1)) == bytes_of(self.source()).subrange(
                self.begin(),
                self.stop(),
            ),
    {
        let inner = self.text();
        let mut label = String::from_str("Match(");
        label.append(inner.as_str());
        label.append(")");
        proof {
            reveal_strlit("Match(");
            reveal_strlit(")");
            assert(label@.subrange(6, label@.len() - 1) =~= inner@);
        }
        label
    }
}

/// A sequence of matches over a string.
pub struct LuaMatches {
    /// The text that the matches are over.
    text: Arc<String>,
    /// The byte spans of the matches in `text`, in order.
    captures: Vec<(usize, usize)>,
}

impl LuaMatches {
    pub open spec fn wf(&self) -> bool {
        valid_spans(bytes_of(self.source()), self.spans())
    }

    /// The text the result is over: what the shared buffer holds.
    pub open spec fn source(&self) -> Seq<char> {
        self.buffer()@
    }

    pub closed spec fn spans(&self) -> Seq<(usize, usize)> {
        self.captures@
    }

    pub closed spec fn buffer(&self) -> Arc<String> {
        self.text
    }

    /// Every non-overlapping match of `pattern`, left to right, over one
    /// buffer that holds `text`.
    pub fn new(pattern: &LuaRegex, text: String) -> (r: LuaMatches)
        ensures
            r.wf(),
            r.source() == text@,
            r.spans() == match_spans(pattern.pattern(), text@),
    {
        let text = Arc::new(text);
        let captures = engine_spans(pattern, text.as_str());
        LuaMatches { text, captures }
    }

    /// The match at 0-based position `n`, or `None` past the end.
    pub fn get(&self, n: usize) -> (r: Option<LuaMatch>)
        requires
            self.wf(),
        ensures
            n < self.spans().len() <==> r is Some,
            r matches Some(m) ==> {
                &&& m.wf()
                &&& m.buffer() == self.buffer()
                &&& m.source() == self.source()
                &&& m.begin() == self.spans()[n as int].0
                &&& m.stop() == self.spans()[n as int].1
            },
    {
        if n < self.captures.len() {
            Some(LuaMatch::from_span(share(&self.text), self.captures[n]))
        } else {
            None
        }
    }

    /// The match at position `index` counted from 1, or `None` where there is
    /// no such match (also for 0).
    pub fn get_one_based(&self, index: usize) -> (r: Option<LuaMatch>)
        requires
            self.wf(),
        ensures
            (1 <= index <= self.spans().len()) <==> r is Some,
            r matches Some(m) ==> {
                &&& m.wf()
                &&& m.buffer() == self.buffer()
                &&& m.source() == self.source()
                &&& m.begin() == self.spans()[index - 1].0
                &&& m.stop() == self.spans()[index - 1].1
            },
    {
        if index == 0 {
            None
        } else {
            self.get(index - 1)
        }
    }

    pub fn len(&self) -> (r: usize)
        ensures
            r == self.spans().len(),
    {
        self.captures.len()
    }

    /// A label with the number of matches.
    pub fn display(&self) -> (r: String)
        ensures
            r@ == "Matches("@ + decimal(self.spans().len() as nat) + ")"@,
    {
        let mut label = String::from_str("Matches(");
        label.append(to_decimal(self.captures.len()).as_str());
        label.append(")");
        label
    }
}

} // verus!
