//! A compiled pattern and the searches it runs over a shared text buffer.
use std::sync::Arc;

use vstd::prelude::*;

use crate::captures::LuaCaptures;
use crate::matches::{bytes_of, valid_group, valid_span, valid_spans, LuaMatch, LuaMatches};

verus! {

broadcast use vstd::utf8::encode_utf8_valid_utf8;

#[verifier::external_type_specification]
#[verifier::external_body]
pub struct ExRegex(regex::Regex);

/// What the engine reports on compiling `pattern`: `None` where it accepts
/// the pattern, else its diagnostic.
pub uninterp spec fn pattern_diagnostic(pattern: Seq<char>) -> Option<Seq<char>>;

/// Whether the engine accepts `pattern`.
pub open spec fn is_valid_pattern(pattern: Seq<char>) -> bool {
    pattern_diagnostic(pattern) is None
}

/// The byte spans of the successive non-overlapping leftmost-first matches
/// of `pattern` in `text`.
pub uninterp spec fn match_spans(pattern: Seq<char>, text: Seq<char>) -> Seq<(usize, usize)>;

/// For the leftmost-first match of `pattern` in `text`, the span of each
/// capture group, `None` for a group that took no part in the match.
pub uninterp spec fn capture_table(pattern: Seq<char>, text: Seq<char>) -> Seq<Option<(usize, usize)>>;

/// The name of each capture group of `pattern`, by group index.
pub uninterp spec fn group_names(pattern: Seq<char>) -> Seq<Option<Seq<char>>>;

/// `template` with its group references filled in from the leftmost-first
/// match of `pattern` in `text`.
pub uninterp spec fn expansion(pattern: Seq<char>, text: Seq<char>, template: Seq<char>) -> Seq<char>;

/// Relies on `regex::Regex::new`, and on the `Display` impl of its error:
/// every variant writes a non-empty description ("regex parse error: ..."
/// or the size limit).
#[verifier::external_body]
fn compile(pattern: &str) -> (r: Result<regex::Regex, String>)
    ensures
        r is Ok <==> pattern_diagnostic(pattern@) is None,
        r matches Err(message) ==> pattern_diagnostic(pattern@) == Some(message@) && message@.len() > 0,
{
    match regex::Regex::new(pattern) {
        Ok(re) => Ok(re),
        Err(e) => Err(e.to_string()),
    }
}

/// Relies on `regex::Regex::clone`: the copy shares the compiled program.
pub assume_specification[ <regex::Regex as Clone>::clone ](re: &regex::Regex) -> regex::Regex;

/// Relies on `regex::Regex::is_match`: true iff there is a match anywhere.
#[verifier::external_body]
fn engine_is_match(re: &LuaRegex, text: &str) -> (r: bool)
    ensures
        r == (match_spans(re.pattern(), text@).len() > 0),
{
    re.inner.is_match(text)
}

/// Relies on `regex::Regex::find`: the leftmost-first match, which is the
/// first one `find_iter` yields.
#[verifier::external_body]
fn engine_find(re: &LuaRegex, text: &str) -> (r: Option<(usize, usize)>)
    ensures
        r is None <==> match_spans(re.pattern(), text@).len() == 0,
        r matches Some(s) ==> s == match_spans(re.pattern(), text@)[0] && valid_span(
            bytes_of(text@),
            s.0 as int,
            s.1 as int,
        ),
{
    re.inner.find(text).map(|m| (m.start(), m.end()))
}

/// Relies on `regex::Regex::find_iter`: successive non-overlapping matches,
/// each a byte range of the text on character boundaries.
#[verifier::external_body]
pub(crate) fn engine_spans(re: &LuaRegex, text: &str) -> (r: Vec<(usize, usize)>)
    ensures
        r@ == match_spans(re.pattern(), text@),
        valid_spans(bytes_of(text@), r@),
{
    re.inner.find_iter(text).map(|m| (m.start(), m.end())).collect()
}

/// `inner` starts no earlier and ends no later than `outer`.
pub open spec fn span_inside(inner: (usize, usize), outer: (usize, usize)) -> bool {
    outer.0 <= inner.0 && inner.1 <= outer.1
}

/// Each group that took part in the match lies inside group 0's span.
pub open spec fn groups_within_whole(groups: Seq<Option<(usize, usize)>>) -> bool {
    forall|i: int|
        0 <= i < groups.len() && #[trigger] groups[i] is Some ==> groups[0] is Some && span_inside(
            groups[i]->0,
            groups[0]->0,
        )
}

/// Relies on `regex::Regex::captures`: the groups of the leftmost-first
/// match, one entry per group of the pattern, group 0 being the whole match.
/// The engines record a group's offsets only along the path that matched,
/// so each group lies inside the whole match.
#[verifier::external_body]
pub(crate) fn engine_captures(re: &LuaRegex, text: &str) -> (r: Option<Vec<Option<(usize, usize)>>>)
    ensures
        r is None <==> match_spans(re.pattern(), text@).len() == 0,
        r matches Some(v) ==> {
            &&& v@ == capture_table(re.pattern(), text@)
            &&& v@.len() == group_names(re.pattern()).len()
            &&& v@.len() >= 1
            &&& v@[0] == Some(match_spans(re.pattern(), text@)[0])
            &&& forall|i: int| 0 <= i < v@.len() ==> valid_group(bytes_of(text@), #[trigger] v@[i])
            &&& groups_within_whole(v@)
        },
{
    re.inner.captures(text).map(|c| c.iter().map(|g| g.map(|m| (m.start(), m.end()))).collect())
}

/// Relies on `regex::Regex::capture_names`: the name of each group, by index.
#[verifier::external_body]
pub(crate) fn engine_names(re: &LuaRegex) -> (r: Vec<Option<String>>)
    ensures
        r.deep_view() == group_names(re.pattern()),
{
    re.inner.capture_names().map(|n| n.map(|s| s.to_string())).collect()
}

/// Relies on `regex::Captures::expand`, applied to the groups of the
/// leftmost-first match.
#[verifier::external_body]
pub(crate) fn engine_expand(re: &LuaRegex, text: &str, template: &str) -> (r: Option<String>)
    ensures
        r is None <==> match_spans(re.pattern(), text@).len() == 0,
        r matches Some(s) ==> s@ == expansion(re.pattern(), text@, template@),
{
    match re.inner.captures(text) {
        Some(caps) => {
            let mut out = String::new();
            caps.expand(template, &mut out);
            Some(out)
        },
        None => None,
    }
}

/// Relies on `regex::Regex::split`: the stretches of the text before,
/// between and after the successive matches that `find_iter` yields.
#[verifier::external_body]
fn engine_split(re: &LuaRegex, text: &str) -> (r: Vec<String>)
    ensures
        r@.len() == match_spans(re.pattern(), text@).len() + 1,
        forall|i: int|
            0 <= i < r@.len() ==> bytes_of(#[trigger] r@[i]@) == gaps(
                bytes_of(text@),
                match_spans(re.pattern(), text@),
            )[i],
{
    re.inner.split(text).map(|piece| piece.to_string()).collect()
}

/// Relies on `regex::Regex::replace` with `regex::NoExpand`: the text with
/// the first match of `find_iter` replaced by `replacement` taken literally,
/// or the text unchanged where there is no match.
#[verifier::external_body]
fn engine_replace(re: &LuaRegex, text: &str, replacement: &str) -> (r: String)
    ensures
        match_spans(re.pattern(), text@).len() == 0 ==> r@ == text@,
        match_spans(re.pattern(), text@).len() > 0 ==> bytes_of(r@) == bytes_of(text@).subrange(
            0,
            match_spans(re.pattern(), text@)[0].0 as int,
        ) + bytes_of(replacement@) + bytes_of(text@).subrange(
            match_spans(re.pattern(), text@)[0].1 as int,
            bytes_of(text@).len() as int,
        ),
{
    re.inner.replace(text, regex::NoExpand(replacement)).into_owned()
}

/// Relies on `regex::Regex::replace_all` with `regex::NoExpand`: every
/// match of `find_iter` replaced by `replacement` taken literally, the text
/// between them kept.
#[verifier::external_body]
fn engine_replace_all(re: &LuaRegex, text: &str, replacement: &str) -> (r: String)
    ensures
        bytes_of(r@) == rejoin(
            gaps(bytes_of(text@), match_spans(re.pattern(), text@)),
            repeated(bytes_of(replacement@), match_spans(re.pattern(), text@).len()),
        ),
{
    re.inner.replace_all(text, regex::NoExpand(replacement)).into_owned()
}

/// Whether `pattern` matches anywhere in `text`.
pub open spec fn has_match(pattern: Seq<char>, text: Seq<char>) -> bool {
    match_spans(pattern, text).len() > 0
}

/// The span of the leftmost-first match of `pattern` in `text`.
pub open spec fn first_match(pattern: Seq<char>, text: Seq<char>) -> Option<(usize, usize)> {
    if match_spans(pattern, text).len() == 0 {
        None
    } else {
        Some(match_spans(pattern, text)[0])
    }
}

/// Where the `i`th stretch of text that no match covers begins.
pub open spec fn gap_start(spans: Seq<(usize, usize)>, i: int) -> int {
    if i <= 0 {
        0
    } else {
        spans[i - 1].1 as int
    }
}

/// Where the `i`th stretch of text that no match covers ends.
pub open spec fn gap_end(bytes: Seq<u8>, spans: Seq<(usize, usize)>, i: int) -> int {
    if i < spans.len() {
        spans[i].0 as int
    } else {
        bytes.len() as int
    }
}

/// The stretches of `bytes` before, between and after the spans.
pub open spec fn gaps(bytes: Seq<u8>, spans: Seq<(usize, usize)>) -> Seq<Seq<u8>> {
    Seq::new(
        (spans.len() + 1) as nat,
        |i: int| bytes.subrange(gap_start(spans, i), gap_end(bytes, spans, i)),
    )
}

/// The bytes each span covers.
pub open spec fn covered(bytes: Seq<u8>, spans: Seq<(usize, usize)>) -> Seq<Seq<u8>> {
    Seq::new(spans.len(), |i: int| bytes.subrange(spans[i].0 as int, spans[i].1 as int))
}

/// `pieces[0] + seps[0] + ... + pieces[i - 1] + seps[i - 1]`.
pub open spec fn rejoin_prefix(pieces: Seq<Seq<u8>>, seps: Seq<Seq<u8>>, i: int) -> Seq<u8>
    decreases i,
{
    if i <= 0 {
        seq![]
    } else {
        rejoin_prefix(pieces, seps, i - 1) + pieces[i - 1] + seps[i - 1]
    }
}

/// The pieces with the separators between them, one fewer separator than
/// pieces.
pub open spec fn rejoin(pieces: Seq<Seq<u8>>, seps: Seq<Seq<u8>>) -> Seq<u8> {
    rejoin_prefix(pieces, seps, seps.len() as int) + pieces[seps.len() as int]
}

/// `rep`, `n` times over.
pub open spec fn repeated(rep: Seq<u8>, n: nat) -> Seq<Seq<u8>> {
    Seq::new(n, |i: int| rep)
}

/// The error of a pattern the engine refused.
pub struct RegexError {
    /// The engine's description of what is wrong.
    pub message: String,
}

/// Represents a compiled pattern.
///
/// `inner` is always the compilation of `source`: only `new` and `duplicate`
/// build a value, and the engine calls above rely on that pairing.
pub struct LuaRegex {
    inner: regex::Regex,
    source: String,
}

impl LuaRegex {
    /// The source text the pattern was compiled from.
    pub closed spec fn pattern(&self) -> Seq<char> {
        self.source@
    }

    /// Compiles `pattern` once, for every later search.
    pub fn new(pattern: &str) -> (r: Result<LuaRegex, RegexError>)
        ensures
            r is Ok <==> is_valid_pattern(pattern@),
            r matches Ok(re) ==> re.pattern() == pattern@,
            r matches Err(e) ==> pattern_diagnostic(pattern@) == Some(e.message@) && e.message@.len() > 0,
    {
        match compile(pattern) {
            Ok(inner) => Ok(LuaRegex { inner, source: pattern.to_owned() }),
            Err(message) => Err(RegexError { message }),
        }
    }

    /// A second handle on the same compiled pattern.
    pub fn duplicate(&self) -> (r: LuaRegex)
        ensures
            r.pattern() == self.pattern(),
    {
        LuaRegex { inner: self.inner.clone(), source: self.source.clone() }
    }

    /// The source text of the pattern.
    pub fn as_str(&self) -> (r: &str)
        ensures
            r@ == self.pattern(),
    {
        self.source.as_str()
    }

    /// A label holding the source text of the pattern.
    pub fn display(&self) -> (r: String)
        ensures
            r@ == "Regex("@ + self.pattern() + ")"@,
    {
        let mut label = String::from_str("Regex(");
        label.append(self.source.as_str());
        label.append(")");
        label
    }

    /// Whether the pattern matches anywhere in `text`.
    pub fn is_match(&self, text: &str) -> (r: bool)
        ensures
            r == has_match(self.pattern(), text@),
    {
        engine_is_match(self, text)
    }

    /// The leftmost match, over a buffer that holds `text`.
    pub fn find(&self, text: String) -> (r: Option<LuaMatch>)
        ensures
            r is None <==> first_match(self.pattern(), text@) is None,
            r matches Some(m) ==> {
                &&& m.wf()
                &&& m.source() == text@
                &&& first_match(self.pattern(), text@) == Some(
                    (m.begin() as usize, m.stop() as usize),
                )
            },
    {
        let buffer = Arc::new(text);
        match engine_find(self, buffer.as_str()) {
            Some(span) => Some(LuaMatch::from_span(buffer, span)),
            None => None,
        }
    }

    /// Every non-overlapping match, left to right, over one buffer that
    /// holds `text`.
    pub fn find_all(&self, text: String) -> (r: LuaMatches)
        ensures
            r.wf(),
            r.source() == text@,
            r.spans() == match_spans(self.pattern(), text@),
    {
        LuaMatches::new(self, text)
    }

    /// The capture groups of the leftmost match, or `None` where there is no
    /// match.
    pub fn captures(&self, text: String) -> (r: Option<LuaCaptures>)
        ensures
            r is None <==> match_spans(self.pattern(), text@).len() == 0,
            r matches Some(c) ==> {
                &&& c.wf()
                &&& c.pattern() == self.pattern()
                &&& c.source() == text@
                &&& c.groups() == capture_table(self.pattern(), text@)
            },
    {
        LuaCaptures::new(self, text)
    }

    /// The text split at every match: the stretches before, between and
    /// after the matches.
    pub fn split(&self, text: &str) -> (r: Vec<String>)
        ensures
            r@.len() == match_spans(self.pattern(), text@).len() + 1,
            forall|i: int|
                0 <= i < r@.len() ==> bytes_of(#[trigger] r@[i]@) == gaps(
                    bytes_of(text@),
                    match_spans(self.pattern(), text@),
                )[i],
    {
        engine_split(self, text)
    }

    /// `text` with its first match, if any, replaced by `replacement` taken
    /// literally.
    pub fn replace(&self, text: &str, replacement: &str) -> (r: String)
        ensures
            match_spans(self.pattern(), text@).len() == 0 ==> r@ == text@,
            match_spans(self.pattern(), text@).len() > 0 ==> bytes_of(r@) == bytes_of(text@).subrange(
                0,
                match_spans(self.pattern(), text@)[0].0 as int,
            ) + bytes_of(replacement@) + bytes_of(text@).subrange(
                match_spans(self.pattern(), text@)[0].1 as int,
                bytes_of(text@).len() as int,
            ),
    {
        engine_replace(self, text, replacement)
    }

    /// `text` with every non-overlapping match replaced by `replacement`
    /// taken literally; the text between the matches is kept as it is.
    pub fn replace_all(&self, text: &str, replacement: &str) -> (r: String)
        ensures
            bytes_of(r@) == rejoin(
                gaps(bytes_of(text@), match_spans(self.pattern(), text@)),
                repeated(bytes_of(replacement@), match_spans(self.pattern(), text@).len()),
            ),
    {
        engine_replace_all(self, text, replacement)
    }
}

} // verus!
