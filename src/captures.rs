//! The capture groups of one match, over a shared text buffer.
use std::sync::Arc;

use vstd::prelude::*;

use crate::matches::{bytes_of, decimal, share, to_decimal, valid_group, LuaMatch};
use crate::pattern::{
    capture_table, engine_captures, groups_within_whole, engine_expand, engine_names, expansion, group_names,
    match_spans, LuaRegex,
};

verus! {

broadcast use vstd::utf8::encode_utf8_valid_utf8;

/// The capture groups of the leftmost match of a pattern in a text.
pub struct LuaCaptures {
    /// The pattern that matched.
    regex: LuaRegex,
    /// The text that was searched.
    text: Arc<String>,
    /// The span of each group, by index; `None` for a group that took no
    /// part in the match.
    groups: Vec<Option<(usize, usize)>>,
}

impl LuaCaptures {
    pub open spec fn wf(&self) -> bool {
        &&& match_spans(self.pattern(), self.source()).len() > 0
        &&& self.groups() == capture_table(self.pattern(), self.source())
        &&& self.groups().len() == group_names(self.pattern()).len()
        &&& self.groups().len() >= 1
        &&& self.groups()[0] == Some(match_spans(self.pattern(), self.source())[0])
        &&& groups_within_whole(self.groups())
        &&& forall|i: int|
            0 <= i < self.groups().len() ==> valid_group(
                bytes_of(self.source()),
                #[trigger] self.groups()[i],
            )
    }

    pub closed spec fn pattern(&self) -> Seq<char> {
        self.regex.pattern()
    }

    /// The text the result is over: what the shared buffer holds.
    pub open spec fn source(&self) -> Seq<char> {
        self.buffer()@
    }

    pub closed spec fn buffer(&self) -> Arc<String> {
        self.text
    }

    pub closed spec fn groups(&self) -> Seq<Option<(usize, usize)>> {
        self.groups@
    }

    /// Searches `text` once; `None` where the pattern does not match.
    pub fn new(pattern: &LuaRegex, text: String) -> (r: Option<LuaCaptures>)
        ensures
            r is None <==> match_spans(pattern.pattern(), text@).len() == 0,
            r matches Some(c) ==> {
                &&& c.wf()
                &&& c.pattern() == pattern.pattern()
                &&& c.source() == text@
                &&& c.groups() == capture_table(pattern.pattern(), text@)
            },
    {
        let text = Arc::new(text);
        match engine_captures(pattern, text.as_str()) {
            Some(groups) => Some(LuaCaptures { regex: pattern.duplicate(), text, groups }),
            None => None,
        }
    }

    /// The span table of the groups.
    pub fn captures(&self) -> (r: &Vec<Option<(usize, usize)>>)
        ensures
            r@ == self.groups(),
    {
        &self.groups
    }

    /// A handle on the searched text.
    pub fn text(&self) -> (r: Arc<String>)
        ensures
            r == self.buffer(),
            r@ == self.source(),
    {
        share(&self.text)
    }

    /// The number of groups, group 0 included.
    pub fn len(&self) -> (r: usize)
        ensures
            r == self.groups().len(),
    {
        self.groups.len()
    }

    /// Group `n`, or `None` where that group took no part in the match.
    pub fn get(&self, n: usize) -> (r: Option<LuaMatch>)
        requires
            self.wf(),
            n < self.groups().len(),
        ensures
            r is Some <==> self.groups()[n as int] is Some,
            r matches Some(m) ==> {
                &&& m.wf()
                &&& m.buffer() == self.buffer()
                &&& m.source() == self.source()
                &&& self.groups()[n as int] == Some((m.begin() as usize, m.stop() as usize))
            },
    {
        match self.groups[n] {
            Some(span) => {
                assert(valid_group(bytes_of(self.source()), self.groups()[n as int]));
                Some(LuaMatch::from_span(share(&self.text), span))
            },
            None => None,
        }
    }

    /// The group called `name`, or `None` where the pattern has no such
    /// group or it took no part in the match.
    pub fn group(&self, name: &str) -> (r: Option<LuaMatch>)
        requires
            self.wf(),
        ensures
            r is None ==> forall|k: int|
                0 <= k < self.groups().len() && #[trigger] group_names(self.pattern())[k] == Some(
                    name@,
                ) ==> self.groups()[k] is None,
            r matches Some(m) ==> {
                &&& m.wf()
                &&& m.buffer() == self.buffer()
                &&& m.source() == self.source()
                &&& exists|k: int|
                    0 <= k < self.groups().len() && #[trigger] group_names(self.pattern())[k]
                        == Some(name@) && self.groups()[k] == Some(
                        (m.begin() as usize, m.stop() as usize),
                    )
            },
    {
        let names = engine_names(&self.regex);
        let wanted = name.to_owned();
        let mut k: usize = 0;
        while k < names.len()
            invariant
                self.wf(),
                names.deep_view() == group_names(self.pattern()),
                names@.len() == self.groups().len(),
                wanted@ == name@,
                k <= names@.len(),
                forall|j: int|
                    0 <= j < k && #[trigger] group_names(self.pattern())[j] == Some(name@)
                        ==> self.groups()[j] is None,
            decreases names@.len() - k,
        {
            assert(names.deep_view()[k as int] == names@[k as int].deep_view());
            let found = match &names[k] {
                Some(n) => *n == wanted,
                None => false,
            };
            if found {
                if let Some(span) = self.groups[k] {
                    assert(valid_group(bytes_of(self.source()), self.groups()[k as int]));
                    return Some(LuaMatch::from_span(share(&self.text), span));
                }
            }
            k = k + 1;
        }
        None
    }

    /// `template` with its group references (`$1`, `$name`, `${name}`)
    /// filled in from this match.
    pub fn format(&self, template: &str) -> (r: String)
        requires
            self.wf(),
        ensures
            r@ == expansion(self.pattern(), self.source(), template@),
    {
        match engine_expand(&self.regex, self.text.as_str(), template) {
            Some(out) => out,
            None => String::new(),
        }
    }

    /// A label with the number of groups.
    pub fn display(&self) -> (r: String)
        ensures
            r@ == "Captures("@ + decimal(self.groups().len() as nat) + " captures)"@,
    {
        let mut label = String::from_str("Captures(");
        label.append(to_decimal(self.groups.len()).as_str());
        label.append(" captures)");
        label
    }
}

} // verus!
