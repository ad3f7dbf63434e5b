//! A record source: which metadata agent it came from, and its value there.

use vstd::prelude::*;

use crate::error::Error;
use crate::util::find_from;
use crate::util::lemma_find_from_hits;
use crate::util::scan_char;

verus! {

/// The name of the metadata agent a record came from.
#[derive(Debug, Clone, PartialEq, Eq, Hash)]
pub struct Agent(pub String);

impl Agent {
    pub fn new_static(value: &'static str) -> (r: Self)
        ensures
            r.0@ == value@,
    {
        Self(value.to_owned())
    }

    pub fn new_owned(value: String) -> (r: Self)
        ensures
            r.0 == value,
    {
        Self(value)
    }

    /// The agent's name as text.
    pub fn as_str(&self) -> (r: &str)
        ensures
            r@ == self.0@,
    {
        self.0.as_str()
    }
}

/// An agent name and the record's value with that agent.
#[derive(Debug, Clone, PartialEq, Eq)]
pub struct Source {
    pub agent: Agent,
    pub value: String,
}

impl Source {
    /// The `agent:value` text of this source.
    pub fn to_text(&self) -> (r: String)
        ensures
            r@ == self.agent.0@ + seq![':'] + self.value@,
    {
        let mut r = self.agent.0.clone();
        let colon = ":";
        proof {
            reveal_strlit(":");
            assert(colon@ =~= seq![':']);
        }
        r.append(colon);
        r.append(self.value.as_str());
        r
    }

    /// A source whose agent name holds no `:` comes back unchanged from
    /// its own text: formatting and splitting round-trip.
    pub proof fn lemma_text_round_trip(s: Source)
        requires
            forall|k: int| 0 <= k < s.agent.0@.len() ==> s.agent.0@[k] != ':',
        ensures
            ({
                let text = s.agent.0@ + seq![':'] + s.value@;
                let i = find_from(text, ':', 0);
                &&& i == s.agent.0@.len()
                &&& text.subrange(0, i) == s.agent.0@
                &&& text.subrange(i + 1, text.len() as int) == s.value@
            }),
    {
        let text = s.agent.0@ + seq![':'] + s.value@;
        let sep = s.agent.0@.len() as int;
        assert(text[sep] == ':');
        assert(forall|k: int| 0 <= k < sep ==> text[k] == s.agent.0@[k]);
        lemma_find_from_hits(text, ':', 0, sep);
        assert(text.subrange(0, sep) =~= s.agent.0@);
        assert(text.subrange(sep + 1, text.len() as int) =~= s.value@);
    }

    /// Split `agent:value` text at its first `:`; text without one is
    /// rejected with `Error::SourceSplit`.
    pub fn try_from(value: &str) -> (r: Result<Self, Error>)
        ensures
            ({
                let i = find_from(value@, ':', 0);
                if i < value@.len() {
                    r matches Ok(s) && s.agent.0@ == value@.subrange(0, i) && s.value@
                        == value@.subrange(i + 1, value@.len() as int)
                } else {
                    r matches Err(e) && e == Error::SourceSplit
                }
            }),
    {
        let len = value.unicode_len();
        let i = scan_char(value, ':', 0);
        if i >= len {
            return Err(Error::SourceSplit);
        }
        let agent = value.substring_char(0, i).to_owned();
        let val = value.substring_char(i + 1, len).to_owned();
        Ok(Self { agent: Agent(agent), value: val })
    }
}

} // verus!
