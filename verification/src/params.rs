//! Dynamically typed values and string-keyed mappings of them, as used for
//! strategy parameters and for the diagnostics attached to a proposal.

use crate::decimal::{decimal_from_text, Decimal};
use crate::error::same_text;
use vstd::prelude::*;
use vstd::string::StringExecFns;

verus! {

/// A dynamically typed value.
#[derive(Debug)]
pub enum ParamValue {
    /// A text.
    Text(String),
    /// A whole number that is not negative.
    Unsigned(u64),
    /// Any other number.
    Number(Decimal),
    /// Anything that is neither a text nor a number.
    Other,
}

/// What a [`ParamValue`] holds, with a text as its characters.
pub enum ParamView {
    Text(Seq<char>),
    Unsigned(u64),
    Number(Decimal),
    Other,
}

impl ParamView {
    /// The whole number held, if the value is one.
    pub open spec fn spec_u64(self) -> Option<u64> {
        match self {
            ParamView::Unsigned(n) => Some(n),
            _ => None,
        }
    }

    /// The number held, if the value is a number of either form.
    pub open spec fn spec_number(self) -> Option<Decimal> {
        match self {
            ParamView::Unsigned(n) => Some(Decimal::spec_whole(n as int)),
            ParamView::Number(d) => Some(d),
            _ => None,
        }
    }

    /// The decimal written in the text held, if the value is a text that
    /// reads as a decimal.
    pub open spec fn spec_decimal(self) -> Option<Decimal> {
        match self {
            ParamView::Text(s) => decimal_from_text(s),
            _ => None,
        }
    }
}

impl View for ParamValue {
    type V = ParamView;

    open spec fn view(&self) -> ParamView {
        match *self {
            ParamValue::Text(s) => ParamView::Text(s@),
            ParamValue::Unsigned(n) => ParamView::Unsigned(n),
            ParamValue::Number(d) => ParamView::Number(d),
            ParamValue::Other => ParamView::Other,
        }
    }
}

impl Clone for ParamValue {
    fn clone(&self) -> (r: ParamValue)
        ensures
            r == *self,
    {
        match self {
            ParamValue::Text(s) => ParamValue::Text(s.clone()),
            ParamValue::Unsigned(n) => ParamValue::Unsigned(*n),
            ParamValue::Number(d) => ParamValue::Number(*d),
            ParamValue::Other => ParamValue::Other,
        }
    }
}

impl ParamValue {
    /// A text value.
    pub fn text(s: &str) -> (r: ParamValue)
        ensures
            r@ == ParamView::Text(s@),
    {
        ParamValue::Text(String::from_str(s))
    }

    /// The text held, if the value is a text.
    pub fn as_text(&self) -> (r: Option<&str>)
        ensures
            match self@ {
                ParamView::Text(s) => r matches Some(t) && t@ == s,
                _ => r is None,
            },
    {
        match self {
            ParamValue::Text(s) => Some(s.as_str()),
            _ => None,
        }
    }

    /// The whole number held, if the value is one.
    pub fn as_u64(&self) -> (r: Option<u64>)
        ensures
            r == self@.spec_u64(),
    {
        match self {
            ParamValue::Unsigned(n) => Some(*n),
            _ => None,
        }
    }

    /// The number held, if the value is a number of either form.
    pub fn as_number(&self) -> (r: Option<Decimal>)
        ensures
            r == self@.spec_number(),
    {
        match self {
            ParamValue::Unsigned(n) => Some(Decimal::from_u64(*n)),
            ParamValue::Number(d) => Some(*d),
            _ => None,
        }
    }

    /// The decimal written in the text held, if the value is a text that
    /// reads as a decimal.
    pub fn as_decimal(&self) -> (r: Option<Decimal>)
        ensures
            r == self@.spec_decimal(),
    {
        match self {
            ParamValue::Text(s) => Decimal::parse(s.as_str()),
            _ => None,
        }
    }
}

/// The decimal written in the text under `key`, if there is such a text.
pub open spec fn decimal_param(p: Map<Seq<char>, ParamView>, key: Seq<char>) -> Option<Decimal> {
    if p.contains_key(key) {
        p[key].spec_decimal()
    } else {
        None
    }
}

/// The whole number under `key`, if there is one.
pub open spec fn unsigned_param(p: Map<Seq<char>, ParamView>, key: Seq<char>) -> Option<u64> {
    if p.contains_key(key) {
        p[key].spec_u64()
    } else {
        None
    }
}

/// The number under `key`, if there is one.
pub open spec fn number_param(p: Map<Seq<char>, ParamView>, key: Seq<char>) -> Option<Decimal> {
    if p.contains_key(key) {
        p[key].spec_number()
    } else {
        None
    }
}

/// A mapping from text keys to values. No key occurs twice.
#[derive(Debug)]
pub struct Parameters {
    entries: Vec<(String, ParamValue)>,
}

impl View for Parameters {
    type V = Map<Seq<char>, ParamView>;

    closed spec fn view(&self) -> Map<Seq<char>, ParamView> {
        Map::new(
            |k: Seq<char>| exists|i: int| 0 <= i < self.entries@.len() && self.entries@[i].0@ == k,
            |k: Seq<char>|
                self.entries@[choose|i: int|
                    0 <= i < self.entries@.len() && self.entries@[i].0@ == k].1@,
        )
    }
}

impl Clone for Parameters {
    fn clone(&self) -> (r: Parameters)
        ensures
            r@ == self@,
            r.spec_len() == self.spec_len(),
    {
        proof {
            use_type_invariant(self);
        }
        let mut entries: Vec<(String, ParamValue)> = Vec::new();
        let mut i: usize = 0;
        while i < self.entries.len()
            invariant
                0 <= i <= self.entries@.len(),
                entries@ == self.entries@.subrange(0, i as int),
            decreases self.entries@.len() - i,
        {
            let key = self.entries[i].0.clone();
            let value = self.entries[i].1.clone();
            entries.push((key, value));
            i = i + 1;
        }
        assert(entries@ == self.entries@);
        Parameters { entries }
    }
}

impl Parameters {
    #[verifier::type_invariant]
    spec fn distinct_keys(self) -> bool {
        forall|i: int, j: int|
            0 <= i < j < self.entries@.len() ==> self.entries@[i].0@ != self.entries@[j].0@
    }

    /// The number of keys.
    pub closed spec fn spec_len(self) -> nat {
        self.entries@.len()
    }


    /// The empty mapping.
    pub fn new() -> (r: Parameters)
        ensures
            r@ == Map::<Seq<char>, ParamView>::empty(),
            r.spec_len() == 0,
    {
        let r = Parameters { entries: Vec::new() };
        assert(r@ =~= Map::<Seq<char>, ParamView>::empty());
        r
    }

    /// The number of keys.
    pub fn len(&self) -> (r: usize)
        ensures
            r == self.spec_len(),
    {
        self.entries.len()
    }

    fn position(&self, key: &str) -> (r: Option<usize>)
        ensures
            match r {
                Some(i) => i < self.entries@.len() && self.entries@[i as int].0@ == key@
                    && self@.contains_key(key@) && self@[key@] == self.entries@[i as int].1@,
                None => !self@.contains_key(key@) && forall|j: int|
                    0 <= j < self.entries@.len() ==> self.entries@[j].0@ != key@,
            },
    {
        proof {
            use_type_invariant(self);
        }
        let mut i: usize = 0;
        while i < self.entries.len()
            invariant
                0 <= i <= self.entries@.len(),
                self.distinct_keys(),
                forall|j: int| 0 <= j < i ==> self.entries@[j].0@ != key@,
            decreases self.entries@.len() - i,
        {
            if same_text(self.entries[i].0.as_str(), key) {
                proof {
                    assert(self.entries@[i as int].0@ == key@);
                    let k = choose|k: int|
                        0 <= k < self.entries@.len() && self.entries@[k].0@ == key@;
                    if k < i {
                        assert(self.entries@[k].0@ != self.entries@[i as int].0@);
                    } else if i < k {
                        assert(self.entries@[i as int].0@ != self.entries@[k].0@);
                    }
                }
                return Some(i);
            }
            i = i + 1;
        }
        None
    }

    /// The value under `key`, if there is one.
    pub fn get(&self, key: &str) -> (r: Option<&ParamValue>)
        ensures
            match r {
                Some(v) => self@.contains_key(key@) && self@[key@] == v@,
                None => !self@.contains_key(key@),
            },
    {
        match self.position(key) {
            Some(i) => Some(&self.entries[i].1),
            None => None,
        }
    }

    /// The decimal written in the text under `key`, if there is such a text.
    pub fn decimal(&self, key: &str) -> (r: Option<Decimal>)
        ensures
            r == decimal_param(self@, key@),
    {
        match self.get(key) {
            Some(v) => v.as_decimal(),
            None => None,
        }
    }

    /// The whole number under `key`, if there is one.
    pub fn unsigned(&self, key: &str) -> (r: Option<u64>)
        ensures
            r == unsigned_param(self@, key@),
    {
        match self.get(key) {
            Some(v) => v.as_u64(),
            None => None,
        }
    }

    /// The number under `key`, if there is one.
    pub fn number(&self, key: &str) -> (r: Option<Decimal>)
        ensures
            r == number_param(self@, key@),
    {
        match self.get(key) {
            Some(v) => v.as_number(),
            None => None,
        }
    }

    /// Whether there is a value under `key`.
    pub fn contains_key(&self, key: &str) -> (r: bool)
        ensures
            r == self@.contains_key(key@),
    {
        self.position(key).is_some()
    }

    /// Puts `value` under `key`, in place of any value that was there.
    pub fn insert(&mut self, key: &str, value: ParamValue)
        ensures
            final(self)@ == old(self)@.insert(key@, value@),
    {
        proof {
            use_type_invariant(&*self);
        }
        let ghost before = self.entries@;
        let found = self.position(key);
        let stored = String::from_str(key);
        let mut entries: Vec<(String, ParamValue)> = Vec::new();
        std::mem::swap(&mut self.entries, &mut entries);
        match found {
            Some(i) => {
                entries.set(i, (stored, value));
            },
            None => {
                entries.push((stored, value));
            },
        }
        proof {
            let after = entries@;
            assert forall|a: int, b: int| 0 <= a < b < after.len() implies after[a].0@
                != after[b].0@ by {
                if b < before.len() {
                    assert(before[a].0@ != before[b].0@);
                }
            }
        }
        std::mem::swap(&mut self.entries, &mut entries);
        proof {
            let after = self.entries@;
            let m = old(self)@.insert(key@, value@);
            let at: int = match found {
                Some(i) => i as int,
                None => before.len() as int,
            };
            assert(after[at].0@ == key@ && after[at].1 == value);
            assert forall|k: Seq<char>| m.contains_key(k) <==> self@.contains_key(k) by {
                if m.contains_key(k) && k != key@ {
                    let w = choose|w: int| 0 <= w < before.len() && before[w].0@ == k;
                    assert(0 <= w < after.len() && after[w].0@ == k);
                }
                if self@.contains_key(k) && k != key@ {
                    let w = choose|w: int| 0 <= w < after.len() && after[w].0@ == k;
                    assert(0 <= w < before.len() && before[w].0@ == k);
                }
            }
            assert forall|k: Seq<char>| m.contains_key(k) implies m[k] == self@[k] by {
                let w = choose|w: int| 0 <= w < after.len() && after[w].0@ == k;
                if k != key@ {
                    let v = choose|v: int| 0 <= v < before.len() && before[v].0@ == k;
                    assert(after[v].0@ == k);
                    if v < w {
                        assert(after[v].0@ != after[w].0@);
                    } else if w < v {
                        assert(after[w].0@ != after[v].0@);
                    }
                } else {
                    if at < w {
                        assert(after[at].0@ != after[w].0@);
                    } else if w < at {
                        assert(after[w].0@ != after[at].0@);
                    }
                }
            }
            assert(self@ =~= m);
        }
    }
}

} // verus!
