//! The library's own model of a parsed declaration document: a tree of plain
//! values mirroring what YAML can hold.  The surrounding application parses
//! the document text and hands the library such a tree; all validation logic
//! here is on this type alone.

use vstd::prelude::*;
use vstd::string::*;
use crate::strutil::{dec_str_i64, i64_to_string, str_eq};

verus! {

broadcast use
    vstd::seq::axiom_seq_index_decreases,
    vstd::std_specs::vec::axiom_vec_decreases_to_view,
    vstd::std_specs::vec::axiom_vec_index_decreases;

/// One node of a declaration document.
#[derive(Debug, PartialEq, Eq)]
#[verifier::ext_equal]
pub enum Value {
    Null,
    Bool(bool),
    Number(i64),
    Str(String),
    Sequence(Vec<Value>),
    Mapping(ValueMap),
}

/// An ordered mapping of values, as a document writes it down.  Lookups by a
/// string key return the first entry whose key is that string.
#[derive(Debug, PartialEq, Eq)]
#[verifier::ext_equal]
pub struct ValueMap {
    pub entries: Vec<(Value, Value)>,
}

/// Structural equivalence of two values: the same shape, with strings
/// compared by their characters.
pub open spec fn veq(a: Value, b: Value) -> bool
    decreases a,
{
    match (a, b) {
        (Value::Null, Value::Null) => true,
        (Value::Bool(x), Value::Bool(y)) => x == y,
        (Value::Number(x), Value::Number(y)) => x == y,
        (Value::Str(x), Value::Str(y)) => x@ == y@,
        (Value::Sequence(x), Value::Sequence(y)) => {
            &&& x@.len() == y@.len()
            &&& forall|i: int| 0 <= i < x@.len() ==> veq(x@[i], y@[i])
        },
        (Value::Mapping(x), Value::Mapping(y)) => {
            &&& x.entries@.len() == y.entries@.len()
            &&& forall|i: int|
                0 <= i < x.entries@.len() ==> veq(x.entries@[i].0, y.entries@[i].0) && veq(
                    x.entries@[i].1,
                    y.entries@[i].1,
                )
        },
        _ => false,
    }
}

/// Structural equivalence of two mappings, entry by entry.
pub open spec fn map_veq(a: ValueMap, b: ValueMap) -> bool {
    veq(Value::Mapping(a), Value::Mapping(b))
}

/// Copies a value; the copy is structurally equivalent to its source.
#[verifier::loop_isolation(false)]
pub fn copy_value(v: &Value) -> (r: Value)
    ensures
        veq(r, *v),
    decreases *v,
{
    match v {
        Value::Null => Value::Null,
        Value::Bool(b) => Value::Bool(*b),
        Value::Number(n) => Value::Number(*n),
        Value::Str(s) => Value::Str(s.clone()),
        Value::Sequence(items) => {
            let n = items.len();
            let mut out: Vec<Value> = Vec::new();
            let mut i: usize = 0;
            while i < n
                invariant
                    n == items@.len(),
                    i <= n,
                    out@.len() == i,
                    forall|j: int| 0 <= j < i ==> veq(out@[j], items@[j]),
                    *v == Value::Sequence(*items),
                decreases n - i,
            {
                out.push(copy_value(&items[i]));
                i = i + 1;
            }
            Value::Sequence(out)
        },
        Value::Mapping(m) => Value::Mapping(copy_map(m)),
    }
}

/// Copies a mapping; the copy is structurally equivalent to its source.
#[verifier::loop_isolation(false)]
pub fn copy_map(m: &ValueMap) -> (r: ValueMap)
    ensures
        map_veq(r, *m),
    decreases *m,
{
    let n = m.entries.len();
    let mut out: Vec<(Value, Value)> = Vec::new();
    let mut i: usize = 0;
    while i < n
        invariant
            n == m.entries@.len(),
            i <= n,
            out@.len() == i,
            forall|j: int|
                0 <= j < i ==> veq(out@[j].0, m.entries@[j].0) && veq(out@[j].1, m.entries@[j].1),
        decreases n - i,
    {
        let k = copy_value(&m.entries[i].0);
        let val = copy_value(&m.entries[i].1);
        out.push((k, val));
        i = i + 1;
    }
    ValueMap { entries: out }
}

/// Whether `v` is the string key `key`.
pub open spec fn is_str_key(v: Value, key: Seq<char>) -> bool {
    v matches Value::Str(s) && s@ == key
}

/// The value of the first entry whose key is the string `key`, if any.
pub open spec fn find_str_key(entries: Seq<(Value, Value)>, key: Seq<char>) -> Option<Value>
    decreases entries.len(),
{
    if entries.len() == 0 {
        None
    } else if is_str_key(entries[0].0, key) {
        Some(entries[0].1)
    } else {
        find_str_key(entries.drop_first(), key)
    }
}

proof fn lemma_find_str_key_none(entries: Seq<(Value, Value)>, key: Seq<char>)
    requires
        forall|j: int| 0 <= j < entries.len() ==> !is_str_key(entries[j].0, key),
    ensures
        find_str_key(entries, key) is None,
    decreases entries.len(),
{
    if entries.len() > 0 {
        assert(forall|j: int|
            0 <= j < entries.drop_first().len() ==> entries.drop_first()[j] == entries[j + 1]);
        lemma_find_str_key_none(entries.drop_first(), key);
    }
}

proof fn lemma_find_str_key_at(entries: Seq<(Value, Value)>, key: Seq<char>, i: int)
    requires
        0 <= i < entries.len(),
        is_str_key(entries[i].0, key),
        forall|j: int| 0 <= j < i ==> !is_str_key(entries[j].0, key),
    ensures
        find_str_key(entries, key) == Some(entries[i].1),
    decreases entries.len(),
{
    if i > 0 {
        assert(forall|j: int|
            0 <= j < entries.drop_first().len() ==> entries.drop_first()[j] == entries[j + 1]);
        lemma_find_str_key_at(entries.drop_first(), key, i - 1);
    }
}

impl ValueMap {
    /// The lookup that the specifications speak of.
    pub open spec fn spec_get(&self, key: Seq<char>) -> Option<Value> {
        find_str_key(self.entries@, key)
    }

    pub fn new() -> (r: ValueMap)
        ensures
            r.entries@.len() == 0,
    {
        ValueMap { entries: Vec::new() }
    }

    pub fn len(&self) -> (r: usize)
        ensures
            r == self.entries@.len(),
    {
        self.entries.len()
    }

    pub fn is_empty(&self) -> (r: bool)
        ensures
            r == (self.entries@.len() == 0),
    {
        self.entries.len() == 0
    }

    /// The first entry whose key is the string `key`, if any.
    pub fn get<'a>(&'a self, key: &str) -> (r: Option<&'a Value>)
        ensures
            match r {
                Some(v) => self.spec_get(key@) == Some(*v),
                None => self.spec_get(key@) is None,
            },
    {
        let n = self.entries.len();
        let mut i: usize = 0;
        while i < n
            invariant
                n == self.entries@.len(),
                i <= n,
                forall|j: int| 0 <= j < i ==> !is_str_key(self.entries@[j].0, key@),
            decreases n - i,
        {
            match &self.entries[i].0 {
                Value::Str(s) => {
                    if str_eq(s.as_str(), key) {
                        proof {
                            lemma_find_str_key_at(self.entries@, key@, i as int);
                        }
                        return Some(&self.entries[i].1);
                    }
                },
                _ => {},
            }
            i = i + 1;
        }
        proof {
            lemma_find_str_key_none(self.entries@, key@);
        }
        None
    }

    pub fn contains_key(&self, key: &str) -> (r: bool)
        ensures
            r == (self.spec_get(key@) is Some),
    {
        self.get(key).is_some()
    }

    /// Appends one entry at the end of the mapping.
    pub fn push_entry(&mut self, key: Value, value: Value)
        ensures
            final(self).entries@ == old(self).entries@.push((key, value)),
    {
        self.entries.push((key, value));
    }
}

impl Value {
    /// The string this value holds, if it is a string.
    pub fn as_str<'a>(&'a self) -> (r: Option<&'a String>)
        ensures
            match r {
                Some(s) => *self == Value::Str(*s),
                None => !(*self matches Value::Str(_)),
            },
    {
        match self {
            Value::Str(s) => Some(s),
            _ => None,
        }
    }

    /// The mapping this value holds, if it is a mapping.
    pub fn as_mapping<'a>(&'a self) -> (r: Option<&'a ValueMap>)
        ensures
            match r {
                Some(m) => *self == Value::Mapping(*m),
                None => !(*self matches Value::Mapping(_)),
            },
    {
        match self {
            Value::Mapping(m) => Some(m),
            _ => None,
        }
    }

    /// The sequence this value holds, if it is a sequence.
    pub fn as_sequence<'a>(&'a self) -> (r: Option<&'a Vec<Value>>)
        ensures
            match r {
                Some(items) => *self == Value::Sequence(*items),
                None => !(*self matches Value::Sequence(_)),
            },
    {
        match self {
            Value::Sequence(items) => Some(items),
            _ => None,
        }
    }

    /// The non-negative number this value holds, if any.
    pub fn as_u64(&self) -> (r: Option<u64>)
        ensures
            match r {
                Some(n) => *self matches Value::Number(m) && m >= 0 && n == m as u64,
                None => !(*self matches Value::Number(m) && m >= 0),
            },
    {
        match self {
            Value::Number(n) => {
                if *n >= 0 {
                    Some(*n as u64)
                } else {
                    None
                }
            },
            _ => None,
        }
    }

    /// How a scalar value is named in error messages: the shape of the value
    /// followed by its content in parentheses.
    pub open spec fn spec_describe(self) -> Seq<char> {
        match self {
            Value::Null => "Null"@,
            Value::Bool(b) => if b {
                "Bool(true)"@
            } else {
                "Bool(false)"@
            },
            Value::Number(n) => "Number("@ + dec_str_i64(n as int) + ")"@,
            Value::Str(s) => "String(\""@ + s@ + "\")"@,
            Value::Sequence(_) => "Sequence"@,
            Value::Mapping(_) => "Mapping"@,
        }
    }

    /// Renders the value for error messages.
    pub fn describe(&self) -> (r: String)
        ensures
            r@ == self.spec_describe(),
    {
        match self {
            Value::Null => {
                let mut s = String::new();
                s.append("Null");
                proof {
                    assert(s@ =~= self.spec_describe());
                }
                s
            },
            Value::Bool(b) => {
                let mut s = String::new();
                if *b {
                    s.append("Bool(true)");
                } else {
                    s.append("Bool(false)");
                }
                proof {
                    assert(s@ =~= self.spec_describe());
                }
                s
            },
            Value::Number(n) => {
                let mut s = String::new();
                s.append("Number(");
                let digits = i64_to_string(*n);
                s.append(digits.as_str());
                s.append(")");
                proof {
                    assert(s@ =~= self.spec_describe());
                }
                s
            },
            Value::Str(inner) => {
                let mut s = String::new();
                s.append("String(\"");
                s.append(inner.as_str());
                s.append("\")");
                proof {
                    assert(s@ =~= self.spec_describe());
                }
                s
            },
            Value::Sequence(_) => {
                let mut s = String::new();
                s.append("Sequence");
                proof {
                    assert(s@ =~= self.spec_describe());
                }
                s
            },
            Value::Mapping(_) => {
                let mut s = String::new();
                s.append("Mapping");
                proof {
                    assert(s@ =~= self.spec_describe());
                }
                s
            },
        }
    }
}

} // verus!
