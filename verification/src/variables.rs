//! Variable bindings and the substitution engine.
//!
//! A template may hold `{name}` placeholders, replaced by the binding of
//! `name` when one exists, and `{name|default}` placeholders, replaced by the
//! binding when one exists and by `default` otherwise.  Text that forms no
//! placeholder is left exactly as written.

use vstd::prelude::*;
use vstd::string::*;
use crate::strutil::str_eq;

verus! {

/// A mapping from variable names to string values.  Later additions of the
/// same name override earlier ones.
#[derive(Debug, PartialEq, Eq)]
pub struct StrMap {
    entries: Vec<(String, String)>,
}

/// The mapping described by a sequence of (name, value) pairs, later pairs
/// overriding earlier ones.
pub open spec fn pairs_map(ps: Seq<(Seq<char>, Seq<char>)>) -> Map<Seq<char>, Seq<char>>
    decreases ps.len(),
{
    if ps.len() == 0 {
        Map::empty()
    } else {
        pairs_map(ps.drop_last()).insert(ps.last().0, ps.last().1)
    }
}

proof fn lemma_pairs_map_no_key(ps: Seq<(Seq<char>, Seq<char>)>, name: Seq<char>)
    requires
        forall|j: int| 0 <= j < ps.len() ==> ps[j].0 != name,
    ensures
        !pairs_map(ps).contains_key(name),
    decreases ps.len(),
{
    if ps.len() > 0 {
        lemma_pairs_map_no_key(ps.drop_last(), name);
    }
}

proof fn lemma_pairs_map_last_key(ps: Seq<(Seq<char>, Seq<char>)>, i: int)
    requires
        0 <= i < ps.len(),
        forall|j: int| i < j < ps.len() ==> ps[j].0 != ps[i].0,
    ensures
        pairs_map(ps).contains_key(ps[i].0),
        pairs_map(ps)[ps[i].0] == ps[i].1,
    decreases ps.len(),
{
    if i + 1 < ps.len() {
        lemma_pairs_map_last_key(ps.drop_last(), i);
    }
}

impl View for StrMap {
    type V = Map<Seq<char>, Seq<char>>;

    open spec fn view(&self) -> Map<Seq<char>, Seq<char>> {
        pairs_map(self.pairs())
    }
}

impl StrMap {
    /// The bindings in the order they were added, as the contracts of
    /// iteration speak of them.
    pub closed spec fn pairs(&self) -> Seq<(Seq<char>, Seq<char>)> {
        self.entries@.map_values(|e: (String, String)| (e.0@, e.1@))
    }

    pub fn new() -> (r: StrMap)
        ensures
            r@ == Map::<Seq<char>, Seq<char>>::empty(),
            r.pairs() == Seq::<(Seq<char>, Seq<char>)>::empty(),
    {
        let r = StrMap { entries: Vec::new() };
        proof {
            assert(r.pairs() =~= Seq::<(Seq<char>, Seq<char>)>::empty());
        }
        r
    }

    pub fn len(&self) -> (r: usize)
        ensures
            r == self.pairs().len(),
    {
        self.entries.len()
    }

    /// Binds `name` to `value`, overriding any earlier binding of `name`.
    pub fn add_variable(&mut self, name: &str, value: &str)
        ensures
            final(self)@ == old(self)@.insert(name@, value@),
            final(self).pairs() == old(self).pairs().push((name@, value@)),
    {
        self.entries.push((String::from_str(name), String::from_str(value)));
        proof {
            assert(final(self).pairs() =~= old(self).pairs().push((name@, value@)));
            assert(final(self).pairs().drop_last() =~= old(self).pairs());
        }
    }

    /// The binding of `name`, if one exists.
    pub fn get<'a>(&'a self, name: &str) -> (r: Option<&'a String>)
        ensures
            match r {
                Some(v) => self@.contains_key(name@) && v@ == self@[name@],
                None => !self@.contains_key(name@),
            },
    {
        let n = self.entries.len();
        let mut i: usize = n;
        while i > 0
            invariant
                n == self.entries@.len(),
                i <= n,
                forall|j: int| i <= j < n ==> self.pairs()[j].0 != name@,
            decreases i,
        {
            i = i - 1;
            if str_eq(self.entries[i].0.as_str(), name) {
                proof {
                    lemma_pairs_map_last_key(self.pairs(), i as int);
                }
                return Some(&self.entries[i].1);
            }
        }
        proof {
            lemma_pairs_map_no_key(self.pairs(), name@);
        }
        None
    }

    pub fn contains_key(&self, name: &str) -> (r: bool)
        ensures
            r == self@.contains_key(name@),
    {
        self.get(name).is_some()
    }

    /// The pair at one position, for walking the bindings in order.
    pub fn pair_at<'a>(&'a self, i: usize) -> (r: (&'a String, &'a String))
        requires
            i < self.pairs().len(),
        ensures
            r.0@ == self.pairs()[i as int].0,
            r.1@ == self.pairs()[i as int].1,
    {
        (&self.entries[i].0, &self.entries[i].1)
    }

    /// Adds every binding of `other` to `self`, in order, so that `other`'s
    /// bindings override same-named ones of `self`.
    pub fn merge_from(&mut self, other: &StrMap)
        ensures
            final(self)@ == old(self)@.union_prefer_right(other@),
    {
        let n = other.entries.len();
        let mut i: usize = 0;
        while i < n
            invariant
                n == other.pairs().len(),
                i <= n,
                self@ == old(self)@.union_prefer_right(pairs_map(other.pairs().subrange(0, i as int))),
            decreases n - i,
        {
            let (name, value) = other.pair_at(i);
            let ghost prev = self@;
            self.add_variable(name.as_str(), value.as_str());
            proof {
                let ps = other.pairs().subrange(0, i + 1);
                assert(ps.drop_last() =~= other.pairs().subrange(0, i as int));
                assert(self@ =~= old(self)@.union_prefer_right(pairs_map(ps)));
            }
            i = i + 1;
        }
        proof {
            assert(other.pairs().subrange(0, n as int) =~= other.pairs());
        }
    }
}

/// Whether a character may appear in a placeholder name: a letter or an
/// underscore.  The numbers are the code points of a, z, A and Z.
pub open spec fn ident_char(c: char) -> bool {
    (97 <= c as u32 && c as u32 <= 122) || (65 <= c as u32 && c as u32 <= 90) || c == '_'
}

fn is_ident_char(c: char) -> (r: bool)
    ensures
        r == ident_char(c),
{
    (97 <= c as u32 && c as u32 <= 122) || (65 <= c as u32 && c as u32 <= 90) || c == '_'
}

/// The length of the longest prefix made of name characters.
pub open spec fn ident_len(s: Seq<char>) -> nat
    decreases s.len(),
{
    if s.len() > 0 && ident_char(s[0]) {
        (1 + ident_len(s.drop_first())) as nat
    } else {
        0
    }
}

proof fn lemma_ident_len_props(s: Seq<char>)
    ensures
        ident_len(s) <= s.len(),
        forall|j: int| 0 <= j < ident_len(s) ==> ident_char(s[j]),
        ident_len(s) < s.len() ==> !ident_char(s[ident_len(s) as int]),
    decreases s.len(),
{
    if s.len() > 0 && ident_char(s[0]) {
        lemma_ident_len_props(s.drop_first());
        assert(forall|j: int| 0 <= j < s.drop_first().len() ==> s.drop_first()[j] == s[j + 1]);
        assert forall|j: int| 0 <= j < ident_len(s) implies ident_char(s[j]) by {
            if j > 0 {
                assert(ident_char(s.drop_first()[j - 1]));
            }
        }
    }
}

proof fn lemma_ident_len_is(s: Seq<char>, n: int)
    requires
        0 <= n <= s.len(),
        forall|j: int| 0 <= j < n ==> ident_char(s[j]),
        n == s.len() || !ident_char(s[n]),
    ensures
        ident_len(s) == n,
    decreases s.len(),
{
    if s.len() > 0 && ident_char(s[0]) {
        assert(forall|j: int| 0 <= j < s.drop_first().len() ==> s.drop_first()[j] == s[j + 1]);
        lemma_ident_len_is(s.drop_first(), n - 1);
    }
}

/// How far the default text of a `{name|default}` placeholder reaches: the
/// number of characters before the first closing brace, or nothing when a
/// line break or the end of the text comes first.
pub open spec fn default_len(s: Seq<char>) -> Option<nat>
    decreases s.len(),
{
    if s.len() == 0 {
        None
    } else if s[0] == '}' {
        Some(0)
    } else if s[0] == '\n' {
        None
    } else {
        match default_len(s.drop_first()) {
            Some(n) => Some((n + 1) as nat),
            None => None,
        }
    }
}

proof fn lemma_default_len_props(s: Seq<char>)
    ensures
        match default_len(s) {
            Some(d) => d < s.len() && s[d as int] == '}' && forall|j: int|
                0 <= j < d ==> s[j] != '}' && s[j] != '\n',
            None => true,
        },
    decreases s.len(),
{
    if s.len() > 0 && s[0] != '}' && s[0] != '\n' {
        lemma_default_len_props(s.drop_first());
        assert(forall|j: int| 0 <= j < s.drop_first().len() ==> s.drop_first()[j] == s[j + 1]);
        if default_len(s) is Some {
            let d = default_len(s).unwrap();
            assert forall|j: int| 0 <= j < d implies s[j] != '}' && s[j] != '\n' by {
                if j > 0 {
                    assert(s.drop_first()[j - 1] != '}' && s.drop_first()[j - 1] != '\n');
                }
            }
        }
    }
}

proof fn lemma_default_len_is_some(s: Seq<char>, d: int)
    requires
        0 <= d < s.len(),
        s[d] == '}',
        forall|j: int| 0 <= j < d ==> s[j] != '}' && s[j] != '\n',
    ensures
        default_len(s) == Some(d as nat),
    decreases s.len(),
{
    if d > 0 {
        assert(forall|j: int| 0 <= j < s.drop_first().len() ==> s.drop_first()[j] == s[j + 1]);
        lemma_default_len_is_some(s.drop_first(), d - 1);
    }
}

proof fn lemma_default_len_is_none(s: Seq<char>, d: int)
    requires
        0 <= d <= s.len(),
        forall|j: int| 0 <= j < d ==> s[j] != '}' && s[j] != '\n',
        d == s.len() || s[d] == '\n',
    ensures
        default_len(s) is None,
    decreases s.len(),
{
    if s.len() > 0 && d > 0 && s[0] != '}' && s[0] != '\n' {
        assert(forall|j: int| 0 <= j < s.drop_first().len() ==> s.drop_first()[j] == s[j + 1]);
        lemma_default_len_is_none(s.drop_first(), d - 1);
    }
}

/// The meaning of substitution: the text is scanned left to right; at an
/// opening brace a placeholder is read as a name of letters and underscores
/// followed by a closing brace, or by a bar and a default reaching to the
/// next closing brace on the same line.  A `{name}` placeholder becomes the
/// binding of `name` when one exists and stays literal otherwise; a
/// `{name|default}` placeholder becomes the binding when one exists and the
/// default otherwise.  Everything else is copied unchanged.
pub open spec fn resolve_spec(s: Seq<char>, vars: Map<Seq<char>, Seq<char>>) -> Seq<char>
    decreases s.len(),
    via resolve_spec_decreases
{
    if s.len() == 0 {
        s
    } else if s[0] == '{' {
        let il = ident_len(s.skip(1)) as int;
        let name = s.subrange(1, 1 + il);
        if 1 + il < s.len() && s[1 + il] == '}' {
            let replaced = if vars.contains_key(name) {
                vars[name]
            } else {
                s.subrange(0, 2 + il)
            };
            replaced + resolve_spec(s.skip(2 + il), vars)
        } else if 1 + il < s.len() && s[1 + il] == '|' {
            match default_len(s.skip(2 + il)) {
                Some(dl) => {
                    let replaced = if vars.contains_key(name) {
                        vars[name]
                    } else {
                        s.subrange(2 + il, 2 + il + dl)
                    };
                    replaced + resolve_spec(s.skip(3 + il + dl), vars)
                },
                None => s.subrange(0, 1) + resolve_spec(s.skip(1), vars),
            }
        } else {
            s.subrange(0, 1) + resolve_spec(s.skip(1), vars)
        }
    } else {
        s.subrange(0, 1) + resolve_spec(s.skip(1), vars)
    }
}

#[via_fn]
proof fn resolve_spec_decreases(s: Seq<char>, vars: Map<Seq<char>, Seq<char>>) {
    if s.len() > 0 && s[0] == '{' {
        lemma_ident_len_props(s.skip(1));
        let il = ident_len(s.skip(1)) as int;
        if 1 + il < s.len() && s[1 + il] == '|' {
            lemma_default_len_props(s.skip(2 + il));
        }
    }
}

fn scan_ident(s: &str, from: usize) -> (l: usize)
    requires
        from <= s@.len(),
    ensures
        l == ident_len(s@.skip(from as int)),
        from + l <= s@.len(),
{
    let len = s.unicode_len();
    let mut i: usize = from;
    while i < len && is_ident_char(s.get_char(i))
        invariant
            len == s@.len(),
            from <= i <= len,
            forall|j: int| from <= j < i ==> ident_char(s@[j]),
        decreases len - i,
    {
        i = i + 1;
    }
    proof {
        let t = s@.skip(from as int);
        assert(forall|j: int| 0 <= j < t.len() ==> t[j] == s@[from + j]);
        lemma_ident_len_is(t, i - from);
    }
    i - from
}

fn scan_default(s: &str, from: usize) -> (r: Option<usize>)
    requires
        from <= s@.len(),
    ensures
        match r {
            Some(d) => default_len(s@.skip(from as int)) == Some(d as nat) && from + d
                < s@.len(),
            None => default_len(s@.skip(from as int)) is None,
        },
{
    let len = s.unicode_len();
    let mut i: usize = from;
    while i < len && s.get_char(i) != '}' && s.get_char(i) != '\n'
        invariant
            len == s@.len(),
            from <= i <= len,
            forall|j: int| from <= j < i ==> s@[j] != '}' && s@[j] != '\n',
        decreases len - i,
    {
        i = i + 1;
    }
    proof {
        let t = s@.skip(from as int);
        assert(forall|j: int| 0 <= j < t.len() ==> t[j] == s@[from + j]);
        if i < len && s@[i as int] == '}' {
            lemma_default_len_is_some(t, i - from);
        } else {
            lemma_default_len_is_none(t, i - from);
        }
    }
    if i < len && s.get_char(i) == '}' {
        Some(i - from)
    } else {
        None
    }
}

/// Replaces every placeholder of `text` by its meaning under `vars`.
pub fn resolve_variables(text: &str, vars: &StrMap) -> (r: String)
    ensures
        r@ == resolve_spec(text@, vars@),
{
    let len = text.unicode_len();
    let mut out = String::new();
    let mut i: usize = 0;
    proof {
        assert(text@.skip(0) =~= text@);
        assert(Seq::<char>::empty() + resolve_spec(text@, vars@) =~= resolve_spec(text@, vars@));
    }
    while i < len
        invariant
            len == text@.len(),
            i <= len,
            out@ + resolve_spec(text@.skip(i as int), vars@) == resolve_spec(text@, vars@),
        decreases len - i,
    {
        let ghost suffix = text@.skip(i as int);
        proof {
            assert(forall|j: int| 0 <= j < suffix.len() ==> suffix[j] == text@[i + j]);
        }
        let c = text.get_char(i);
        if c == '{' {
            let il = scan_ident(text, i + 1);
            proof {
                assert(suffix.skip(1) =~= text@.skip(i + 1));
            }
            let k = i + 1 + il;
            if k < len && text.get_char(k) == '}' {
                let name = text.substring_char(i + 1, k);
                proof {
                    assert(name@ =~= suffix.subrange(1, 1 + il as int));
                    assert(suffix.skip(2 + il as int) =~= text@.skip(k + 1));
                }
                match vars.get(name) {
                    Some(v) => out.append(v.as_str()),
                    None => {
                        let literal = text.substring_char(i, k + 1);
                        proof {
                            assert(literal@ =~= suffix.subrange(0, 2 + il as int));
                        }
                        out.append(literal);
                    },
                }
                i = k + 1;
            } else if k < len && text.get_char(k) == '|' {
                proof {
                    assert(suffix.skip(2 + il as int) =~= text@.skip(k + 1));
                }
                match scan_default(text, k + 1) {
                    Some(dl) => {
                        let m = k + 1 + dl;
                        let name = text.substring_char(i + 1, k);
                        proof {
                            assert(name@ =~= suffix.subrange(1, 1 + il as int));
                            assert(suffix.skip(3 + il as int + dl as int) =~= text@.skip(
                                m + 1,
                            ));
                        }
                        match vars.get(name) {
                            Some(v) => out.append(v.as_str()),
                            None => {
                                let default_text = text.substring_char(k + 1, m);
                                proof {
                                    assert(default_text@ =~= suffix.subrange(
                                        2 + il as int,
                                        2 + il as int + dl as int,
                                    ));
                                }
                                out.append(default_text);
                            },
                        }
                        i = m + 1;
                    },
                    None => {
                        let literal = text.substring_char(i, i + 1);
                        proof {
                            assert(literal@ =~= suffix.subrange(0, 1));
                            assert(suffix.skip(1) =~= text@.skip(i + 1));
                        }
                        out.append(literal);
                        i = i + 1;
                    },
                }
            } else {
                let literal = text.substring_char(i, i + 1);
                proof {
                    assert(literal@ =~= suffix.subrange(0, 1));
                    assert(suffix.skip(1) =~= text@.skip(i + 1));
                }
                out.append(literal);
                i = i + 1;
            }
        } else {
            let literal = text.substring_char(i, i + 1);
            proof {
                assert(literal@ =~= suffix.subrange(0, 1));
                assert(suffix.skip(1) =~= text@.skip(i + 1));
            }
            out.append(literal);
            i = i + 1;
        }
    }
    proof {
        assert(text@.skip(len as int) =~= Seq::<char>::empty());
        assert(out@ + Seq::<char>::empty() =~= out@);
    }
    out
}

/// Whether a placeholder (with or without a default) begins at position `i`.
pub open spec fn placeholder_at(s: Seq<char>, i: int) -> bool {
    &&& 0 <= i < s.len()
    &&& s[i] == '{'
    &&& {
        let il = ident_len(s.skip(i + 1)) as int;
        ||| (i + 1 + il < s.len() && s[i + 1 + il] == '}')
        ||| (i + 1 + il < s.len() && s[i + 1 + il] == '|' && default_len(s.skip(i + 2 + il))
            is Some)
    }
}

proof fn lemma_placeholder_shift(s: Seq<char>, k: int, i: int)
    requires
        0 <= k <= s.len(),
        0 <= i,
    ensures
        placeholder_at(s.skip(k), i) == placeholder_at(s, k + i),
{
    let t = s.skip(k);
    if i < t.len() {
        assert(t[i] == s[k + i]);
        assert(t.skip(i + 1) =~= s.skip(k + i + 1));
        let il = ident_len(t.skip(i + 1)) as int;
        lemma_ident_len_props(t.skip(i + 1));
        if i + 1 + il < t.len() {
            assert(t[i + 1 + il] == s[k + i + 1 + il]);
            if t[i + 1 + il] == '|' {
                assert(t.skip(i + 2 + il) =~= s.skip(k + i + 2 + il));
            }
        }
    }
}

/// Substitution leaves a text without placeholders exactly as it is.
pub proof fn lemma_resolve_without_placeholders(s: Seq<char>, vars: Map<Seq<char>, Seq<char>>)
    requires
        forall|i: int| !placeholder_at(s, i),
    ensures
        resolve_spec(s, vars) == s,
    decreases s.len(),
{
    if s.len() > 0 {
        assert(!placeholder_at(s, 0));
        assert forall|i: int| !placeholder_at(s.skip(1), i) by {
            if i >= 0 {
                lemma_placeholder_shift(s, 1, i);
            }
        }
        lemma_resolve_without_placeholders(s.skip(1), vars);
        assert(s.subrange(0, 1) + s.skip(1) =~= s);
    }
}

/// A text that is one `{name}` placeholder resolves to the binding of
/// `name` whenever one exists.
pub proof fn lemma_resolve_single_placeholder(name: Seq<char>, vars: Map<Seq<char>, Seq<char>>)
    requires
        vars.contains_key(name),
        forall|j: int| 0 <= j < name.len() ==> ident_char(name[j]),
    ensures
        resolve_spec(seq!['{'] + name + seq!['}'], vars) == vars[name],
{
    let s = seq!['{'] + name + seq!['}'];
    assert(s.len() == name.len() + 2);
    assert(s[0] == '{');
    let t = s.skip(1);
    assert(t =~= name + seq!['}']);
    assert(forall|j: int| 0 <= j < name.len() ==> t[j] == name[j]);
    assert(!ident_char('}')) by {
        assert('}' as u32 == 125);
    }
    lemma_ident_len_is(t, name.len() as int);
    let il = ident_len(t) as int;
    assert(il == name.len());
    assert(s[1 + il] == '}');
    assert(s.subrange(1, 1 + il) =~= name);
    assert(s.skip(2 + il) =~= Seq::<char>::empty());
    assert(resolve_spec(s, vars) == vars[name] + resolve_spec(Seq::<char>::empty(), vars));
    assert(vars[name] + Seq::<char>::empty() =~= vars[name]);
}

} // verus!
