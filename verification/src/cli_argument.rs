//! Parsing of command-line variable overrides of the form `KEY=value`.

use vstd::prelude::*;
use vstd::string::*;

verus! {

/// The position of the first `=` in the text, if any.
pub open spec fn eq_pos(s: Seq<char>) -> Option<nat>
    decreases s.len(),
{
    if s.len() == 0 {
        None
    } else if s[0] == '=' {
        Some(0)
    } else {
        match eq_pos(s.drop_first()) {
            Some(n) => Some((n + 1) as nat),
            None => None,
        }
    }
}

proof fn lemma_eq_pos_is_some(s: Seq<char>, p: int)
    requires
        0 <= p < s.len(),
        s[p] == '=',
        forall|j: int| 0 <= j < p ==> s[j] != '=',
    ensures
        eq_pos(s) == Some(p as nat),
    decreases s.len(),
{
    if p > 0 {
        assert(forall|j: int| 0 <= j < s.drop_first().len() ==> s.drop_first()[j] == s[j + 1]);
        lemma_eq_pos_is_some(s.drop_first(), p - 1);
    }
}

proof fn lemma_eq_pos_is_none(s: Seq<char>)
    requires
        forall|j: int| 0 <= j < s.len() ==> s[j] != '=',
    ensures
        eq_pos(s) is None,
    decreases s.len(),
{
    if s.len() > 0 {
        assert(forall|j: int| 0 <= j < s.drop_first().len() ==> s.drop_first()[j] == s[j + 1]);
        lemma_eq_pos_is_none(s.drop_first());
    }
}

/// Splits one `KEY=value` pair at its first `=`; text without an `=` is
/// refused with a message naming it.
pub fn parse_key_val(s: &str) -> (r: Result<(String, String), String>)
    ensures
        match r {
            Ok(kv) => eq_pos(s@) matches Some(p) && kv.0@ == s@.take(p as int) && kv.1@
                == s@.skip(p as int + 1),
            Err(m) => eq_pos(s@) is None && m@ == "invalid KEY=value: no `=` found in `"@ + s@
                + "`"@,
        },
{
    let len = s.unicode_len();
    let mut i: usize = 0;
    while i < len
        invariant
            len == s@.len(),
            i <= len,
            forall|j: int| 0 <= j < i ==> s@[j] != '=',
        decreases len - i,
    {
        if s.get_char(i) == '=' {
            proof {
                lemma_eq_pos_is_some(s@, i as int);
            }
            let key = s.substring_char(0, i);
            let value = s.substring_char(i + 1, len);
            return Ok((String::from_str(key), String::from_str(value)));
        }
        i = i + 1;
    }
    proof {
        lemma_eq_pos_is_none(s@);
    }
    let mut m = String::new();
    m.append("invalid KEY=value: no `=` found in `");
    m.append(s);
    m.append("`");
    proof {
        assert(m@ =~= "invalid KEY=value: no `=` found in `"@ + s@ + "`"@);
    }
    Err(m)
}

} // verus!
