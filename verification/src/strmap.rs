//! String-keyed maps kept as ordered entry lists.
//!
//! Mappings in workflow documents are ordered and may, in an untrusted
//! document, repeat a key. The map type therefore stores its entries as a
//! sequence of pairs: lookup returns the first entry with a matching key,
//! insertion appends, and [`unique_keys`] states the well-formedness
//! condition that a validated mapping has no repeated key.

use vstd::prelude::*;

verus! {

/// First-match lookup in a sequence of key/value entries.
pub open spec fn assoc_get<V>(s: Seq<(String, V)>, k: Seq<char>) -> Option<V>
    decreases s.len(),
{
    if s.len() == 0 {
        None
    } else if s[0].0@ == k {
        Some(s[0].1)
    } else {
        assoc_get(s.drop_first(), k)
    }
}

/// Whether some entry of `s` has key `k`.
pub open spec fn assoc_has_key<V>(s: Seq<(String, V)>, k: Seq<char>) -> bool {
    exists|i: int| 0 <= i < s.len() && s[i].0@ == k
}

/// No two entries of `s` share a key.
pub open spec fn unique_keys<V>(s: Seq<(String, V)>) -> bool {
    forall|i: int, j: int| 0 <= i < j < s.len() ==> s[i].0@ != s[j].0@
}

/// Lookup succeeds exactly when some entry carries the key.
pub proof fn lemma_assoc_get_some_iff_has_key<V>(s: Seq<(String, V)>, k: Seq<char>)
    ensures
        assoc_get(s, k) is Some <==> assoc_has_key(s, k),
    decreases s.len(),
{
    if s.len() != 0 {
        if s[0].0@ == k {
            assert(assoc_has_key(s, k));
        } else {
            lemma_assoc_get_some_iff_has_key(s.drop_first(), k);
            if assoc_has_key(s.drop_first(), k) {
                let i = choose|i: int|
                    0 <= i < s.drop_first().len() && s.drop_first()[i].0@ == k;
                assert(s[i + 1].0@ == k);
            }
            if assoc_has_key(s, k) {
                let i = choose|i: int| 0 <= i < s.len() && s[i].0@ == k;
                assert(s.drop_first()[i - 1].0@ == k);
            }
        }
    }
}

/// When entry `i` is the first with key `k`, lookup returns its value.
pub proof fn lemma_assoc_get_first_match<V>(s: Seq<(String, V)>, i: int, k: Seq<char>)
    requires
        0 <= i < s.len(),
        s[i].0@ == k,
        forall|j: int| 0 <= j < i ==> s[j].0@ != k,
    ensures
        assoc_get(s, k) == Some(s[i].1),
    decreases i,
{
    if i > 0 {
        lemma_assoc_get_first_match(s.drop_first(), i - 1, k);
    }
}

/// When no entry has key `k`, lookup returns nothing.
pub proof fn lemma_assoc_get_none<V>(s: Seq<(String, V)>, k: Seq<char>)
    requires
        forall|j: int| 0 <= j < s.len() ==> s[j].0@ != k,
    ensures
        assoc_get(s, k) is None,
{
    lemma_assoc_get_some_iff_has_key(s, k);
}

/// Removing an entry whose key is not `k` leaves lookup of `k` unchanged.
pub proof fn lemma_assoc_get_remove_other<V>(s: Seq<(String, V)>, i: int, k: Seq<char>)
    requires
        0 <= i < s.len(),
        s[i].0@ != k,
    ensures
        assoc_get(s.remove(i), k) == assoc_get(s, k),
    decreases s.len(),
{
    if i == 0 {
        assert(s.remove(0) =~= s.drop_first());
    } else {
        assert(s.remove(i)[0] == s[0]);
        assert(s.remove(i).drop_first() =~= s.drop_first().remove(i - 1));
        if s[0].0@ != k {
            lemma_assoc_get_remove_other(s.drop_first(), i - 1, k);
        }
    }
}

/// Content equality of two string slices.
pub fn str_eq(a: &str, b: &str) -> (r: bool)
    ensures
        r == (a@ == b@),
{
    let sa: String = a.to_owned();
    let sb: String = b.to_owned();
    sa.eq(&sb)
}

/// A string-keyed map as an ordered list of entries. Lookup returns the
/// first entry with the key; a well-formed map ([`StrMap::wf`]) has no
/// repeated key, but untrusted documents may produce one that does.
#[derive(Debug, PartialEq, Eq)]
pub struct StrMap<V> {
    pub entries: Vec<(String, V)>,
}

impl<V> StrMap<V> {
    /// The value at key `k`: the first matching entry's, if any.
    pub open spec fn spec_get(self, k: Seq<char>) -> Option<V> {
        assoc_get(self.entries@, k)
    }

    /// Whether any entry carries key `k`.
    pub open spec fn spec_has_key(self, k: Seq<char>) -> bool {
        assoc_has_key(self.entries@, k)
    }

    /// Well-formedness: no two entries share a key.
    pub open spec fn wf(self) -> bool {
        unique_keys(self.entries@)
    }

    /// Number of entries (repeated keys count separately).
    pub open spec fn spec_len(self) -> nat {
        self.entries@.len()
    }

    /// The empty map.
    pub fn new() -> (r: StrMap<V>)
        ensures
            r.entries@ == Seq::<(String, V)>::empty(),
    {
        StrMap { entries: Vec::new() }
    }

    /// Number of entries.
    pub fn len(&self) -> (r: usize)
        ensures
            r == self.spec_len(),
    {
        self.entries.len()
    }

    /// Appends an entry. An existing entry with the same key stays and
    /// remains the one that lookup returns.
    pub fn push(&mut self, k: String, v: V)
        ensures
            final(self).entries@ == old(self).entries@.push((k, v)),
    {
        self.entries.push((k, v));
    }

    /// The value at key `k`, by first match.
    pub fn get<'a>(&'a self, k: &str) -> (r: Option<&'a V>)
        ensures
            r is Some <==> self.spec_get(k@) is Some,
            r matches Some(x) ==> self.spec_get(k@) == Some(*x),
    {
        let n = self.entries.len();
        let mut i: usize = 0;
        while i < n
            invariant
                n == self.entries@.len(),
                i <= n,
                forall|j: int| 0 <= j < i ==> self.entries@[j].0@ != k@,
            decreases n - i,
        {
            if str_eq(self.entries[i].0.as_str(), k) {
                proof {
                    lemma_assoc_get_first_match(self.entries@, i as int, k@);
                }
                return Some(&self.entries[i].1);
            }
            i += 1;
        }
        proof {
            lemma_assoc_get_none(self.entries@, k@);
        }
        None
    }

    /// Whether the map has an entry at key `k`.
    pub fn contains_key(&self, k: &str) -> (r: bool)
        ensures
            r == self.spec_has_key(k@),
    {
        proof {
            lemma_assoc_get_some_iff_has_key(self.entries@, k@);
        }
        self.get(k).is_some()
    }
}

} // verus!
