//! Open structured values.
//!
//! Several fields of a workflow document (`on`, `runs-on`, `inputs`,
//! `context`, `stack`, `outputs`, `annotations`) have shapes that legitimately
//! vary by producer, so they are kept as a tagged union of
//! null / bool / integer / string / list / object rather than a fixed record.
//! An object keeps its entries in document order; an untrusted document may
//! repeat a key, and lookup then goes to the first occurrence.

use vstd::prelude::*;
use crate::strmap::{assoc_get, str_eq, lemma_assoc_get_first_match, lemma_assoc_get_none,
    lemma_assoc_get_remove_other};

verus! {

/// An open, dynamically shaped data value.
#[derive(Debug, PartialEq, Eq)]
pub enum Value {
    Null,
    Bool(bool),
    Int(i64),
    Str(String),
    List(Vec<Value>),
    Obj(Vec<(String, Value)>),
}

/// Removes and returns the value of the first entry with key `key`, leaving
/// every other entry, and so the lookup of every other key, unchanged.
pub fn take_entry(entries: &mut Vec<(String, Value)>, key: &str) -> (r: Option<Value>)
    ensures
        r is Some <==> assoc_get(old(entries)@, key@) is Some,
        r matches Some(v) ==> assoc_get(old(entries)@, key@) == Some(v),
        r is None ==> final(entries)@ == old(entries)@,
        forall|k: Seq<char>| k != key@ ==>
            assoc_get(final(entries)@, k) == assoc_get(old(entries)@, k),
{
    let n = entries.len();
    let mut i: usize = 0;
    while i < n
        invariant
            entries@ == old(entries)@,
            n == entries@.len(),
            i <= n,
            forall|j: int| 0 <= j < i ==> entries@[j].0@ != key@,
        decreases n - i,
    {
        if str_eq(entries[i].0.as_str(), key) {
            proof {
                lemma_assoc_get_first_match(entries@, i as int, key@);
            }
            let ghost before = entries@;
            let e = entries.remove(i);
            proof {
                assert forall|k: Seq<char>| k != key@ implies
                    assoc_get(entries@, k) == assoc_get(before, k) by {
                    lemma_assoc_get_remove_other(before, i as int, k);
                }
            }
            return Some(e.1);
        }
        i += 1;
    }
    proof {
        lemma_assoc_get_none(entries@, key@);
    }
    None
}

} // verus!
