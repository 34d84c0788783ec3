//! The self-describing structured document the external compiler produces.
//!
//! A document value is a tree of nulls, booleans, non-negative integers,
//! strings, arrays and objects; an object is an ordered list of keyed
//! entries. Field lookup finds the first entry with the wanted key, so a
//! later duplicate or an unrecognized extra field is ignored.

use vstd::prelude::*;

verus! {

/// One fragment of a structured document.
#[derive(Debug, PartialEq, Eq)]
pub enum Value {
    /// An explicit null.
    Null,
    /// A boolean.
    Bool(bool),
    /// A non-negative integer.
    Int(u64),
    /// A string.
    Str(String),
    /// An ordered array of fragments.
    Arr(Vec<Value>),
    /// An object: an ordered list of keyed entries.
    Obj(Vec<Entry>),
}

/// One keyed entry of an object.
#[derive(Debug, PartialEq, Eq)]
pub struct Entry {
    /// The field's name.
    pub key: String,
    /// The field's value.
    pub value: Value,
}

/// The value of the first entry of `entries` whose key reads `k`, if any.
pub open spec fn spec_get(entries: Seq<Entry>, k: Seq<char>) -> Option<Value>
    decreases entries.len(),
{
    if entries.len() == 0 {
        None
    } else if entries[0].key@ == k {
        Some(entries[0].value)
    } else {
        spec_get(entries.drop_first(), k)
    }
}

/// Whether two strings hold the same characters.
pub fn str_eq(a: &str, b: &str) -> (r: bool)
    ensures
        r == (a@ == b@),
{
    let n = a.unicode_len();
    let m = b.unicode_len();
    if n != m {
        proof {
            assert(a@ != b@);
        }
        return false;
    }
    let mut i: usize = 0;
    while i < n
        invariant
            i <= n,
            n == a@.len(),
            n == b@.len(),
            forall|k: int| 0 <= k < i ==> a@[k] == b@[k],
        decreases n - i,
    {
        if a.get_char(i) != b.get_char(i) {
            return false;
        }
        i += 1;
    }
    proof {
        assert(a@ =~= b@);
    }
    true
}

/// Borrow the value of the first entry of `entries` whose key reads `k`.
pub fn get_field<'a>(entries: &'a Vec<Entry>, k: &str) -> (r: Option<&'a Value>)
    ensures
        match r {
            Some(v) => spec_get(entries@, k@) == Some(*v),
            None => spec_get(entries@, k@) is None,
        },
{
    let ghost es = entries@;
    proof {
        assert(es.skip(0) =~= es);
    }
    let mut i: usize = 0;
    while i < entries.len()
        invariant
            i <= es.len(),
            es == entries@,
            spec_get(es, k@) == spec_get(es.skip(i as int), k@),
        decreases es.len() - i,
    {
        proof {
            assert(es.skip(i as int)[0] == es[i as int]);
            assert(es.skip(i as int).drop_first() =~= es.skip(i + 1));
        }
        if str_eq(entries[i].key.as_str(), k) {
            return Some(&entries[i].value);
        }
        i += 1;
    }
    proof {
        assert(es.skip(es.len() as int) =~= Seq::<Entry>::empty());
    }
    None
}

} // verus!
