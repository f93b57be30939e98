//! String comparison helpers shared by the schema compiler: exact equality of
//! two string slices, lexicographic ordering of keys, and lookup of a key in a
//! sorted association list.

use vstd::prelude::*;

verus! {

use vstd::string::StrSliceExecFns;

/// Strict lexicographic order on character sequences, by code point.
pub open spec fn lex_lt(a: Seq<char>, b: Seq<char>) -> bool
    decreases a.len(),
{
    if b.len() == 0 {
        false
    } else if a.len() == 0 {
        true
    } else if (a[0] as u32) < (b[0] as u32) {
        true
    } else if a[0] == b[0] {
        lex_lt(a.skip(1), b.skip(1))
    } else {
        false
    }
}

/// The keys of an association list are strictly ascending (hence unique):
/// the list represents a mapping iterated in sorted key order.
pub open spec fn keys_sorted<T>(s: Seq<(String, T)>) -> bool {
    forall|i: int, j: int|
        0 <= i < j < s.len() ==> lex_lt((#[trigger] s[i]).0@, (#[trigger] s[j]).0@)
}

/// Some entry of the association list carries the given key.
pub open spec fn key_present<T>(key: Seq<char>, s: Seq<(String, T)>) -> bool {
    exists|i: int| 0 <= i < s.len() && (#[trigger] s[i]).0@ == key
}

/// Two string slices hold the same characters.
pub fn str_eq(a: &str, b: &str) -> (r: bool)
    ensures
        r == (a@ == b@),
{
    let alen = a.unicode_len();
    let blen = b.unicode_len();
    if alen != blen {
        return false;
    }
    let mut i: usize = 0;
    while i < alen
        invariant
            alen == a@.len(),
            blen == b@.len(),
            alen == blen,
            0 <= i <= alen,
            forall|j: int| 0 <= j < i ==> a@[j] == b@[j],
        decreases alen - i,
    {
        if a.get_char(i) != b.get_char(i) {
            return false;
        }
        i += 1;
    }
    proof {
        assert(a@ =~= b@);
    }
    true
}

/// Whether `key` occurs among the keys of the association list `s`.
pub fn contains_key<T>(s: &Vec<(String, T)>, key: &str) -> (r: bool)
    ensures
        r == key_present(key@, s@),
{
    let mut i: usize = 0;
    while i < s.len()
        invariant
            0 <= i <= s@.len(),
            forall|j: int| 0 <= j < i ==> (#[trigger] s@[j]).0@ != key@,
        decreases s@.len() - i,
    {
        if str_eq(s[i].0.as_str(), key) {
            return true;
        }
        i += 1;
    }
    false
}

} // verus!
