//! Storage and aggregate strategy resolvers: two closed enumerations, each
//! with a canonical string token per variant and a token-to-variant lookup.
//! An unrecognized token resolves to nothing; the full ordered token lists
//! back the user-facing diagnostics.

use vstd::prelude::*;

verus! {

use vstd::string::StringExecFns;
use crate::strutil::str_eq;

/// The collection shape chosen to hold a component's data across entities:
/// dense-index-backed, hash-backed, or ordered-tree-backed.
#[derive(Clone, Copy, Debug, PartialEq, Eq, Structural)]
pub enum StorageType {
    Vector,
    Hash,
    BTree,
}

/// The function used to combine a component field's values within a
/// spatial-hash cell.
#[derive(Clone, Copy, Debug, PartialEq, Eq, Structural)]
pub enum AggregateType {
    Total,
    Count,
    Max,
}

/// The canonical token of a storage strategy.
pub open spec fn spec_storage_token(t: StorageType) -> Seq<char> {
    match t {
        StorageType::Vector => "vector"@,
        StorageType::Hash => "hash"@,
        StorageType::BTree => "btree"@,
    }
}

/// The storage strategy a token resolves to, if any.
pub open spec fn spec_storage_from_token(s: Seq<char>) -> Option<StorageType> {
    if s == "vector"@ {
        Some(StorageType::Vector)
    } else if s == "hash"@ {
        Some(StorageType::Hash)
    } else if s == "btree"@ {
        Some(StorageType::BTree)
    } else {
        None
    }
}

/// The ordered list of valid storage tokens.
pub open spec fn spec_storage_tokens() -> Seq<Seq<char>> {
    seq!["vector"@, "hash"@, "btree"@]
}

/// The canonical token of an aggregate strategy.
pub open spec fn spec_aggregate_token(t: AggregateType) -> Seq<char> {
    match t {
        AggregateType::Total => "total"@,
        AggregateType::Count => "count"@,
        AggregateType::Max => "max"@,
    }
}

/// The aggregate strategy a token resolves to, if any.
pub open spec fn spec_aggregate_from_token(s: Seq<char>) -> Option<AggregateType> {
    if s == "total"@ {
        Some(AggregateType::Total)
    } else if s == "count"@ {
        Some(AggregateType::Count)
    } else if s == "max"@ {
        Some(AggregateType::Max)
    } else {
        None
    }
}

/// The ordered list of valid aggregate tokens.
pub open spec fn spec_aggregate_tokens() -> Seq<Seq<char>> {
    seq!["total"@, "count"@, "max"@]
}

/// Law: resolving a storage variant's canonical token yields that variant.
pub proof fn lemma_storage_token_round_trip(t: StorageType)
    ensures
        spec_storage_from_token(spec_storage_token(t)) == Some(t),
{
    reveal_strlit("vector");
    reveal_strlit("hash");
    reveal_strlit("btree");
    assert("vector"@.len() == 6 && "hash"@.len() == 4 && "btree"@.len() == 5);
    match t {
        StorageType::Vector => {
            assert(spec_storage_token(t) == "vector"@);
        },
        StorageType::Hash => {
            assert(spec_storage_token(t) == "hash"@);
            assert("hash"@ != "vector"@);
        },
        StorageType::BTree => {
            assert(spec_storage_token(t) == "btree"@);
            assert("btree"@ != "vector"@ && "btree"@ != "hash"@);
        },
    }
}

/// Law: a storage token resolves if and only if it is one of the valid
/// tokens the diagnostics list.
pub proof fn lemma_storage_token_valid(s: Seq<char>)
    ensures
        spec_storage_from_token(s) is Some <==> spec_storage_tokens().contains(s),
{
    if spec_storage_from_token(s) is Some {
        if s == "vector"@ {
            assert(spec_storage_tokens()[0] == s);
        } else if s == "hash"@ {
            assert(spec_storage_tokens()[1] == s);
        } else {
            assert(spec_storage_tokens()[2] == s);
        }
    }
    if spec_storage_tokens().contains(s) {
        let i = choose|i: int| 0 <= i < spec_storage_tokens().len() && spec_storage_tokens()[i] == s;
        if i == 0 {
            assert(s == "vector"@);
        } else if i == 1 {
            assert(s == "hash"@);
        } else {
            assert(s == "btree"@);
        }
    }
}

/// Law: resolving an aggregate variant's canonical token yields that
/// variant.
pub proof fn lemma_aggregate_token_round_trip(t: AggregateType)
    ensures
        spec_aggregate_from_token(spec_aggregate_token(t)) == Some(t),
{
    reveal_strlit("total");
    reveal_strlit("count");
    reveal_strlit("max");
    assert("total"@.len() == 5 && "count"@.len() == 5 && "max"@.len() == 3);
    match t {
        AggregateType::Total => {
            assert(spec_aggregate_token(t) == "total"@);
        },
        AggregateType::Count => {
            assert(spec_aggregate_token(t) == "count"@);
            assert("count"@[0] == 'c' && "total"@[0] == 't');
            assert("count"@ != "total"@);
        },
        AggregateType::Max => {
            assert(spec_aggregate_token(t) == "max"@);
            assert("max"@ != "total"@ && "max"@ != "count"@);
        },
    }
}

/// Law: an aggregate token resolves if and only if it is one of the valid
/// tokens the diagnostics list.
pub proof fn lemma_aggregate_token_valid(s: Seq<char>)
    ensures
        spec_aggregate_from_token(s) is Some <==> spec_aggregate_tokens().contains(s),
{
    if spec_aggregate_from_token(s) is Some {
        if s == "total"@ {
            assert(spec_aggregate_tokens()[0] == s);
        } else if s == "count"@ {
            assert(spec_aggregate_tokens()[1] == s);
        } else {
            assert(spec_aggregate_tokens()[2] == s);
        }
    }
    if spec_aggregate_tokens().contains(s) {
        let i = choose|i: int|
            0 <= i < spec_aggregate_tokens().len() && spec_aggregate_tokens()[i] == s;
        if i == 0 {
            assert(s == "total"@);
        } else if i == 1 {
            assert(s == "count"@);
        } else {
            assert(s == "max"@);
        }
    }
}

impl StorageType {
    /// Resolves a user-supplied token to a storage strategy.
    pub fn from_str(s: &str) -> (r: Option<StorageType>)
        ensures
            r == spec_storage_from_token(s@),
    {
        if str_eq(s, "vector") {
            Some(StorageType::Vector)
        } else if str_eq(s, "hash") {
            Some(StorageType::Hash)
        } else if str_eq(s, "btree") {
            Some(StorageType::BTree)
        } else {
            None
        }
    }

    /// The canonical token of this storage strategy.
    pub fn to_str(&self) -> (r: &'static str)
        ensures
            r@ == spec_storage_token(*self),
    {
        match self {
            StorageType::Vector => "vector",
            StorageType::Hash => "hash",
            StorageType::BTree => "btree",
        }
    }
}

impl AggregateType {
    /// Resolves a user-supplied token to an aggregate strategy.
    pub fn from_str(s: &str) -> (r: Option<AggregateType>)
        ensures
            r == spec_aggregate_from_token(s@),
    {
        if str_eq(s, "total") {
            Some(AggregateType::Total)
        } else if str_eq(s, "count") {
            Some(AggregateType::Count)
        } else if str_eq(s, "max") {
            Some(AggregateType::Max)
        } else {
            None
        }
    }

    /// The canonical token of this aggregate strategy.
    pub fn to_str(&self) -> (r: &'static str)
        ensures
            r@ == spec_aggregate_token(*self),
    {
        match self {
            AggregateType::Total => "total",
            AggregateType::Count => "count",
            AggregateType::Max => "max",
        }
    }
}

/// The complete list of valid storage tokens, for diagnostics.
pub fn valid_storage_type_strings() -> (r: Vec<String>)
    ensures
        r.deep_view() == spec_storage_tokens(),
{
    let mut v: Vec<String> = Vec::new();
    v.push(String::from_str("vector"));
    v.push(String::from_str("hash"));
    v.push(String::from_str("btree"));
    proof {
        assert(v.deep_view() =~= spec_storage_tokens());
    }
    v
}

/// The complete list of valid aggregate tokens, for diagnostics.
pub fn valid_aggregate_type_strings() -> (r: Vec<String>)
    ensures
        r.deep_view() == spec_aggregate_tokens(),
{
    let mut v: Vec<String> = Vec::new();
    v.push(String::from_str("total"));
    v.push(String::from_str("count"));
    v.push(String::from_str("max"));
    proof {
        assert(v.deep_view() =~= spec_aggregate_tokens());
    }
    v
}

} // verus!
