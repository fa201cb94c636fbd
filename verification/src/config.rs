//! The generator's configuration: table selection lists, a global map from
//! default type names to replacements, and per-table, per-column type
//! overrides. Maps are held as association lists of `(key, value)` pairs;
//! a lookup returns the first pair whose key matches.

use vstd::prelude::*;
use crate::text::str_eq;

verus! {

/// Top-level configuration for one generation run.
#[derive(Debug)]
pub struct Config {
    pub db_url: String,
    pub exclude_table: Option<Vec<String>>,
    pub just_table: Option<Vec<String>>,
    pub replace_type: Option<Vec<(String, String)>>,
    pub config: Option<Database>,
}

/// Per-database overrides: one entry per configured table.
#[derive(Debug)]
pub struct Database {
    pub tables: Option<Vec<(String, Table)>>,
}

/// Per-table overrides: one entry per configured column.
#[derive(Debug)]
pub struct Table {
    pub columns: Option<Vec<(String, Column)>>,
}

/// Per-column override: a JSON-wrapped payload type, or a fully custom
/// type string that bypasses classification.
#[derive(Debug)]
pub struct Column {
    pub json_type: Option<String>,
    pub custom_type: Option<String>,
}

/// The value of the first pair whose key's characters equal `key`.
pub open spec fn assoc_first<T>(pairs: Seq<(String, T)>, key: Seq<char>) -> Option<T>
    decreases pairs.len(),
{
    if pairs.len() == 0 {
        None
    } else if pairs[0].0@ == key {
        Some(pairs[0].1)
    } else {
        assoc_first(pairs.drop_first(), key)
    }
}

/// Position of the first pair whose key equals `key`, or `None` when no
/// key matches.
pub fn assoc_position<T>(pairs: &Vec<(String, T)>, key: &str) -> (r: Option<usize>)
    ensures
        match r {
            Some(i) => i < pairs@.len() && assoc_first(pairs@, key@) == Some(pairs@[i as int].1),
            None => assoc_first(pairs@, key@) is None,
        },
{
    let mut i: usize = 0;
    proof {
        assert(pairs@.skip(0) =~= pairs@);
    }
    while i < pairs.len()
        invariant
            i <= pairs.len(),
            assoc_first(pairs@, key@) == assoc_first(pairs@.skip(i as int), key@),
        decreases pairs.len() - i,
    {
        proof {
            assert(pairs@.skip(i as int)[0] == pairs@[i as int]);
            assert(pairs@.skip(i as int).drop_first() =~= pairs@.skip(i as int + 1));
        }
        if str_eq(pairs[i].0.as_str(), key) {
            return Some(i);
        }
        i += 1;
    }
    proof {
        assert(pairs@.skip(pairs@.len() as int) =~= Seq::<(String, T)>::empty());
    }
    None
}

} // verus!
