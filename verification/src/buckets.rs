//! The fixed tables of bucket names.
//!
//! The general store has ten buckets, addressed on the wire by their index in
//! this table. The statement store has a single bucket that every request
//! uses.

use vstd::prelude::*;
use crate::protocol::BUCKET_COUNT;

verus! {

/// The name of the general store's bucket at `index`, for an index in the table.
pub open spec fn general_name(index: u8) -> Option<Seq<char>> {
    if index == 0 {
        Some("config"@)
    } else if index == 1 {
        Some("groups"@)
    } else if index == 2 {
        Some("users"@)
    } else if index == 3 {
        Some("flows"@)
    } else if index == 4 {
        Some("actions"@)
    } else if index == 5 {
        Some("params"@)
    } else if index == 6 {
        Some("tables"@)
    } else if index == 7 {
        Some("queries"@)
    } else if index == 8 {
        Some("files"@)
    } else if index == 9 {
        Some("links"@)
    } else {
        None
    }
}

/// The name of the statement store's only bucket.
pub open spec fn statement_name() -> Seq<char> {
    "Default"@
}

/// Looks up the general store's bucket name for a wire index.
///
/// Returns a name exactly for the indices 0 to 9.
pub fn bucket_name(index: u8) -> (name: Option<&'static str>)
    ensures
        name is Some <==> index < BUCKET_COUNT,
        match name {
            Some(n) => general_name(index) == Some(n@),
            None => general_name(index) is None,
        },
{
    if index < BUCKET_COUNT {
        Some(table_name(index))
    } else {
        None
    }
}

/// The general store's bucket name for an index that is in the table.
pub(crate) fn table_name(index: u8) -> (name: &'static str)
    requires
        index < BUCKET_COUNT,
    ensures
        general_name(index) == Some(name@),
{
    match index {
        0 => "config",
        1 => "groups",
        2 => "users",
        3 => "flows",
        4 => "actions",
        5 => "params",
        6 => "tables",
        7 => "queries",
        8 => "files",
        _ => "links",
    }
}

/// The name of the statement store's only bucket.
pub fn statement_bucket() -> (name: &'static str)
    ensures
        name@ == statement_name(),
{
    "Default"
}

/// Two different indices of the table never name the same bucket, so the
/// buckets of the general store are independent key spaces.
pub proof fn bucket_names_distinct(a: u8, b: u8)
    requires
        a < BUCKET_COUNT,
        b < BUCKET_COUNT,
        a != b,
    ensures
        general_name(a) is Some,
        general_name(b) is Some,
        general_name(a) != general_name(b),
{
    reveal_strlit("config");
    reveal_strlit("groups");
    reveal_strlit("users");
    reveal_strlit("flows");
    reveal_strlit("actions");
    reveal_strlit("params");
    reveal_strlit("tables");
    reveal_strlit("queries");
    reveal_strlit("files");
    reveal_strlit("links");
    let x = general_name(a).unwrap();
    let y = general_name(b).unwrap();
    // Any two names differ in length or in one of their first two letters.
    assert(x.len() != y.len() || x[0] != y[0] || x[1] != y[1]);
}

} // verus!
