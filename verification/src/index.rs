//! The entry that an index of lots keeps for a lot, and the place of the
//! entry in a tree of at most a thousand folders per folder.

use crate::time::now;
use vstd::prelude::*;

verus! {

/// The parts of the path under which a lot with the base number `u` is
/// indexed: the millions, the thousands within a million, and the rest.
pub fn get_path(u: u32) -> (parts: (u32, u32, u32))
    ensures
        parts.0 == u / 1_000_000,
        parts.1 == u % 1_000_000 / 1000,
        parts.2 == u % 1000,
        parts.1 < 1000,
        parts.2 < 1000,
        u == parts.0 * 1_000_000 + parts.1 * 1000 + parts.2,
{
    (u / 1_000_000, u % 1_000_000 / 1000, u % 1000)
}

/// What the index keeps for a lot.
#[derive(Debug, Clone, Copy, PartialEq, Eq, Structural)]
pub struct IndexObject {
    /// The base number of the identifier.
    pub base_id: u32,
    /// The identifier with its check digits.
    pub upl: u32,
    /// The product of the lot.
    pub product: u32,
    /// The stock-keeping unit of the lot, if it has one.
    pub sku: Option<u32>,
    /// When the entry was made, in seconds since 1970-01-01 0:00 UTC.
    pub created_at_unix_ts_utc: i64,
}

impl IndexObject {
    /// The entry for a lot, made at the second `at`.
    pub fn new_at(base_id: u32, upl: u32, product: u32, sku: Option<u32>, at: i64) -> (entry: Self)
        ensures
            entry == (IndexObject { base_id, upl, product, sku, created_at_unix_ts_utc: at }),
    {
        IndexObject { base_id, upl, product, sku, created_at_unix_ts_utc: at }
    }

    /// The entry for a lot, made now.
    pub fn new(base_id: u32, upl: u32, product: u32, sku: Option<u32>) -> (entry: Self)
        ensures
            entry.base_id == base_id,
            entry.upl == upl,
            entry.product == product,
            entry.sku == sku,
    {
        IndexObject::new_at(base_id, upl, product, sku, now().secs)
    }
}

} // verus!
