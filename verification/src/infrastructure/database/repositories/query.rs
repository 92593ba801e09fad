//! Pieces shared by the stored queries.
use vstd::prelude::*;

use crate::text::{push_signed_decimal, signed_decimal};

verus! {

/// The clause that caps a query at `limit` rows; nothing without a limit.
pub open spec fn limit_text(limit: Option<i32>) -> Seq<char> {
    match limit {
        Some(n) => " LIMIT "@ + signed_decimal(n as int),
        None => Seq::empty(),
    }
}

/// Appends the row limit, if there is one, to a query.
pub fn push_limit(sql: &mut String, limit: Option<i32>)
    ensures
        final(sql)@ == old(sql)@ + limit_text(limit),
{
    if let Some(n) = limit {
        sql.append(" LIMIT ");
        push_signed_decimal(sql, n as i64);
    }
}

} // verus!
