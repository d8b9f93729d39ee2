//! Decisions the persistence layer's callers make on plain values: paging
//! arithmetic and the classification of an empty result set. The queries
//! themselves are an external collaborator's concern.

use vstd::prelude::*;

use crate::error::{BizKind, Kind, ServiceError};

verus! {

/// The row offset a page starts at, or `None` where the product would not
/// fit the offset's type.
pub fn page_offset(page_number: i64, page_size: i64) -> (r: Option<i64>)
    ensures
        r matches Some(o) ==> o == page_number * page_size,
        r is None <==> (page_number * page_size > i64::MAX || page_number * page_size
            < i64::MIN),
{
    page_number.checked_mul(page_size)
}

/// Classify a result-set size: an empty result is a `DataNotFound` business
/// failure carrying the caller's message, a non-empty one passes.
pub fn require_rows(row_count: usize, absence_message: &str) -> (r: Result<(), ServiceError>)
    ensures
        r is Ok <==> row_count > 0,
        r matches Err(e) ==> e@.kind == Kind::BizError(BizKind::DataNotFound)
            && e@.message == absence_message@ && e@.cause is None,
{
    if row_count == 0 {
        Err(
            ServiceError::build()
                .belong(Kind::BizError(BizKind::DataNotFound))
                .message(absence_message)
                .done(),
        )
    } else {
        Ok(())
    }
}

} // verus!
