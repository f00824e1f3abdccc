//! Database helpers: how a list of statements is cut into batches, and how database
//! errors are reported.
use vstd::prelude::*;
use crate::error::AppError;
use crate::text::{chars_contain, chars_of, contains_seq};

verus! {

/// The batch size actually used: the whole list when `batch_size` is 0.
pub open spec fn effective_batch_size(len: usize, batch_size: usize) -> usize {
    if batch_size == 0 {
        len
    } else {
        batch_size
    }
}

/// Cuts `len` statements into consecutive batches of `batch_size` (the whole list when
/// `batch_size` is 0), the last one possibly shorter; no batch for an empty list. Each batch
/// is a half-open range of positions.
pub fn batch_ranges(len: usize, batch_size: usize) -> (ranges: Vec<(usize, usize)>)
    ensures
        len == 0 ==> ranges@.len() == 0,
        len > 0 ==> ranges@.len() > 0 && ranges@[0].0 == 0 && ranges@.last().1 == len,
        forall|i: int|
            0 <= i < ranges@.len() ==> #[trigger] ranges@[i].0 < ranges@[i].1 && ranges@[i].1
                - ranges@[i].0 <= effective_batch_size(len, batch_size),
        forall|i: int|
            0 <= i < ranges@.len() - 1 ==> #[trigger] ranges@[i].1 == ranges@[i + 1].0 && ranges@[i].1
                - ranges@[i].0 == effective_batch_size(len, batch_size),
{
    let mut ranges: Vec<(usize, usize)> = Vec::new();
    if len == 0 {
        return ranges;
    }
    let size = if batch_size == 0 {
        len
    } else {
        batch_size
    };
    let mut start: usize = 0;
    while start < len
        invariant
            0 < size,
            size == effective_batch_size(len, batch_size),
            start <= len,
            ranges@.len() == 0 ==> start == 0,
            ranges@.len() > 0 ==> ranges@[0].0 == 0 && ranges@.last().1 == start,
            forall|i: int|
                0 <= i < ranges@.len() ==> #[trigger] ranges@[i].0 < ranges@[i].1 && ranges@[i].1
                    - ranges@[i].0 <= size,
            forall|i: int|
                0 <= i < ranges@.len() - 1 ==> #[trigger] ranges@[i].1 == ranges@[i + 1].0
                    && ranges@[i].1 - ranges@[i].0 == size,
            ranges@.len() > 0 && start < len ==> ranges@.last().1 - ranges@.last().0 == size,
        decreases len - start,
    {
        let end = if len - start > size {
            start + size
        } else {
            len
        };
        ranges.push((start, end));
        start = end;
    }
    ranges
}

/// The error for a failed database call. Every such failure is reported as a database
/// error; an oversized row (`SQLITE_TOOBIG`) is worth a warning in the log.
pub fn map_d1_json_error(message: &str) -> (r: (AppError, bool))
    ensures
        r.0 is Database,
        r.1 == contains_seq(message@, "SQLITE_TOOBIG"@),
{
    let m = chars_of(message);
    let p = chars_of("SQLITE_TOOBIG");
    (AppError::Database, chars_contain(&m, &p))
}

} // verus!
