//! The three steps of an update cycle, each as a value-returning function and
//! as an in-place mutation. Toggling lives beside the record type.
use vstd::prelude::*;

use crate::records::{accumulated, incremented, Record};

verus! {

/// Returns a copy of the record with `a` increased by one (wrapping).
pub(crate) fn get_incremented_record(record: Record) -> (r: Record)
    ensures
        r == incremented(record),
{
    Record { a: record.a.wrapping_add(1), ..record }
}

/// Returns the accumulated record: `b` takes the current `a`, `a` takes the
/// sum of the current `a` and `b` (wrapping).
pub(crate) fn get_accumulated_record(record: Record) -> (r: Record)
    ensures
        r == accumulated(record),
{
    Record { a: record.a.wrapping_add(record.b), b: record.a, ..record }
}

/// Increases `a` by one in place (wrapping).
pub(crate) fn mut_incremented_record(record: &mut Record)
    ensures
        *final(record) == incremented(*old(record)),
{
    record.a = record.a.wrapping_add(1);
}

/// Accumulates in place: `b` takes the current `a`, `a` takes the sum of the
/// current `a` and `b` (wrapping). Both fields are read before either is
/// written.
pub(crate) fn mut_accumulated_record(record: &mut Record)
    ensures
        *final(record) == accumulated(*old(record)),
{
    let sum = record.a.wrapping_add(record.b);
    record.b = record.a;
    record.a = sum;
}

} // verus!
