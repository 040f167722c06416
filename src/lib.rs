//! Updating a small record of two counters and a flag.
//!
//! One update cycle toggles the flag, increments `a`, then accumulates:
//! `b` takes the incremented `a`, and `a` becomes the incremented `a` plus the
//! `b` that the record held before. Both additions wrap modulo 2^32, so every
//! entry point is total.
//!
//! The entry points differ only in how the record is passed around (mutated in
//! place, rebuilt as a value, nested calls, temporaries); each one ensures the
//! same closed form, [`records::transformed`].
use vstd::prelude::*;

pub mod records;
mod steps;

pub use records::Record;

use records::{get_toggled_record, lemma_steps_give_transformed, toggle_record_flag, transformed};
use steps::{
    get_accumulated_record, get_incremented_record, mut_accumulated_record,
    mut_incremented_record,
};

verus! {

/// Mutates in place, one step at a time.
pub fn update_record_with_refs(record: &mut Record)
    ensures
        *final(record) == transformed(*old(record)),
{
    proof { lemma_steps_give_transformed(*record); }
    toggle_record_flag(record);
    mut_incremented_record(record);
    mut_accumulated_record(record);
}

/// Rebuilds the record as a value at each step and stores each result back.
pub fn update_record_with_ptrs(record: &mut Record)
    ensures
        *final(record) == transformed(*old(record)),
{
    proof { lemma_steps_give_transformed(*record); }
    *record = get_toggled_record(*record);
    *record = get_incremented_record(*record);
    *record = get_accumulated_record(*record);
}

/// Nests the three value-returning steps in one expression.
pub fn update_record_with_minimal_vars(record: &mut Record)
    ensures
        *final(record) == transformed(*old(record)),
{
    proof { lemma_steps_give_transformed(*record); }
    *record = get_accumulated_record(get_incremented_record(get_toggled_record(*record)));
}

/// Threads the record through shadowed temporaries and stores the last one.
pub fn update_record_with_shadowed_vars(record: &mut Record)
    ensures
        *final(record) == transformed(*old(record)),
{
    proof { lemma_steps_give_transformed(*record); }
    let tmp = *record;
    let tmp = get_toggled_record(tmp);
    let tmp = get_incremented_record(tmp);
    let tmp = get_accumulated_record(tmp);
    *record = tmp;
}

/// Threads the record through one mutable temporary and stores it.
pub fn update_record_with_mut_tmp_var(record: &mut Record)
    ensures
        *final(record) == transformed(*old(record)),
{
    proof { lemma_steps_give_transformed(*record); }
    let mut tmp = *record;
    tmp = get_toggled_record(tmp);
    tmp = get_incremented_record(tmp);
    tmp = get_accumulated_record(tmp);
    *record = tmp;
}

/// Takes the record by value and returns the updated value, rebuilding it at
/// each step.
pub fn update_record_no_refs(record: Record) -> (r: Record)
    ensures
        r == transformed(record),
{
    proof { lemma_steps_give_transformed(record); }
    let mut record = get_toggled_record(record);
    record = get_incremented_record(record);
    record = get_accumulated_record(record);
    record
}

/// Takes the record by value, mutates a local copy in place, and returns it.
pub fn update_record_mut(record: Record) -> (r: Record)
    ensures
        r == transformed(record),
{
    proof { lemma_steps_give_transformed(record); }
    let mut record = record;
    toggle_record_flag(&mut record);
    mut_incremented_record(&mut record);
    mut_accumulated_record(&mut record);
    record
}

} // verus!
