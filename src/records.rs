use vstd::prelude::*;

verus! {

/// A plain value: two unsigned 32-bit counters and a flag.
#[derive(Clone, Copy, Debug, PartialEq, Eq, Structural)]
pub struct Record {
    pub a: u32,
    pub b: u32,
    pub c: bool,
}

/// Addition modulo 2^32, the policy every update uses on overflow.
pub open spec fn wrap_add(x: int, y: int) -> u32 {
    ((x + y) % 0x1_0000_0000) as u32
}

/// The record with its flag negated.
pub open spec fn toggled(r: Record) -> Record {
    Record { c: !r.c, ..r }
}

/// The record with `a` increased by one (wrapping).
pub open spec fn incremented(r: Record) -> Record {
    Record { a: wrap_add(r.a as int, 1), ..r }
}

/// The record with `b` set to the current `a` and `a` set to the sum of the
/// current `a` and `b` (wrapping).
pub open spec fn accumulated(r: Record) -> Record {
    Record { a: wrap_add(r.a as int, r.b as int), b: r.a, c: r.c }
}

/// One full update cycle in closed form:
/// `c' = !c`, `b' = a + 1`, `a' = a + 1 + b`, the additions modulo 2^32.
pub open spec fn transformed(r: Record) -> Record {
    Record { a: wrap_add(r.a + 1, r.b as int), b: wrap_add(r.a as int, 1), c: !r.c }
}

/// Negates the flag in place.
pub fn toggle_record_flag(record: &mut Record)
    ensures
        *final(record) == toggled(*old(record)),
{
    record.c = !record.c;
}

/// Returns a copy of the record with its flag negated.
pub fn get_toggled_record(record: Record) -> (r: Record)
    ensures
        r == toggled(record),
{
    Record { c: !record.c, ..record }
}

/// Toggling, incrementing and accumulating, applied in that order, give the
/// closed form of one cycle. Every update entry point ensures that closed
/// form, so all of them give the same record for the same input, whether they
/// mutate in place or rebuild values.
pub proof fn lemma_steps_give_transformed(r: Record)
    ensures
        accumulated(incremented(toggled(r))) == transformed(r),
{
}

/// Where `a + 1 + b` fits in 32 bits, one cycle negates `c`, sets `b` to
/// `a + 1` and sets `a` to `(a + 1) + b`, with no wrapping.
pub proof fn lemma_transformed_without_overflow(r: Record)
    requires
        r.a + 1 + r.b <= u32::MAX,
    ensures
        transformed(r).c == !r.c,
        transformed(r).b == r.a + 1,
        transformed(r).a == (r.a + 1) + r.b,
{
}

/// Two cycles bring the flag back to its starting value: the toggle is an
/// involution.
pub proof fn lemma_flag_restored_after_two_cycles(r: Record)
    ensures
        transformed(transformed(r)).c == r.c,
{
}

/// Two cycles do not bring the counters back: after them `a` or `b` differs
/// from where it started. The one exception under wrapping arithmetic is
/// `a == 0xFFFF_FFFE, b == 0xFFFF_FFFF`, which two cycles map to itself.
pub proof fn lemma_counters_moved_after_two_cycles(r: Record)
    requires
        !(r.a == 0xFFFF_FFFE && r.b == 0xFFFF_FFFF),
    ensures
        transformed(transformed(r)).a != r.a || transformed(transformed(r)).b != r.b,
{
}

} // verus!
