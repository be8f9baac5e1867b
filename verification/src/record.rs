use vstd::prelude::*;

verus! {

/// A chart's best play: score, accuracy and whether it was a full combo.
/// The accuracy is held as the bit pattern of an IEEE-754 single-precision
/// number and compared as the numbers are (see [`acc_greater`]).
#[derive(Clone, Copy, Debug, PartialEq, Eq, Structural)]
pub struct SimpleRecord {
    pub score: i32,
    pub accuracy_bits: u32,
    pub full_combo: bool,
}

/// Whether the single-precision number with bit pattern `b` is not a number:
/// all exponent bits set and a non-zero fraction.
pub open spec fn acc_is_nan(b: u32) -> bool {
    b & 0x7f80_0000u32 == 0x7f80_0000u32 && b & 0x007f_ffffu32 != 0
}

/// A key that orders the bit patterns of single-precision numbers other than
/// NaN as the numbers are ordered: the magnitude bits, negated for negative
/// numbers (so that -0 and +0 get the same key, zero).
pub open spec fn acc_key(b: u32) -> int {
    if b & 0x8000_0000u32 == 0 {
        b as int
    } else {
        -((b & 0x7fff_ffffu32) as int)
    }
}

/// Whether the number with bit pattern `a` is greater than that with `b`, as
/// `>` on `f32` decides: false whenever either is NaN.
pub open spec fn acc_greater(a: u32, b: u32) -> bool {
    !acc_is_nan(a) && !acc_is_nan(b) && acc_key(a) > acc_key(b)
}

/// `>` on the numbers with the given bit patterns.
pub fn accuracy_greater(a: u32, b: u32) -> (res: bool)
    ensures
        res == acc_greater(a, b),
{
    let a_nan = a & 0x7f80_0000u32 == 0x7f80_0000u32 && a & 0x007f_ffffu32 != 0;
    let b_nan = b & 0x7f80_0000u32 == 0x7f80_0000u32 && b & 0x007f_ffffu32 != 0;
    let ka: i64 = if a & 0x8000_0000u32 == 0 { a as i64 } else { -((a & 0x7fff_ffffu32) as i64) };
    let kb: i64 = if b & 0x8000_0000u32 == 0 { b as i64 } else { -((b & 0x7fff_ffffu32) as i64) };
    !a_nan && !b_nan && ka > kb
}

/// The better of two records, field by field: the higher score, the greater
/// accuracy (the first one's when neither is greater), and a full combo from
/// either.
pub open spec fn merged(a: SimpleRecord, b: SimpleRecord) -> SimpleRecord {
    SimpleRecord {
        score: if b.score > a.score { b.score } else { a.score },
        accuracy_bits: if acc_greater(b.accuracy_bits, a.accuracy_bits) { b.accuracy_bits } else { a.accuracy_bits },
        full_combo: a.full_combo || b.full_combo,
    }
}

impl SimpleRecord {
    /// Keeps the better score, the greater accuracy and a full combo from
    /// either record; true when anything changed.
    pub fn update(&mut self, other: &SimpleRecord) -> (changed: bool)
        ensures
            *final(self) == merged(*old(self), *other),
            changed == (*final(self) != *old(self)),
    {
        let mut changed = false;
        if other.score > self.score {
            self.score = other.score;
            changed = true;
        }
        if accuracy_greater(other.accuracy_bits, self.accuracy_bits) {
            self.accuracy_bits = other.accuracy_bits;
            changed = true;
        }
        if other.full_combo && !self.full_combo {
            self.full_combo = other.full_combo;
            changed = true;
        }
        changed
    }
}

/// Merges a new play into a stored best record (or stores it when there is
/// none); true when the stored record changed and has to be saved.
pub fn merge_into(slot: &mut Option<SimpleRecord>, new_rec: &SimpleRecord) -> (save: bool)
    ensures
        match *old(slot) {
            Some(r) => *final(slot) == Some(merged(r, *new_rec)) && save == (merged(r, *new_rec) != r),
            None => *final(slot) == Some(*new_rec) && save,
        },
{
    match slot {
        Some(r) => r.update(new_rec),
        None => {
            *slot = Some(*new_rec);
            true
        },
    }
}

/// Merging never makes a record worse, merging again with the same record
/// changes nothing, and, for accuracies that are numbers, the order in which
/// two plays are merged does not matter: the result has the best score, the
/// greatest accuracy and a full combo from any of them. (Between -0 and +0,
/// which are the same number, the record merged first keeps its bits.)
pub proof fn law_merge_monotone_idempotent_commutative(a: SimpleRecord, b: SimpleRecord, c: SimpleRecord)
    ensures
        merged(a, b).score >= a.score && merged(a, b).score >= b.score,
        !acc_greater(a.accuracy_bits, merged(a, b).accuracy_bits),
        !acc_greater(b.accuracy_bits, merged(a, b).accuracy_bits),
        a.full_combo ==> merged(a, b).full_combo,
        merged(merged(a, b), b) == merged(a, b),
        !acc_is_nan(a.accuracy_bits) && !acc_is_nan(b.accuracy_bits) && !acc_is_nan(c.accuracy_bits) ==> {
            let r1 = merged(merged(a, b), c);
            let r2 = merged(merged(a, c), b);
            &&& r1.score == r2.score
            &&& r1.full_combo == r2.full_combo
            &&& acc_key(r1.accuracy_bits) == acc_key(r2.accuracy_bits)
            &&& acc_key(r1.accuracy_bits) >= acc_key(a.accuracy_bits)
            &&& acc_key(r1.accuracy_bits) >= acc_key(b.accuracy_bits)
            &&& acc_key(r1.accuracy_bits) >= acc_key(c.accuracy_bits)
        },
{
}

} // verus!
