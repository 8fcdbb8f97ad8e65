//! Benchmarked weights of the bonded finance pallet's calls in the Picasso
//! runtime: a base time plus the cost of the storage reads and writes.

use vstd::prelude::*;

verus! {

/// Execution time of a call, in picoseconds of reference hardware.
pub type Weight = u64;

/// `a * b` saturating at `u64::MAX`.
pub open spec fn sat_mul(a: nat, b: nat) -> nat {
    if a * b <= u64::MAX { a * b } else { u64::MAX as nat }
}

/// `a + b` saturating at `u64::MAX`.
pub open spec fn sat_add(a: nat, b: nat) -> nat {
    if a + b <= u64::MAX { a + b } else { u64::MAX as nat }
}

/// The weight of one storage read and of one storage write.
#[derive(Copy, Clone, Debug, PartialEq, Eq, Structural)]
pub struct RuntimeDbWeight {
    pub read: Weight,
    pub write: Weight,
}

impl RuntimeDbWeight {
    /// Weight of `r` reads, saturating.
    pub fn reads(self, r: Weight) -> (w: Weight)
        ensures
            w == sat_mul(self.read as nat, r as nat),
    {
        match self.read.checked_mul(r) {
            Some(x) => x,
            None => u64::MAX,
        }
    }

    /// Weight of `w` writes, saturating.
    pub fn writes(self, w: Weight) -> (r: Weight)
        ensures
            r == sat_mul(self.write as nat, w as nat),
    {
        match self.write.checked_mul(w) {
            Some(x) => x,
            None => u64::MAX,
        }
    }
}

/// A base weight plus `reads` reads and `writes` writes, saturating.
pub open spec fn call_weight(base: nat, db: RuntimeDbWeight, reads: nat, writes: nat) -> nat {
    sat_add(sat_add(base, sat_mul(db.read as nat, reads)), sat_mul(db.write as nat, writes))
}

/// `base + db.reads(reads) + db.writes(writes)`, each addition saturating.
fn weight_of(base: Weight, db: RuntimeDbWeight, reads: Weight, writes: Weight) -> (r: Weight)
    ensures
        r == call_weight(base as nat, db, reads as nat, writes as nat),
{
    let with_reads = base.saturating_add(db.reads(reads));
    with_reads.saturating_add(db.writes(writes))
}

/// Weight functions of the bonded finance pallet.
pub struct WeightInfo;

impl WeightInfo {
    /// `offer`: 4 reads and 5 writes.
    pub fn offer(db: RuntimeDbWeight) -> (r: Weight)
        ensures
            r == call_weight(123_499_000, db, 4, 5),
    {
        weight_of(123_499_000, db, 4, 5)
    }

    /// `bond`: 9 reads and 9 writes.
    pub fn bond(db: RuntimeDbWeight) -> (r: Weight)
        ensures
            r == call_weight(190_006_000, db, 9, 9),
    {
        weight_of(190_006_000, db, 9, 9)
    }

    /// `cancel`: 2 reads and 2 writes.
    pub fn cancel(db: RuntimeDbWeight) -> (r: Weight)
        ensures
            r == call_weight(74_944_000, db, 2, 2),
    {
        weight_of(74_944_000, db, 2, 2)
    }
}

} // verus!
