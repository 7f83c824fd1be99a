//! The computational cost charged for each ownership operation.
//!
//! A cost has two parts, execution time and proof size, and is put together
//! from a fixed base and the cost of the storage reads and writes that the
//! operation performs. Two tables are provided: `SubstrateWeight`, calibrated
//! with the read and write costs of the storage backend in use, and `()`,
//! which assumes the costs of the reference backend.

use frame_support::traits::Get;
use frame_support::weights::constants::RocksDbWeight;
use vstd::prelude::*;

verus! {

/// A computational cost, shaped as the host's weight: a reference-time part
/// and a proof-size part.
#[derive(Clone, Copy, Debug, PartialEq, Eq, Structural)]
pub struct Weight {
    ref_time: u64,
    proof_size: u64,
}

/// `a + b`, held at the largest `u64`.
pub open spec fn saturating_sum(a: u64, b: u64) -> u64 {
    if a + b > u64::MAX {
        u64::MAX
    } else {
        (a + b) as u64
    }
}

/// `a * b`, held at the largest `u64`.
pub open spec fn saturating_product(a: u64, b: u64) -> u64 {
    if a * b > u64::MAX {
        u64::MAX
    } else {
        (a * b) as u64
    }
}

/// `a * b`, held at the largest `u64`.
fn saturating_mul(a: u64, b: u64) -> (product: u64)
    ensures
        product == saturating_product(a, b),
{
    match a.checked_mul(b) {
        Some(product) => product,
        None => u64::MAX,
    }
}

impl Weight {
    /// The reference-time part.
    pub closed spec fn time(self) -> u64 {
        self.ref_time
    }

    /// The proof-size part.
    pub closed spec fn size(self) -> u64 {
        self.proof_size
    }

    /// The cost with the given parts.
    pub fn from_parts(ref_time: u64, proof_size: u64) -> (weight: Self)
        ensures
            weight.time() == ref_time,
            weight.size() == proof_size,
    {
        Weight { ref_time, proof_size }
    }

    /// The reference-time part.
    pub fn ref_time(&self) -> (part: u64)
        ensures
            part == self.time(),
    {
        self.ref_time
    }

    /// The proof-size part.
    pub fn proof_size(&self) -> (part: u64)
        ensures
            part == self.size(),
    {
        self.proof_size
    }

    /// The sum of two costs, each part held at the largest `u64`.
    pub fn saturating_add(self, rhs: Self) -> (sum: Self)
        ensures
            sum.time() == saturating_sum(self.time(), rhs.time()),
            sum.size() == saturating_sum(self.size(), rhs.size()),
    {
        Weight {
            ref_time: self.ref_time.saturating_add(rhs.ref_time),
            proof_size: self.proof_size.saturating_add(rhs.proof_size),
        }
    }
}

/// The cost of one storage read and of one storage write, in reference time.
#[derive(Clone, Copy, Debug, PartialEq, Eq, Structural)]
pub struct RuntimeDbWeight {
    pub read: u64,
    pub write: u64,
}

impl RuntimeDbWeight {
    /// The cost of `r` reads.
    pub fn reads(self, r: u64) -> (weight: Weight)
        ensures
            weight.time() == saturating_product(self.read, r),
            weight.size() == 0,
    {
        Weight::from_parts(saturating_mul(self.read, r), 0)
    }

    /// The cost of `w` writes.
    pub fn writes(self, w: u64) -> (weight: Weight)
        ensures
            weight.time() == saturating_product(self.write, w),
            weight.size() == 0,
    {
        Weight::from_parts(saturating_mul(self.write, w), 0)
    }
}

/// The base reference time of every ownership operation.
pub const BASE_REF_TIME: u64 = 10_000_000;

/// The proof size estimated for removing an ownership.
pub const REMOVE_PROOF_SIZE: u64 = 1489;

/// The read cost of the reference storage backend.
pub const REFERENCE_READ: u64 = 25_000_000;

/// The write cost of the reference storage backend.
pub const REFERENCE_WRITE: u64 = 100_000_000;

/// The cost of adding an ownership or of a query: the base and one write.
pub open spec fn one_write_cost(db: RuntimeDbWeight) -> (u64, u64) {
    (saturating_sum(BASE_REF_TIME, saturating_product(db.write, 1)), 0)
}

/// The cost of removing an ownership: the base, one read and one write, and
/// the estimated proof size.
pub open spec fn read_write_cost(db: RuntimeDbWeight) -> (u64, u64) {
    (
        saturating_sum(
            saturating_sum(BASE_REF_TIME, saturating_product(db.read, 1)),
            saturating_product(db.write, 1),
        ),
        REMOVE_PROOF_SIZE,
    )
}

/// The storage costs of the reference backend.
pub open spec fn reference_db_weight() -> RuntimeDbWeight {
    RuntimeDbWeight { read: REFERENCE_READ, write: REFERENCE_WRITE }
}

/// A table of the cost of each ownership operation.
pub trait WeightInfo {
    /// The storage costs that the table is calibrated with.
    spec fn db_weight(&self) -> RuntimeDbWeight;

    /// The cost of adding an ownership.
    fn create_ownership(&self) -> (weight: Weight)
        ensures
            (weight.time(), weight.size()) == one_write_cost(self.db_weight()),
    ;

    /// The cost of removing an ownership.
    fn remove_ownership(&self) -> (weight: Weight)
        ensures
            (weight.time(), weight.size()) == read_write_cost(self.db_weight()),
    ;

    /// The cost of a query for owned assets.
    fn get_owned_assets(&self) -> (weight: Weight)
        ensures
            (weight.time(), weight.size()) == one_write_cost(self.db_weight()),
    ;
}

/// The cost table calibrated with the storage costs of the backend in use.
#[derive(Clone, Copy, Debug, PartialEq, Eq, Structural)]
pub struct SubstrateWeight {
    pub db_weight: RuntimeDbWeight,
}

impl WeightInfo for SubstrateWeight {
    open spec fn db_weight(&self) -> RuntimeDbWeight {
        self.db_weight
    }

    fn create_ownership(&self) -> (weight: Weight) {
        Weight::from_parts(BASE_REF_TIME, 0).saturating_add(self.db_weight.writes(1))
    }

    fn remove_ownership(&self) -> (weight: Weight) {
        Weight::from_parts(BASE_REF_TIME, REMOVE_PROOF_SIZE).saturating_add(
            self.db_weight.reads(1),
        ).saturating_add(self.db_weight.writes(1))
    }

    fn get_owned_assets(&self) -> (weight: Weight) {
        Weight::from_parts(BASE_REF_TIME, 0).saturating_add(self.db_weight.writes(1))
    }
}

/// `RocksDbWeight::get` of `frame_support`: the storage costs of the reference
/// backend, which are 25 microseconds for a read and 100 microseconds for a
/// write, in picoseconds.
#[verifier::external_body]
fn rocks_db_weight() -> (db: RuntimeDbWeight)
    ensures
        db == reference_db_weight(),
{
    let host = RocksDbWeight::get();
    RuntimeDbWeight { read: host.read, write: host.write }
}

impl WeightInfo for () {
    open spec fn db_weight(&self) -> RuntimeDbWeight {
        reference_db_weight()
    }

    fn create_ownership(&self) -> (weight: Weight) {
        Weight::from_parts(BASE_REF_TIME, 0).saturating_add(rocks_db_weight().writes(1))
    }

    fn remove_ownership(&self) -> (weight: Weight) {
        Weight::from_parts(BASE_REF_TIME, REMOVE_PROOF_SIZE).saturating_add(
            rocks_db_weight().reads(1),
        ).saturating_add(rocks_db_weight().writes(1))
    }

    fn get_owned_assets(&self) -> (weight: Weight) {
        Weight::from_parts(BASE_REF_TIME, 0).saturating_add(rocks_db_weight().writes(1))
    }
}

} // verus!
