//! The persistence interface: a storable value knows how to read itself back
//! (falling back to a built-in default on a missing or unreadable record) and
//! how to write itself through. Implementations live with whatever actually
//! stores the bytes; the core only shapes the values they carry.

use vstd::prelude::*;

verus! {

pub trait StorableData where Self: Sized {
    fn load() -> Self;

    fn save(self) -> Self;
}

} // verus!
