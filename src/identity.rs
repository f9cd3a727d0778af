use vstd::prelude::*;

verus! {

/// A 256-bit account identity (a public key), held as its high and low
/// 128-bit halves in big-endian order. The all-zero identity is the "unset"
/// sentinel: no party can hold it.
#[derive(Clone, Copy, Debug, PartialEq, Eq, Structural)]
pub struct Identity {
    pub high: u128,
    pub low: u128,
}

impl Identity {
    pub open spec fn unset_spec() -> Identity {
        Identity { high: 0, low: 0 }
    }

    pub open spec fn is_set_spec(self) -> bool {
        self != Identity::unset_spec()
    }

    pub fn new(high: u128, low: u128) -> (r: Identity)
        ensures
            r.high == high,
            r.low == low,
    {
        Identity { high, low }
    }

    /// The sentinel that stands for "no one".
    pub fn unset() -> (r: Identity)
        ensures
            r == Identity::unset_spec(),
    {
        Identity { high: 0, low: 0 }
    }

    pub fn is_set(&self) -> (r: bool)
        ensures
            r == self.is_set_spec(),
    {
        self.high != 0 || self.low != 0
    }
}

} // verus!
