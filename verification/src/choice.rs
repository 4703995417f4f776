//! A side-channel-resistant boolean flag.
//!
//! Predicates whose outcome may depend on secrets are returned as a `Choice`
//! rather than a bare `bool`.  A `Choice` is built and combined with bitwise
//! operations only, so that combining one with secret data never compiles to
//! a data-dependent branch; turning it into ordinary control flow takes an
//! explicit call of `unwrap_u8`.

use vstd::prelude::*;

verus! {

/// A boolean flag stored as a byte that is always `0` or `1`.
#[derive(Copy, Clone, Debug)]
pub struct Choice(u8);

impl Choice {
    /// The flag holds `0` or `1`, nothing else.
    pub closed spec fn wf(self) -> bool {
        self.0 == 0 || self.0 == 1
    }

    /// Whether the flag is set.
    pub closed spec fn is_set(self) -> bool {
        self.0 == 1
    }

    /// Build a flag from a byte that is already `0` or `1`.
    pub fn from_u8(v: u8) -> (r: Choice)
        requires
            v == 0 || v == 1,
        ensures
            r.wf(),
            r.is_set() == (v == 1),
    {
        Choice(v)
    }

    /// Reveal the flag as a byte, for callers that must branch on it.
    pub fn unwrap_u8(self) -> (r: u8)
        requires
            self.wf(),
        ensures
            r == (if self.is_set() {
                1u8
            } else {
                0u8
            }),
    {
        self.0
    }

    /// Exclusive or, computed without a branch.
    pub fn xor(self, other: Choice) -> (r: Choice)
        requires
            self.wf(),
            other.wf(),
        ensures
            r.wf(),
            r.is_set() == (self.is_set() != other.is_set()),
    {
        let a = self.0;
        let b = other.0;
        let v = a ^ b;
        proof {
            assert((v == 0 || v == 1) && ((v == 1) == ((a == 1) != (b == 1)))) by (bit_vector)
                requires
                    v == a ^ b,
                    a == 0 || a == 1,
                    b == 0 || b == 1,
            ;
        }
        Choice(v)
    }

    /// Logical negation, computed without a branch.
    pub fn negate(self) -> (r: Choice)
        requires
            self.wf(),
        ensures
            r.wf(),
            r.is_set() == !self.is_set(),
    {
        self.xor(Choice::from_u8(1))
    }
}

} // verus!
