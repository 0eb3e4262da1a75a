use vstd::prelude::*;

verus! {

/// One element of the source chain's prime field, held as two machine
/// limbs: `hi` carries the bits above 128, `lo` the low 128 bits.
#[derive(Clone, Copy, Debug, PartialEq, Eq, Structural)]
pub struct Felt {
    pub hi: u128,
    pub lo: u128,
}

impl Felt {
    /// A felt is well formed when its value fits the field's 252-bit width.
    pub open spec fn wf(self) -> bool {
        self.hi < 0x10000000000000000000000000000000u128
    }

    /// The integer the two limbs stand for.
    pub open spec fn value(self) -> nat {
        (self.hi * 0x100000000000000000000000000000000 + self.lo) as nat
    }

    /// Builds a felt from a value that fits in 128 bits.
    pub fn from_u128(lo: u128) -> (r: Felt)
        ensures
            r.wf(),
            r.value() == lo,
    {
        Felt { hi: 0, lo }
    }

    /// Builds a felt from its two limbs; the high limb must leave the
    /// value inside the field's 252-bit width.
    pub fn from_limbs(hi: u128, lo: u128) -> (r: Felt)
        requires
            hi < 0x10000000000000000000000000000000u128,
        ensures
            r.wf(),
            r == (Felt { hi, lo }),
    {
        Felt { hi, lo }
    }
}

/// Two felts with the same value have the same limbs: the limb pair is
/// the value's base-2^128 decomposition, which is unique.
pub proof fn lemma_felt_value_determines_limbs(a: Felt, b: Felt)
    requires
        a.value() == b.value(),
    ensures
        a == b,
{
    assert(a.hi == b.hi && a.lo == b.lo) by (nonlinear_arith)
        requires
            a.hi * 0x100000000000000000000000000000000 + a.lo == b.hi
                * 0x100000000000000000000000000000000 + b.lo,
            a.lo < 0x100000000000000000000000000000000,
            b.lo < 0x100000000000000000000000000000000,
    ;
}

} // verus!
