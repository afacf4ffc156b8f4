//! Plain values of the foreign curve: scalars and affine points of secp256k1,
//! each held as little-endian 64-bit limbs.

use vstd::prelude::*;

verus! {

/// Least significant limb of the order of the secp256k1 group.
pub const ORDER_LIMB_0: u64 = 0xBFD2_5E8C_D036_4141;

/// Second limb of the order of the secp256k1 group.
pub const ORDER_LIMB_1: u64 = 0xBAAE_DCE6_AF48_A03B;

/// Third limb of the order of the secp256k1 group.
pub const ORDER_LIMB_2: u64 = 0xFFFF_FFFF_FFFF_FFFE;

/// Most significant limb of the order of the secp256k1 group.
pub const ORDER_LIMB_3: u64 = 0xFFFF_FFFF_FFFF_FFFF;

/// The order `n` of the secp256k1 group.
pub open spec fn group_order() -> nat {
    0xFFFF_FFFF_FFFF_FFFF_FFFF_FFFF_FFFF_FFFE_BAAE_DCE6_AF48_A03B_BFD2_5E8C_D036_4141nat
}

/// The number that four little-endian 64-bit limbs stand for.
pub open spec fn limbs_value(limbs: [u64; 4]) -> nat {
    (limbs[0] as nat) + (limbs[1] as nat) * 0x1_0000_0000_0000_0000nat + (limbs[2] as nat)
        * 0x1_0000_0000_0000_0000_0000_0000_0000_0000nat + (limbs[3] as nat)
        * 0x1_0000_0000_0000_0000_0000_0000_0000_0000_0000_0000_0000_0000nat
}

/// A candidate element of the scalar field: any 256-bit number. Whether it is
/// reduced modulo the group order is a matter of the value, not of the type,
/// so a witness that the circuit must reject can still be written down.
#[derive(Clone, Copy, Debug, PartialEq, Eq)]
pub struct Scalar {
    /// Little-endian limbs.
    pub limbs: [u64; 4],
}

impl Scalar {
    /// The number that the scalar stands for.
    pub open spec fn value(self) -> nat {
        limbs_value(self.limbs)
    }

    /// Whether the scalar is a remainder modulo the group order.
    pub open spec fn spec_is_reduced(self) -> bool {
        self.value() < group_order()
    }

    /// Whether the scalar lies in `[1, n - 1]`, as both halves of a signature
    /// must.
    pub open spec fn spec_is_signature_component(self) -> bool {
        1 <= self.value() < group_order()
    }

    /// The scalar with the given little-endian limbs.
    pub fn from_limbs(limbs: [u64; 4]) -> (s: Self)
        ensures
            s.limbs == limbs,
            s.value() == limbs_value(limbs),
    {
        Scalar { limbs }
    }

    /// Whether the scalar is zero.
    pub fn is_zero(&self) -> (zero: bool)
        ensures
            zero == (self.value() == 0),
    {
        self.limbs[0] == 0 && self.limbs[1] == 0 && self.limbs[2] == 0 && self.limbs[3] == 0
    }

    /// Whether the scalar is below the group order.
    pub fn is_reduced(&self) -> (reduced: bool)
        ensures
            reduced == self.spec_is_reduced(),
    {
        if self.limbs[3] != ORDER_LIMB_3 {
            true
        } else if self.limbs[2] != ORDER_LIMB_2 {
            self.limbs[2] < ORDER_LIMB_2
        } else if self.limbs[1] != ORDER_LIMB_1 {
            self.limbs[1] < ORDER_LIMB_1
        } else {
            self.limbs[0] < ORDER_LIMB_0
        }
    }

    /// Whether the scalar lies in `[1, n - 1]`.
    pub fn is_signature_component(&self) -> (ok: bool)
        ensures
            ok == self.spec_is_signature_component(),
    {
        !self.is_zero() && self.is_reduced()
    }
}

/// A candidate affine point of the curve, by its two coordinates. The pair
/// `(0, 0)` stands for the identity.
#[derive(Clone, Copy, Debug, PartialEq, Eq)]
pub struct Point {
    /// Little-endian limbs of the first coordinate.
    pub x: [u64; 4],
    /// Little-endian limbs of the second coordinate.
    pub y: [u64; 4],
}

impl Point {
    /// Whether the point is the identity.
    pub open spec fn spec_is_identity(self) -> bool {
        limbs_value(self.x) == 0 && limbs_value(self.y) == 0
    }

    /// The identity.
    pub open spec fn spec_identity() -> Point {
        Point { x: [0u64, 0u64, 0u64, 0u64], y: [0u64, 0u64, 0u64, 0u64] }
    }

    /// The identity.
    #[verifier::when_used_as_spec(spec_identity)]
    pub fn identity() -> (p: Self)
        ensures
            p == Self::spec_identity(),
            p.spec_is_identity(),
    {
        let p = Point { x: [0, 0, 0, 0], y: [0, 0, 0, 0] };
        proof {
            assert(p.x =~= Self::spec_identity().x);
            assert(p.y =~= Self::spec_identity().y);
        }
        p
    }

    /// Whether the point is the identity.
    pub fn is_identity(&self) -> (identity: bool)
        ensures
            identity == self.spec_is_identity(),
    {
        self.x[0] == 0 && self.x[1] == 0 && self.x[2] == 0 && self.x[3] == 0 && self.y[0] == 0
            && self.y[1] == 0 && self.y[2] == 0 && self.y[3] == 0
    }
}

} // verus!
