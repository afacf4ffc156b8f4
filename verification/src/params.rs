//! Static parameters of the non-native arithmetic.

use vstd::prelude::*;

verus! {

/// Width in bits of one limb of a foreign-field element.
pub const BIT_LEN_LIMB: usize = 68;

/// Number of limbs that represent one foreign-field element.
pub const NUMBER_OF_LIMBS: usize = 4;

/// Number of auxiliary multiples prepared for scalar multiplication: one for
/// the multiplication by the base point and one for the multiplication by the
/// public key.
pub const NUMBER_OF_PAIRS: usize = 2;

/// Width in bits of the chunks into which a limb is cut for range checking.
pub open spec fn spec_composition_bit_len() -> nat {
    (BIT_LEN_LIMB / NUMBER_OF_LIMBS) as nat
}

/// Width in bits of the chunks into which a limb is cut for range checking:
/// the limb width divided by the number of limbs.
pub fn composition_bit_len() -> (len: usize)
    ensures
        len == spec_composition_bit_len(),
        len == 17,
        len * NUMBER_OF_LIMBS == BIT_LEN_LIMB,
{
    BIT_LEN_LIMB / NUMBER_OF_LIMBS
}

} // verus!
