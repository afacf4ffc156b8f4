use ecdsa_circuit::params::composition_bit_len;
use ecdsa_circuit::{
    Configuration, EcdsaVerifyCircuit, Point, Scalar, Witness, BIT_LEN_LIMB, NUMBER_OF_LIMBS,
    NUMBER_OF_PAIRS,
};

const ORDER: [u64; 4] =
    [0xBFD25E8CD0364141, 0xBAAEDCE6AF48A03B, 0xFFFFFFFFFFFFFFFE, 0xFFFFFFFFFFFFFFFF];

#[test]
fn limbs_are_cut_into_chunks_of_17_bits() {
    assert_eq!(BIT_LEN_LIMB, 68);
    assert_eq!(NUMBER_OF_LIMBS, 4);
    assert_eq!(NUMBER_OF_PAIRS, 2);
    assert_eq!(composition_bit_len(), 17);
}

#[test]
fn configuration_merges_base_then_scalar_overflows() {
    let config = EcdsaVerifyCircuit::configure(vec![2, 3, 9], vec![4, 3]);
    assert_eq!(
        config,
        Configuration {
            composition_bit_lens: vec![17],
            overflow_bit_lens: vec![2, 3, 9, 4, 3],
        }
    );
}

#[test]
fn configuration_of_empty_overflows() {
    let config = EcdsaVerifyCircuit::configure(vec![], vec![]);
    assert_eq!(config.composition_bit_lens, vec![17]);
    assert_eq!(config.overflow_bit_lens, Vec::<usize>::new());
    let config = EcdsaVerifyCircuit::configure(vec![], vec![5]);
    assert_eq!(config.overflow_bit_lens, vec![5]);
    let config = EcdsaVerifyCircuit::configure(vec![6], vec![]);
    assert_eq!(config.overflow_bit_lens, vec![6]);
}

#[test]
fn configuration_is_the_same_for_the_same_parameters() {
    let first = EcdsaVerifyCircuit::configure(vec![2, 3, 9], vec![4, 3]);
    let second = EcdsaVerifyCircuit::configure(vec![2, 3, 9], vec![4, 3]);
    assert_eq!(first, second);
    let swapped = EcdsaVerifyCircuit::configure(vec![4, 3], vec![2, 3, 9]);
    assert_ne!(first, swapped);
}

#[test]
fn zero_is_zero_and_reduced() {
    let zero = Scalar::from_limbs([0, 0, 0, 0]);
    assert!(zero.is_zero());
    assert!(zero.is_reduced());
    assert!(!zero.is_signature_component());
}

#[test]
fn one_limb_is_enough_to_be_nonzero() {
    for i in 0..4 {
        let mut limbs = [0u64; 4];
        limbs[i] = 1;
        let scalar = Scalar::from_limbs(limbs);
        assert!(!scalar.is_zero());
        assert!(scalar.is_reduced());
        assert!(scalar.is_signature_component());
    }
}

#[test]
fn order_is_the_first_unreduced_scalar() {
    let mut below = ORDER;
    below[0] -= 1;
    assert!(Scalar::from_limbs(below).is_reduced());
    assert!(Scalar::from_limbs(below).is_signature_component());
    assert!(!Scalar::from_limbs(ORDER).is_reduced());
    assert!(!Scalar::from_limbs(ORDER).is_signature_component());
    let mut above = ORDER;
    above[0] += 1;
    assert!(!Scalar::from_limbs(above).is_reduced());
}

#[test]
fn reduction_is_decided_by_the_most_significant_difference() {
    assert!(Scalar::from_limbs([u64::MAX, u64::MAX, u64::MAX, 0xFFFFFFFFFFFFFFFE]).is_reduced());
    assert!(Scalar::from_limbs([u64::MAX, u64::MAX, 0xFFFFFFFFFFFFFFFD, u64::MAX]).is_reduced());
    assert!(!Scalar::from_limbs([0, 0, u64::MAX, u64::MAX]).is_reduced());
    assert!(Scalar::from_limbs([u64::MAX, 0xBAAEDCE6AF48A03A, ORDER[2], ORDER[3]]).is_reduced());
    assert!(!Scalar::from_limbs([0, 0xBAAEDCE6AF48A03C, ORDER[2], ORDER[3]]).is_reduced());
    assert!(!Scalar::from_limbs([u64::MAX, u64::MAX, u64::MAX, u64::MAX]).is_reduced());
}

#[test]
fn from_limbs_keeps_the_limbs() {
    let limbs = [1, 2, 3, 4];
    assert_eq!(Scalar::from_limbs(limbs), Scalar { limbs });
    assert_eq!(Scalar::from_limbs(limbs).limbs, [1, 2, 3, 4]);
}

#[test]
fn identity_has_zero_coordinates() {
    let identity = Point::identity();
    assert_eq!(identity, Point { x: [0, 0, 0, 0], y: [0, 0, 0, 0] });
    assert!(identity.is_identity());
    assert!(!Point { x: [0, 0, 0, 0], y: [0, 0, 1, 0] }.is_identity());
    assert!(!Point { x: [0, 0, 0, 1], y: [0, 0, 0, 0] }.is_identity());
}

#[test]
fn map_reaches_a_known_value_only() {
    let double = |x: u64| 2 * x;
    assert_eq!(Witness::known(21u64).map(double), Witness::Known(42u64));
    assert_eq!(Witness::<u64>::unknown().map(double), Witness::Unknown);
    assert_eq!(Witness::Known((1u8, 2u8)).map(|pair| pair.1), Witness::Known(2u8));
}

#[test]
fn default_witness_is_unknown() {
    assert_eq!(Witness::<Scalar>::default(), Witness::Unknown);
    assert_eq!(Witness::<Scalar>::unknown(), Witness::Unknown);
    assert_eq!(Witness::known(7u8), Witness::Known(7u8));
    assert_eq!(Witness::Known(7u8).clone(), Witness::Known(7u8));
}
