use curve25519_dalek::scalar::Scalar;
use signal_bridge::scalar::{scalar_from_slice_canonical, scalar_from_slice_wide};

#[test]
fn wide_reduction() {
    assert_eq!(scalar_from_slice_wide(&[0u8; 64]), Scalar::zero());
    let mut one = [0u8; 64];
    one[0] = 1;
    assert_eq!(scalar_from_slice_wide(&one), Scalar::one());
}

#[test]
fn canonical_bytes() {
    let mut one = [0u8; 32];
    one[0] = 1;
    assert_eq!(scalar_from_slice_canonical(&one), Some(Scalar::one()));
    assert_eq!(scalar_from_slice_canonical(&[0xffu8; 32]), None);
}
