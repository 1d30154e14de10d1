//! Scalars read from byte slices.

use vstd::prelude::*;
use curve25519_dalek::scalar::Scalar;

verus! {

#[verifier::external_type_specification]
#[verifier::external_body]
pub struct ExScalar(Scalar);

/// The value of bytes read as a little-endian unsigned integer.
pub open spec fn le_value(b: Seq<u8>) -> nat
    decreases b.len(),
{
    if b.len() == 0 {
        0
    } else {
        b[0] as nat + 256 * le_value(b.drop_first())
    }
}

/// The order of the prime-order group.
pub open spec fn group_order() -> nat {
    vstd::arithmetic::power2::pow2(252) + 27742317777372353535851937790883648493
}

/// The scalar that `Scalar::from_bytes_mod_order_wide` makes of 64 bytes.
pub uninterp spec fn wide_scalar_of(bytes: Seq<u8>) -> Scalar;

/// The scalar that `Scalar::from_canonical_bytes` makes of 32 canonical bytes.
pub uninterp spec fn canonical_scalar_of(bytes: Seq<u8>) -> Scalar;

/// Relies on `Scalar::from_bytes_mod_order_wide`: the 512-bit little-endian
/// integer reduced modulo the group order; it depends on the bytes alone.
#[verifier::external_body]
fn reduce_wide(bytes: &[u8; 64]) -> (r: Scalar)
    ensures
        r == wide_scalar_of(bytes@),
{
    Scalar::from_bytes_mod_order_wide(bytes)
}

/// Relies on `Scalar::from_canonical_bytes`: a scalar exactly when the
/// little-endian integer is below the group order.
#[verifier::external_body]
fn canonical(bytes: [u8; 32]) -> (r: Option<Scalar>)
    ensures
        r == if le_value(bytes@) < group_order() {
            Some(canonical_scalar_of(bytes@))
        } else {
            None
        },
{
    Scalar::from_canonical_bytes(bytes)
}

/// Reads a scalar from 64 bytes, reduced modulo the group order.
pub fn scalar_from_slice_wide(bytes: &[u8]) -> (r: Scalar)
    requires
        bytes@.len() == 64,
    ensures
        r == wide_scalar_of(bytes@),
{
    let mut scalar_bytes = [0u8; 64];
    let mut i: usize = 0;
    while i < 64
        invariant
            bytes@.len() == 64,
            0 <= i <= 64,
            forall|j: int| 0 <= j < i ==> scalar_bytes@[j] == bytes@[j],
        decreases 64 - i,
    {
        scalar_bytes[i] = bytes[i];
        i = i + 1;
    }
    assert(scalar_bytes@ =~= bytes@);
    reduce_wide(&scalar_bytes)
}

/// Reads a scalar from 32 bytes that must encode it canonically: `None`
/// unless the little-endian integer is below the group order.
pub fn scalar_from_slice_canonical(bytes: &[u8]) -> (r: Option<Scalar>)
    requires
        bytes@.len() == 32,
    ensures
        r == if le_value(bytes@) < group_order() {
            Some(canonical_scalar_of(bytes@))
        } else {
            None
        },
{
    let mut scalar_bytes = [0u8; 32];
    let mut i: usize = 0;
    while i < 32
        invariant
            bytes@.len() == 32,
            0 <= i <= 32,
            forall|j: int| 0 <= j < i ==> scalar_bytes@[j] == bytes@[j],
        decreases 32 - i,
    {
        scalar_bytes[i] = bytes[i];
        i = i + 1;
    }
    assert(scalar_bytes@ =~= bytes@);
    canonical(scalar_bytes)
}

} // verus!
