//! Constant-time comparison and selection on fixed-width values.
//!
//! The operations here are carried out by the `subtle` and `aligned_cmov`
//! crates. Their contracts are stated, not proved: each one says what the
//! operation computes, and the crates see to it that the way it is computed
//! does not depend on the values involved.

use aligned_cmov::subtle::{Choice, ConstantTimeEq};
use aligned_cmov::CMov;
use vstd::prelude::*;

verus! {

/// Whether two byte strings are equal, found without stopping at the first
/// byte that differs. The answer is a byte: 1 for equal, 0 for different.
///
/// Calls `subtle`'s `ConstantTimeEq::ct_eq` on slices, which answers 0 for
/// slices of different lengths and otherwise compares every pair of bytes,
/// and unwraps the `Choice` it returns. The contract claims that the answer
/// is 1 exactly when the contents are equal, and 0 otherwise.
#[verifier::external_body]
pub(crate) fn ct_eq_bytes(a: &[u8], b: &[u8]) -> (equal: u8)
    ensures
        equal == (if a@ == b@ { 1u8 } else { 0u8 }),
{
    a.ct_eq(b).unwrap_u8()
}

/// Whether two 32-bit values are equal, found by arithmetic on their bits.
/// The answer is a byte: 1 for equal, 0 for different.
///
/// Calls `subtle`'s `ConstantTimeEq::ct_eq` for `u32` and unwraps the
/// `Choice` it returns. The contract claims that the answer is 1 exactly
/// when the two values are equal, and 0 otherwise.
#[verifier::external_body]
pub(crate) fn ct_eq_u32(a: u32, b: u32) -> (equal: u8)
    ensures
        equal == (if a == b { 1u8 } else { 0u8 }),
{
    a.ct_eq(&b).unwrap_u8()
}

/// Overwrites `dest` with `src` when `condition` holds and leaves it as it
/// is otherwise, by one conditional-move instruction.
///
/// Calls `aligned_cmov`'s `CMov::cmov` for `u32`. The contract claims that
/// `dest` ends up as `src` exactly when `condition` is true.
#[verifier::external_body]
pub(crate) fn cmov_u32(dest: &mut u32, condition: bool, src: &u32)
    ensures
        *final(dest) == (if condition { *src } else { *old(dest) }),
{
    dest.cmov(Choice::from(condition as u8), src)
}

/// Overwrites `dest` with `src` when `condition` holds and leaves it as it
/// is otherwise, by one conditional-move instruction.
///
/// Calls `aligned_cmov`'s `CMov::cmov` for `u64`. The contract claims that
/// `dest` ends up as `src` exactly when `condition` is true.
#[verifier::external_body]
pub(crate) fn cmov_u64(dest: &mut u64, condition: bool, src: &u64)
    ensures
        *final(dest) == (if condition { *src } else { *old(dest) }),
{
    dest.cmov(Choice::from(condition as u8), src)
}

} // verus!
