//! Account identifiers.
//!
//! The marketplace identifies every caller by an `ink::primitives::AccountId`.
//! The type is opaque to the verifier; this module gives its 32 bytes a name
//! and states, without proof, how construction and comparison act on them.

use vstd::prelude::*;
use ink::primitives::AccountId;

verus! {

/// Declares `ink::primitives::AccountId` so that it can stand in signatures
/// and fields. Nothing is known of a value of it but what the items below say.
#[verifier::external_type_specification]
#[verifier::external_body]
pub struct ExAccountId(AccountId);

/// The 32 bytes held by an account identifier, as `AccountId::as_ref` hands them out.
pub uninterp spec fn bytes_de_cuenta(cuenta: AccountId) -> Seq<u8>;

/// Calls `AccountId::from` on a 32-byte array.
///
/// Trusted: the identifier built holds exactly the bytes given.
#[verifier::external_body]
fn cuenta_desde_bytes(bytes: [u8; 32]) -> (cuenta: AccountId)
    ensures
        bytes_de_cuenta(cuenta) == bytes@,
{
    AccountId::from(bytes)
}

/// Calls `AccountId::eq`.
///
/// Trusted: two identifiers compare equal exactly when their bytes are the same.
#[verifier::external_body]
pub(crate) fn misma_cuenta(a: &AccountId, b: &AccountId) -> (iguales: bool)
    ensures
        iguales == (bytes_de_cuenta(*a) == bytes_de_cuenta(*b)),
{
    a.eq(b)
}

/// The account whose 32 bytes are all `n`.
pub fn account(n: u8) -> (cuenta: AccountId)
    ensures
        bytes_de_cuenta(cuenta) == Seq::new(32, |i: int| n),
{
    let bytes: [u8; 32] = [n; 32];
    let cuenta = cuenta_desde_bytes(bytes);
    assert(bytes@ =~= Seq::new(32, |i: int| n));
    cuenta
}

} // verus!
