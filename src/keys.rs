use vstd::prelude::*;

verus! {

/// Account addresses are Solana public keys: opaque 32-byte values that the
/// core only stores, copies and compares.
#[verifier::external_type_specification]
#[verifier::external_body]
pub struct ExPubkey(anchor_lang::prelude::Pubkey);

/// Relies on the `Clone` that `Pubkey` derives (it is also `Copy`): the copy
/// is the same key.
pub assume_specification[ <anchor_lang::prelude::Pubkey as Clone>::clone ](
    k: &anchor_lang::prelude::Pubkey,
) -> (r: anchor_lang::prelude::Pubkey)
    ensures
        r == *k,
;

/// Relies on the `PartialEq` that `Pubkey` derives over its 32 bytes: two keys
/// compare equal exactly when they are the same value.
#[verifier::external_body]
pub(crate) fn same_key(a: &anchor_lang::prelude::Pubkey, b: &anchor_lang::prelude::Pubkey) -> (r: bool)
    ensures
        r == (*a == *b),
{
    a == b
}

} // verus!
