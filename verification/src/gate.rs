//! The authorisation gate: both co-signers must be who they are expected to
//! be, and both must have signed.

use crate::account::Account;
use crate::address::Address;
use crate::config::Signers;
use crate::error::Signer;
use vstd::prelude::*;

verus! {

/// The account is the expected identity, byte for byte, and has signed.
pub open spec fn approves(expected: Address, account: Account) -> bool {
    account.key@ == expected@ && account.is_signer
}

/// The first co-signer that is refused, the admin before the second signer.
pub open spec fn refusal(signers: Signers, admin: Account, second: Account) -> Option<Signer> {
    if !approves(signers.admin, admin) {
        Some(Signer::Admin)
    } else if !approves(signers.second, second) {
        Some(Signer::Second)
    } else {
        None
    }
}

/// Checks one co-signer against its expected identity.
pub fn approve(expected: &Address, account: &Account) -> (approved: bool)
    ensures
        approved == approves(*expected, *account),
{
    account.key.same_as(expected) && account.is_signer
}

/// Admits the invocation where both co-signers are approved, and otherwise
/// names the first that is not.
pub fn authorize(signers: &Signers, admin: &Account, second: &Account) -> (verdict: Result<
    (),
    Signer,
>)
    ensures
        verdict == match refusal(*signers, *admin, *second) {
            Some(who) => Err::<(), _>(who),
            None => Ok(()),
        },
{
    if !approve(&signers.admin, admin) {
        return Err(Signer::Admin);
    }
    if !approve(&signers.second, second) {
        return Err(Signer::Second);
    }
    Ok(())
}

} // verus!
