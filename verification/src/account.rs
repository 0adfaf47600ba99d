//! The accounts of one invocation, bound to their roles by position.

use crate::address::Address;
use vstd::prelude::*;

verus! {

/// What the invocation reads of a supplied account.
#[derive(Clone, Copy, Debug, PartialEq, Eq)]
pub struct Account {
    /// The account's identity.
    pub key: Address,
    /// Whether the host found the account's signature on the invocation.
    pub is_signer: bool,
}

/// Position of the mint account.
pub const MINT: usize = 0;

/// Position of the token holding account.
pub const HOLDING: usize = 1;

/// Position of the first co-signer, the mint authority.
pub const ADMIN: usize = 2;

/// Position of the rent reference.
pub const RENT: usize = 3;

/// Position of the system program.
pub const SYSTEM_PROGRAM: usize = 4;

/// Position of the token program.
pub const TOKEN_PROGRAM: usize = 5;

/// Position of the associated-account program.
pub const ASSOCIATED_PROGRAM: usize = 6;

/// Position of the second co-signer.
pub const SECOND: usize = 7;

/// Number of accounts that an invocation reads.
pub const ACCOUNTS_READ: usize = 8;

/// The accounts of an invocation by role.
#[derive(Clone, Copy, Debug, PartialEq, Eq)]
pub struct Accounts {
    pub mint: Account,
    pub holding: Account,
    pub admin: Account,
    pub rent: Account,
    pub system_program: Account,
    pub token_program: Account,
    pub associated_program: Account,
    pub second: Account,
}

/// The roles of the first eight accounts of `list`.
pub open spec fn bound(list: Seq<Account>) -> Accounts
    recommends
        list.len() >= ACCOUNTS_READ,
{
    Accounts {
        mint: list[MINT as int],
        holding: list[HOLDING as int],
        admin: list[ADMIN as int],
        rent: list[RENT as int],
        system_program: list[SYSTEM_PROGRAM as int],
        token_program: list[TOKEN_PROGRAM as int],
        associated_program: list[ASSOCIATED_PROGRAM as int],
        second: list[SECOND as int],
    }
}

impl Accounts {
    /// Binds the supplied accounts to their roles by position alone; accounts
    /// beyond the eighth are not read.
    pub fn bind(list: &[Account]) -> (accounts: Option<Accounts>)
        ensures
            accounts == if list@.len() >= ACCOUNTS_READ {
                Some(bound(list@))
            } else {
                None
            },
    {
        if list.len() < ACCOUNTS_READ {
            return None;
        }
        Some(
            Accounts {
                mint: list[MINT],
                holding: list[HOLDING],
                admin: list[ADMIN],
                rent: list[RENT],
                system_program: list[SYSTEM_PROGRAM],
                token_program: list[TOKEN_PROGRAM],
                associated_program: list[ASSOCIATED_PROGRAM],
                second: list[SECOND],
            },
        )
    }
}

} // verus!
