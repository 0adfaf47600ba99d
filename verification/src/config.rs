//! The two identities that must co-sign every invocation.

use crate::address::{base58_address, Address};
use vstd::prelude::*;

verus! {

/// The expected identities of the two co-signers.
#[derive(Clone, Copy, Debug, PartialEq, Eq)]
pub struct Signers {
    /// The first co-signer, who becomes the mint authority.
    pub admin: Address,
    /// The second co-signer.
    pub second: Address,
}

/// Which of the two configured identities is not a well-formed address.
#[derive(Clone, Copy, Debug, PartialEq, Eq, Structural)]
pub enum ConfigError {
    MalformedAdmin,
    MalformedSecond,
}

/// Both identities where both are present, else the first that is missing:
/// the admin's before the second signer's.
pub open spec fn paired(admin: Option<Address>, second: Option<Address>) -> Result<
    Signers,
    ConfigError,
> {
    match (admin, second) {
        (None, _) => Err(ConfigError::MalformedAdmin),
        (Some(_), None) => Err(ConfigError::MalformedSecond),
        (Some(admin), Some(second)) => Ok(Signers { admin, second }),
    }
}

impl Signers {
    pub fn new(admin: Address, second: Address) -> (signers: Signers)
        ensures
            signers.admin == admin,
            signers.second == second,
    {
        Signers { admin, second }
    }

    /// Pairs the two identities as they were read, `None` standing for a
    /// text that is no address.
    pub fn both(admin: Option<Address>, second: Option<Address>) -> (signers: Result<
        Signers,
        ConfigError,
    >)
        ensures
            signers == paired(admin, second),
    {
        match (admin, second) {
            (None, _) => Err(ConfigError::MalformedAdmin),
            (Some(_), None) => Err(ConfigError::MalformedSecond),
            (Some(admin), Some(second)) => Ok(Signers { admin, second }),
        }
    }

    /// Reads the two identities from their base58 texts. A text that is no
    /// address is an error, the admin's before the second signer's.
    pub fn load(admin: &str, second: &str) -> (signers: Result<Signers, ConfigError>)
        ensures
            match signers {
                Ok(s) => {
                    &&& base58_address(admin@) == Some(s.admin@)
                    &&& base58_address(second@) == Some(s.second@)
                },
                Err(ConfigError::MalformedAdmin) => base58_address(admin@) is None,
                Err(ConfigError::MalformedSecond) => {
                    &&& base58_address(admin@) is Some
                    &&& base58_address(second@) is None
                },
            },
    {
        Signers::both(Address::parse(admin), Address::parse(second))
    }
}

} // verus!
