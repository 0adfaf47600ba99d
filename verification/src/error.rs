//! Who may be refused, which sub-operation may fail, and how an invocation
//! ends when it does not succeed.

use vstd::prelude::*;

verus! {

/// One of the two required co-signers.
#[derive(Clone, Copy, Debug, PartialEq, Eq, Structural)]
pub enum Signer {
    /// The first co-signer, who is also the mint authority.
    Admin,
    /// The second co-signer.
    Second,
}

/// One of the four sub-operations, in the order in which they run.
#[derive(Clone, Copy, Debug, PartialEq, Eq, Structural)]
pub enum Stage {
    CreateMint,
    InitializeMint,
    CreateHolding,
    MintUnit,
}

/// Why an invocation did not succeed.
#[derive(Clone, Copy, Debug, PartialEq, Eq, Structural)]
pub enum MintError {
    /// Fewer accounts were supplied than the invocation reads.
    NotEnoughAccountKeys,
    /// A required co-signer is not the expected identity or has not signed.
    Unauthorized(Signer),
    /// A sub-operation was refused; `code` is the status it was refused with.
    Rejected { stage: Stage, code: u64 },
    /// The ledger derives no holding address for the mint.
    NoHoldingAddress,
}

impl Stage {
    /// Position of the sub-operation in the sequence, from 0.
    pub open spec fn rank(self) -> nat {
        match self {
            Stage::CreateMint => 0,
            Stage::InitializeMint => 1,
            Stage::CreateHolding => 2,
            Stage::MintUnit => 3,
        }
    }

    /// The sub-operation that follows, if any.
    pub open spec fn following(self) -> Option<Stage> {
        match self {
            Stage::CreateMint => Some(Stage::InitializeMint),
            Stage::InitializeMint => Some(Stage::CreateHolding),
            Stage::CreateHolding => Some(Stage::MintUnit),
            Stage::MintUnit => None,
        }
    }

    /// The sub-operation that follows, if any.
    pub fn next(self) -> (next: Option<Stage>)
        ensures
            next == self.following(),
    {
        match self {
            Stage::CreateMint => Some(Stage::InitializeMint),
            Stage::InitializeMint => Some(Stage::CreateHolding),
            Stage::CreateHolding => Some(Stage::MintUnit),
            Stage::MintUnit => None,
        }
    }
}

} // verus!
