//! The four sub-operations: what each asks of the ledger, which accounts it
//! is handed, and what it reports for the log.

use crate::account::{
    Accounts, ADMIN, ASSOCIATED_PROGRAM, HOLDING, MINT, RENT, SYSTEM_PROGRAM, TOKEN_PROGRAM,
};
use crate::error::{MintError, Stage};
use crate::instruction::{
    associated_account_instruction, associated_address, associated_create,
    create_account_instruction, find_associated_address, initialize_mint_instruction,
    mint_to_instruction, system_create_account, token_initialize_mint, token_mint_to, Instruction,
    InstructionView, INCORRECT_PROGRAM_ID, TOKEN_PROGRAM_ID,
};
use crate::note::Note;
use vstd::prelude::*;

verus! {

/// Lamports in one unit of the native currency.
pub const LAMPORTS_PER_SOL: u64 = 1_000_000_000;

/// Lamports that fund a new mint account: a tenth of one unit of the native
/// currency.
pub const MINT_FUNDING: u64 = LAMPORTS_PER_SOL / 10;

/// Size in bytes of a token-class record.
pub const MINT_SPACE: u64 = 82;

/// Decimal places of the token class: its units are indivisible.
pub const DECIMALS: u8 = 0;

/// Units minted by one invocation.
pub const UNITS: u64 = 1;

/// One sub-operation, ready for the host: the instruction, and the positions
/// in the invocation's account list of the accounts to hand over with it.
#[derive(Clone, Debug, PartialEq, Eq)]
pub struct Call {
    pub instruction: Instruction,
    pub accounts: Vec<usize>,
}

/// A `Call` as its instruction and the positions it names.
pub struct CallView {
    pub instruction: InstructionView,
    pub accounts: Seq<usize>,
}

impl View for Call {
    type V = CallView;

    open spec fn view(&self) -> CallView {
        CallView { instruction: self.instruction@, accounts: self.accounts@ }
    }
}

/// Creating the mint account: the admin pays, the token program owns it.
pub open spec fn create_mint_call(accounts: Accounts) -> CallView {
    CallView {
        instruction: create_account_instruction(
            accounts.admin.key@,
            accounts.mint.key@,
            MINT_FUNDING,
            MINT_SPACE,
            accounts.token_program.key@,
        ),
        accounts: seq![MINT, ADMIN, TOKEN_PROGRAM],
    }
}

/// Stamping the mint as a token class without decimals, the admin being both
/// its mint authority and its freeze authority.
pub open spec fn initialize_mint_call(accounts: Accounts) -> CallView {
    CallView {
        instruction: initialize_mint_instruction(
            accounts.token_program.key@,
            accounts.mint.key@,
            accounts.admin.key@,
            accounts.admin.key@,
            DECIMALS,
        ),
        accounts: seq![MINT, ADMIN, TOKEN_PROGRAM, RENT],
    }
}

/// Creating the admin's holding account for the mint at the derived address
/// `holding`, the admin paying.
pub open spec fn create_holding_call(accounts: Accounts, holding: Seq<u8>) -> CallView {
    CallView {
        instruction: associated_account_instruction(
            accounts.admin.key@,
            holding,
            accounts.admin.key@,
            accounts.mint.key@,
            accounts.token_program.key@,
        ),
        accounts: seq![
            ADMIN,
            HOLDING,
            MINT,
            SYSTEM_PROGRAM,
            TOKEN_PROGRAM,
            ASSOCIATED_PROGRAM,
            RENT,
        ],
    }
}

/// Minting one unit into the supplied holding account, the admin signing as
/// mint authority.
pub open spec fn mint_unit_call(accounts: Accounts) -> CallView {
    CallView {
        instruction: mint_to_instruction(
            accounts.token_program.key@,
            accounts.mint.key@,
            accounts.holding.key@,
            accounts.admin.key@,
            accounts.admin.key@,
            UNITS,
        ),
        accounts: seq![MINT, ADMIN, HOLDING, TOKEN_PROGRAM, RENT],
    }
}

/// The supplied token program is the one that the token library builds for.
pub open spec fn token_program_accepted(accounts: Accounts) -> bool {
    accounts.token_program.key@ == TOKEN_PROGRAM_ID@
}

/// The holding address that the ledger derives for the admin and the mint.
pub open spec fn derived_holding(accounts: Accounts) -> Option<Seq<u8>> {
    associated_address(accounts.admin.key@, accounts.token_program.key@, accounts.mint.key@)
}

/// What a sub-operation asks of the host, or why it cannot be asked.
pub open spec fn planned(stage: Stage, accounts: Accounts) -> Result<CallView, MintError> {
    match stage {
        Stage::CreateMint => Ok(create_mint_call(accounts)),
        Stage::InitializeMint => if token_program_accepted(accounts) {
            Ok(initialize_mint_call(accounts))
        } else {
            Err(MintError::Rejected { stage, code: INCORRECT_PROGRAM_ID })
        },
        Stage::CreateHolding => match derived_holding(accounts) {
            Some(holding) => Ok(create_holding_call(accounts, holding)),
            None => Err(MintError::NoHoldingAddress),
        },
        Stage::MintUnit => if token_program_accepted(accounts) {
            Ok(mint_unit_call(accounts))
        } else {
            Err(MintError::Rejected { stage, code: INCORRECT_PROGRAM_ID })
        },
    }
}

/// What a sub-operation reports for the log before it is asked of the host.
pub open spec fn announced(stage: Stage, accounts: Accounts) -> Seq<Note> {
    match stage {
        Stage::CreateMint => seq![Note::CreatingMint, Note::Mint(accounts.mint.key)],
        Stage::InitializeMint => seq![Note::InitializingMint, Note::Mint(accounts.mint.key)],
        Stage::CreateHolding => seq![Note::CreatingHolding, Note::Holding(accounts.holding.key)],
        Stage::MintUnit => seq![
            Note::Minting,
            Note::Mint(accounts.mint.key),
            Note::Holding(accounts.holding.key),
        ],
    }
}

/// Asks the system program for the mint account.
pub fn create_mint(accounts: &Accounts) -> (call: Call)
    ensures
        call@ == create_mint_call(*accounts),
{
    let instruction = system_create_account(
        &accounts.admin.key,
        &accounts.mint.key,
        MINT_FUNDING,
        MINT_SPACE,
        &accounts.token_program.key,
    );
    Call { instruction, accounts: vec![MINT, ADMIN, TOKEN_PROGRAM] }
}

/// Asks the token program to stamp the mint; refused where the supplied
/// token program is not the one that the token library builds for.
pub fn initialize_mint(accounts: &Accounts) -> (call: Result<Call, MintError>)
    ensures
        call matches Ok(c) ==> planned(Stage::InitializeMint, *accounts) == Ok::<_, MintError>(c@),
        call matches Err(e) ==> planned(Stage::InitializeMint, *accounts) == Err::<CallView, _>(e),
{
    let built = token_initialize_mint(
        &accounts.token_program.key,
        &accounts.mint.key,
        &accounts.admin.key,
        &accounts.admin.key,
        DECIMALS,
    );
    match built {
        Ok(instruction) => Ok(
            Call { instruction, accounts: vec![MINT, ADMIN, TOKEN_PROGRAM, RENT] },
        ),
        Err(code) => Err(MintError::Rejected { stage: Stage::InitializeMint, code }),
    }
}

/// Asks the associated-account program for the admin's holding account;
/// `NoHoldingAddress` where the ledger derives no address for it.
pub fn create_holding(accounts: &Accounts) -> (call: Result<Call, MintError>)
    ensures
        call matches Ok(c) ==> planned(Stage::CreateHolding, *accounts) == Ok::<_, MintError>(c@),
        call matches Err(e) ==> planned(Stage::CreateHolding, *accounts) == Err::<CallView, _>(e),
{
    let derived = find_associated_address(
        &accounts.admin.key,
        &accounts.token_program.key,
        &accounts.mint.key,
    );
    if derived.is_none() {
        return Err(MintError::NoHoldingAddress);
    }
    let instruction = associated_create(
        &accounts.admin.key,
        &accounts.admin.key,
        &accounts.mint.key,
        &accounts.token_program.key,
    );
    Ok(
        Call {
            instruction,
            accounts: vec![
                ADMIN,
                HOLDING,
                MINT,
                SYSTEM_PROGRAM,
                TOKEN_PROGRAM,
                ASSOCIATED_PROGRAM,
                RENT,
            ],
        },
    )
}

/// Asks the token program for one unit in the holding account; refused where
/// the supplied token program is not the one that the token library builds
/// for.
pub fn mint_unit(accounts: &Accounts) -> (call: Result<Call, MintError>)
    ensures
        call matches Ok(c) ==> planned(Stage::MintUnit, *accounts) == Ok::<_, MintError>(c@),
        call matches Err(e) ==> planned(Stage::MintUnit, *accounts) == Err::<CallView, _>(e),
{
    let built = token_mint_to(
        &accounts.token_program.key,
        &accounts.mint.key,
        &accounts.holding.key,
        &accounts.admin.key,
        &accounts.admin.key,
        UNITS,
    );
    match built {
        Ok(instruction) => Ok(
            Call { instruction, accounts: vec![MINT, ADMIN, HOLDING, TOKEN_PROGRAM, RENT] },
        ),
        Err(code) => Err(MintError::Rejected { stage: Stage::MintUnit, code }),
    }
}

/// Prepares the sub-operation of `stage`.
pub fn prepare(stage: Stage, accounts: &Accounts) -> (call: Result<Call, MintError>)
    ensures
        call matches Ok(c) ==> planned(stage, *accounts) == Ok::<_, MintError>(c@),
        call matches Err(e) ==> planned(stage, *accounts) == Err::<CallView, _>(e),
{
    match stage {
        Stage::CreateMint => Ok(create_mint(accounts)),
        Stage::InitializeMint => initialize_mint(accounts),
        Stage::CreateHolding => create_holding(accounts),
        Stage::MintUnit => mint_unit(accounts),
    }
}

/// The log lines that precede the sub-operation of `stage`.
pub fn announce(stage: Stage, accounts: &Accounts) -> (notes: Vec<Note>)
    ensures
        notes@ == announced(stage, *accounts),
{
    match stage {
        Stage::CreateMint => vec![Note::CreatingMint, Note::Mint(accounts.mint.key)],
        Stage::InitializeMint => vec![Note::InitializingMint, Note::Mint(accounts.mint.key)],
        Stage::CreateHolding => vec![Note::CreatingHolding, Note::Holding(accounts.holding.key)],
        Stage::MintUnit => vec![
            Note::Minting,
            Note::Mint(accounts.mint.key),
            Note::Holding(accounts.holding.key),
        ],
    }
}

} // verus!
