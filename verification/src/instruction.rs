//! Instructions for the ledger's system, token and associated-account
//! programs, held as plain values.

use crate::address::Address;
use solana_program::pubkey::Pubkey;
use vstd::bytes::spec_u64_to_le_bytes;
use vstd::prelude::*;

verus! {

/// Address of the system program.
pub const SYSTEM_PROGRAM_ID: [u8; 32] = [
    0, 0, 0, 0, 0, 0, 0, 0, 0, 0, 0, 0, 0, 0, 0, 0, 0, 0, 0, 0, 0, 0, 0, 0, 0, 0, 0, 0, 0, 0, 0, 0,
];

/// Address of the token program.
pub const TOKEN_PROGRAM_ID: [u8; 32] = [
    6, 221, 246, 225, 215, 101, 161, 147, 217, 203, 225, 70, 206, 235, 121, 172, 28, 180, 133, 237,
    95, 91, 55, 145, 58, 140, 245, 133, 126, 255, 0, 169,
];

/// Address of the associated-account program.
pub const ASSOCIATED_PROGRAM_ID: [u8; 32] = [
    140, 151, 37, 143, 78, 36, 137, 241, 187, 61, 16, 41, 20, 142, 13, 131, 11, 90, 19, 153, 218,
    255, 16, 132, 4, 142, 123, 216, 219, 233, 248, 89,
];

/// Address of the rent sysvar.
pub const RENT_SYSVAR_ID: [u8; 32] = [
    6, 167, 213, 23, 25, 44, 92, 81, 33, 140, 201, 76, 61, 74, 241, 127, 88, 218, 238, 8, 155, 161,
    253, 68, 227, 219, 217, 138, 0, 0, 0, 0,
];

/// Status code with which the token library refuses a foreign program id.
pub const INCORRECT_PROGRAM_ID: u64 = 0x7_0000_0000;

/// One account named by an instruction.
#[derive(Clone, Copy, Debug, PartialEq, Eq)]
pub struct AccountMeta {
    pub key: Address,
    pub is_signer: bool,
    pub is_writable: bool,
}

/// An instruction for one program of the ledger.
#[derive(Clone, Debug, PartialEq, Eq)]
pub struct Instruction {
    pub program_id: Address,
    pub accounts: Vec<AccountMeta>,
    pub data: Vec<u8>,
}

/// An `AccountMeta` with its address as bytes.
pub struct MetaView {
    pub key: Seq<u8>,
    pub is_signer: bool,
    pub is_writable: bool,
}

/// An `Instruction` as program address, accounts and payload.
pub struct InstructionView {
    pub program_id: Seq<u8>,
    pub accounts: Seq<MetaView>,
    pub data: Seq<u8>,
}

impl View for AccountMeta {
    type V = MetaView;

    open spec fn view(&self) -> MetaView {
        MetaView { key: self.key@, is_signer: self.is_signer, is_writable: self.is_writable }
    }
}

impl View for Instruction {
    type V = InstructionView;

    open spec fn view(&self) -> InstructionView {
        InstructionView {
            program_id: self.program_id@,
            accounts: self.accounts@.map_values(|meta: AccountMeta| meta@),
            data: self.data@,
        }
    }
}

/// An account that the instruction may change.
pub open spec fn writable(key: Seq<u8>, is_signer: bool) -> MetaView {
    MetaView { key, is_signer, is_writable: true }
}

/// An account that the instruction only reads.
pub open spec fn readonly(key: Seq<u8>, is_signer: bool) -> MetaView {
    MetaView { key, is_signer, is_writable: false }
}

/// The payload with which the system program is asked to create an account
/// of `space` bytes, funded with `lamports` and assigned to `owner`.
pub uninterp spec fn create_account_data(lamports: u64, space: u64, owner: Seq<u8>) -> Seq<u8>;

/// The address that the ledger derives for the holding account of `wallet`
/// for `mint` under `token_program`, if it finds one.
pub uninterp spec fn associated_address(
    wallet: Seq<u8>,
    token_program: Seq<u8>,
    mint: Seq<u8>,
) -> Option<Seq<u8>>;

/// The payload with which the associated-account program is asked to create
/// a holding account.
pub uninterp spec fn associated_account_data(
    funding: Seq<u8>,
    wallet: Seq<u8>,
    mint: Seq<u8>,
    token_program: Seq<u8>,
) -> Seq<u8>;

/// The instruction that asks the system program to create `to`, paid for by
/// `from`.
pub open spec fn create_account_instruction(
    from: Seq<u8>,
    to: Seq<u8>,
    lamports: u64,
    space: u64,
    owner: Seq<u8>,
) -> InstructionView {
    InstructionView {
        program_id: SYSTEM_PROGRAM_ID@,
        accounts: seq![writable(from, true), writable(to, true)],
        data: create_account_data(lamports, space, owner),
    }
}

/// The payload that stamps a mint: tag 0, the decimals, the mint authority,
/// then the freeze authority behind a 1.
pub open spec fn initialize_mint_data(
    mint_authority: Seq<u8>,
    freeze_authority: Seq<u8>,
    decimals: u8,
) -> Seq<u8> {
    seq![0u8, decimals] + mint_authority + seq![1u8] + freeze_authority
}

/// The instruction that stamps `mint` as a token class.
pub open spec fn initialize_mint_instruction(
    token_program: Seq<u8>,
    mint: Seq<u8>,
    mint_authority: Seq<u8>,
    freeze_authority: Seq<u8>,
    decimals: u8,
) -> InstructionView {
    InstructionView {
        program_id: token_program,
        accounts: seq![writable(mint, false), readonly(RENT_SYSVAR_ID@, false)],
        data: initialize_mint_data(mint_authority, freeze_authority, decimals),
    }
}

/// The instruction that creates the holding account of `wallet` for `mint`
/// at `holding`, paid for by `funding`.
pub open spec fn associated_account_instruction(
    funding: Seq<u8>,
    holding: Seq<u8>,
    wallet: Seq<u8>,
    mint: Seq<u8>,
    token_program: Seq<u8>,
) -> InstructionView {
    InstructionView {
        program_id: ASSOCIATED_PROGRAM_ID@,
        accounts: seq![
            writable(funding, true),
            writable(holding, false),
            readonly(wallet, false),
            readonly(mint, false),
            readonly(SYSTEM_PROGRAM_ID@, false),
            readonly(token_program, false),
        ],
        data: associated_account_data(funding, wallet, mint, token_program),
    }
}

/// The payload that mints: tag 7, then the amount as eight little-endian
/// bytes.
pub open spec fn mint_to_data(amount: u64) -> Seq<u8> {
    seq![7u8] + spec_u64_to_le_bytes(amount)
}

/// The instruction that mints `amount` of `mint` into `account`, on the word
/// of `owner` with `signer` signing.
pub open spec fn mint_to_instruction(
    token_program: Seq<u8>,
    mint: Seq<u8>,
    account: Seq<u8>,
    owner: Seq<u8>,
    signer: Seq<u8>,
    amount: u64,
) -> InstructionView {
    InstructionView {
        program_id: token_program,
        accounts: seq![
            writable(mint, false),
            writable(account, false),
            readonly(owner, false),
            readonly(signer, true),
        ],
        data: mint_to_data(amount),
    }
}

/// `system_instruction::create_account`: the instruction goes to the system
/// program and names payer and new account, both signing and writable; its
/// payload is a function of amount, size and owner, named
/// `create_account_data`.
#[verifier::external_body]
pub(crate) fn system_create_account(
    from: &Address,
    to: &Address,
    lamports: u64,
    space: u64,
    owner: &Address,
) -> (ix: Instruction)
    ensures
        ix@.program_id == SYSTEM_PROGRAM_ID@,
        ix@.accounts == seq![writable(from@, true), writable(to@, true)],
        ix@.data == create_account_data(lamports, space, owner@),
{
    let (from, to) = (Pubkey::new_from_array(from.bytes), Pubkey::new_from_array(to.bytes));
    let owner = Pubkey::new_from_array(owner.bytes);
    let ix = solana_program::system_instruction::create_account(&from, &to, lamports, space, &owner);
    let accounts = ix.accounts.iter().map(|m| AccountMeta {
        key: Address { bytes: m.pubkey.to_bytes() },
        is_signer: m.is_signer,
        is_writable: m.is_writable,
    });
    Instruction {
        program_id: Address { bytes: ix.program_id.to_bytes() },
        accounts: accounts.collect(),
        data: ix.data,
    }
}

/// `spl_token::instruction::initialize_mint` with a freeze authority: it
/// succeeds exactly for the token program's own id and otherwise fails with
/// `IncorrectProgramId`; the instruction goes to that program, names the
/// mint as writable and the rent sysvar as read-only, and packs tag 0, the
/// decimals, the mint authority and the freeze authority behind a 1.
#[verifier::external_body]
pub(crate) fn token_initialize_mint(
    token_program: &Address,
    mint: &Address,
    mint_authority: &Address,
    freeze_authority: &Address,
    decimals: u8,
) -> (built: Result<Instruction, u64>)
    ensures
        built is Ok <==> token_program@ == TOKEN_PROGRAM_ID@,
        built matches Err(code) ==> code == INCORRECT_PROGRAM_ID,
        built matches Ok(ix) ==> {
            &&& ix@.program_id == token_program@
            &&& ix@.accounts == seq![writable(mint@, false), readonly(RENT_SYSVAR_ID@, false)]
            &&& ix@.data == seq![0u8, decimals] + mint_authority@ + seq![1u8] + freeze_authority@
        },
{
    let (program, mint) = (Pubkey::new_from_array(token_program.bytes), Pubkey::new_from_array(mint.bytes));
    let authority = Pubkey::new_from_array(mint_authority.bytes);
    let freeze = Pubkey::new_from_array(freeze_authority.bytes);
    let ix = spl_token::instruction::initialize_mint(&program, &mint, &authority, Some(&freeze), decimals)
        .map_err(u64::from)?;
    let accounts = ix.accounts.iter().map(|m| AccountMeta {
        key: Address { bytes: m.pubkey.to_bytes() },
        is_signer: m.is_signer,
        is_writable: m.is_writable,
    });
    Ok(Instruction { program_id: Address { bytes: ix.program_id.to_bytes() }, accounts: accounts.collect(), data: ix.data })
}

/// `Pubkey::try_find_program_address` for the associated-account program,
/// seeded with wallet, token program and mint: the result is a function of
/// the three addresses alone, named `associated_address`.
#[verifier::external_body]
pub(crate) fn find_associated_address(
    wallet: &Address,
    token_program: &Address,
    mint: &Address,
) -> (found: Option<Address>)
    ensures
        match found {
            Some(holding) => associated_address(wallet@, token_program@, mint@) == Some(holding@),
            None => associated_address(wallet@, token_program@, mint@) is None,
        },
{
    let seeds: [&[u8]; 3] = [&wallet.bytes, &token_program.bytes, &mint.bytes];
    Pubkey::try_find_program_address(&seeds, &spl_associated_token_account::id())
        .map(|(key, _)| Address { bytes: key.to_bytes() })
}

/// `spl_associated_token_account::instruction::create_associated_token_account`:
/// it derives the holding address as `Pubkey::find_program_address` does and
/// stops where none is found, which `requires` leaves out. The instruction
/// goes to the associated-account program and names the payer (signing,
/// writable), the derived address (writable), then wallet, mint, system
/// program and token program, read-only; its payload is named
/// `associated_account_data`.
#[verifier::external_body]
pub(crate) fn associated_create(
    funding: &Address,
    wallet: &Address,
    mint: &Address,
    token_program: &Address,
) -> (ix: Instruction)
    requires
        associated_address(wallet@, token_program@, mint@) is Some,
    ensures
        ix@.program_id == ASSOCIATED_PROGRAM_ID@,
        ix@.accounts == seq![
            writable(funding@, true),
            writable(associated_address(wallet@, token_program@, mint@)->0, false),
            readonly(wallet@, false),
            readonly(mint@, false),
            readonly(SYSTEM_PROGRAM_ID@, false),
            readonly(token_program@, false),
        ],
        ix@.data == associated_account_data(funding@, wallet@, mint@, token_program@),
{
    let (funding, wallet) = (Pubkey::new_from_array(funding.bytes), Pubkey::new_from_array(wallet.bytes));
    let (mint, program) = (Pubkey::new_from_array(mint.bytes), Pubkey::new_from_array(token_program.bytes));
    let ix = spl_associated_token_account::instruction::create_associated_token_account(
        &funding, &wallet, &mint, &program);
    let accounts = ix.accounts.iter().map(|m| AccountMeta {
        key: Address { bytes: m.pubkey.to_bytes() },
        is_signer: m.is_signer,
        is_writable: m.is_writable,
    });
    Instruction { program_id: Address { bytes: ix.program_id.to_bytes() }, accounts: accounts.collect(), data: ix.data }
}

/// `spl_token::instruction::mint_to` with one signer: it succeeds exactly
/// for the token program's own id and otherwise fails with
/// `IncorrectProgramId`; the instruction goes to that program, names mint
/// and destination as writable, the owner as read-only and not signing, the
/// signer as read-only and signing, and packs tag 7 and the amount as eight
/// little-endian bytes.
#[verifier::external_body]
pub(crate) fn token_mint_to(
    token_program: &Address,
    mint: &Address,
    account: &Address,
    owner: &Address,
    signer: &Address,
    amount: u64,
) -> (built: Result<Instruction, u64>)
    ensures
        built is Ok <==> token_program@ == TOKEN_PROGRAM_ID@,
        built matches Err(code) ==> code == INCORRECT_PROGRAM_ID,
        built matches Ok(ix) ==> {
            &&& ix@.program_id == token_program@
            &&& ix@.accounts == seq![
                writable(mint@, false),
                writable(account@, false),
                readonly(owner@, false),
                readonly(signer@, true),
            ]
            &&& ix@.data == seq![7u8] + spec_u64_to_le_bytes(amount)
        },
{
    let (program, mint) = (Pubkey::new_from_array(token_program.bytes), Pubkey::new_from_array(mint.bytes));
    let (account, owner) = (Pubkey::new_from_array(account.bytes), Pubkey::new_from_array(owner.bytes));
    let signer = Pubkey::new_from_array(signer.bytes);
    let ix = spl_token::instruction::mint_to(&program, &mint, &account, &owner, &[&signer], amount)
        .map_err(u64::from)?;
    let accounts = ix.accounts.iter().map(|m| AccountMeta {
        key: Address { bytes: m.pubkey.to_bytes() },
        is_signer: m.is_signer,
        is_writable: m.is_writable,
    });
    Ok(Instruction { program_id: Address { bytes: ix.program_id.to_bytes() }, accounts: accounts.collect(), data: ix.data })
}

} // verus!
