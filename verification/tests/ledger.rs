//! Whole invocations against a small ledger in memory. The token program is
//! the real one; the system program and the associated-account program are
//! played by hand, as far as the four sub-operations need them.

use mint_nft::account::Account;
use mint_nft::address::Address;
use mint_nft::config::Signers;
use mint_nft::error::{MintError, Signer, Stage};
use mint_nft::machine::{begin, Progress};
use mint_nft::steps::Call;
use solana_program::account_info::AccountInfo;
use solana_program::instruction::{AccountMeta, Instruction};
use solana_program::program_error::ProgramError;
use solana_program::program_option::COption;
use solana_program::program_pack::Pack;
use solana_program::program_utils::limited_deserialize;
use solana_program::pubkey::Pubkey;
use solana_program::rent::Rent;
use solana_program::system_instruction::SystemInstruction;
use solana_program::sysvar::Sysvar;
use spl_associated_token_account::get_associated_token_address;

const MINT_X: [u8; 32] = [41; 32];
const ADMIN: [u8; 32] = [43; 32];
const SECOND: [u8; 32] = [47; 32];
const ACCOUNT_IN_USE: u64 = 1 << 32;

struct Slot {
    key: Pubkey,
    lamports: u64,
    data: Vec<u8>,
    owner: Pubkey,
}

struct Ledger {
    slots: Vec<Slot>,
    signed: Vec<Pubkey>,
}

impl Ledger {
    /// A ledger that holds the funded admin and the rent sysvar, with the
    /// given keys having signed the transaction.
    fn fresh(signed: &[[u8; 32]]) -> Ledger {
        let system = solana_program::system_program::id();
        let rent_id = solana_program::sysvar::rent::id();
        let mut rent = Slot {
            key: rent_id,
            lamports: 1,
            data: vec![0; Rent::size_of()],
            owner: solana_program::sysvar::id(),
        };
        {
            let mut info = AccountInfo::new(
                &rent.key,
                false,
                true,
                &mut rent.lamports,
                &mut rent.data,
                &rent.owner,
                false,
                0,
            );
            Rent::default().to_account_info(&mut info).unwrap();
        }
        let admin = Slot {
            key: Pubkey::new_from_array(ADMIN),
            lamports: 10_000_000_000,
            data: vec![],
            owner: system,
        };
        Ledger {
            slots: vec![rent, admin],
            signed: signed.iter().map(|key| Pubkey::new_from_array(*key)).collect(),
        }
    }

    fn slot(&self, key: &Pubkey) -> Option<&Slot> {
        self.slots.iter().find(|slot| slot.key == *key)
    }

    fn create(
        &mut self,
        payer: &Pubkey,
        key: &Pubkey,
        lamports: u64,
        space: usize,
        owner: &Pubkey,
    ) -> Result<(), ProgramError> {
        if !self.signed.contains(payer) {
            return Err(ProgramError::MissingRequiredSignature);
        }
        if self.slot(key).is_some() {
            return Err(ProgramError::Custom(0));
        }
        let funds = self.slots.iter_mut().find(|slot| slot.key == *payer);
        let funds = funds.ok_or(ProgramError::NotEnoughAccountKeys)?;
        funds.lamports = funds.lamports.checked_sub(lamports).ok_or(ProgramError::Custom(1))?;
        self.slots.push(Slot { key: *key, lamports, data: vec![0; space], owner: *owner });
        Ok(())
    }

    fn token_program(&mut self, instruction: &Instruction) -> Result<(), ProgramError> {
        let signed = self.signed.clone();
        let infos: Vec<AccountInfo> = self
            .slots
            .iter_mut()
            .map(|slot| {
                AccountInfo::new(
                    &slot.key,
                    signed.contains(&slot.key),
                    true,
                    &mut slot.lamports,
                    &mut slot.data,
                    &slot.owner,
                    false,
                    0,
                )
            })
            .collect();
        let mut handed = Vec::new();
        for meta in &instruction.accounts {
            let info = infos.iter().find(|info| *info.key == meta.pubkey);
            handed.push(info.ok_or(ProgramError::NotEnoughAccountKeys)?.clone());
        }
        spl_token::processor::Processor::process(&spl_token::id(), &handed, &instruction.data)
    }

    fn system_program(&mut self, instruction: &Instruction) -> Result<(), ProgramError> {
        match limited_deserialize(&instruction.data, 1232) {
            Ok(SystemInstruction::CreateAccount { lamports, space, owner }) => {
                let new = instruction.accounts[1].pubkey;
                if !self.signed.contains(&new) {
                    return Err(ProgramError::MissingRequiredSignature);
                }
                self.create(&instruction.accounts[0].pubkey, &new, lamports, space as usize, &owner)
            }
            _ => Err(ProgramError::InvalidInstructionData),
        }
    }

    fn associated_program(&mut self, instruction: &Instruction) -> Result<(), ProgramError> {
        if instruction.data != [0] {
            return Err(ProgramError::InvalidInstructionData);
        }
        let payer = instruction.accounts[0].pubkey;
        let holding = instruction.accounts[1].pubkey;
        let wallet = instruction.accounts[2].pubkey;
        let mint = instruction.accounts[3].pubkey;
        let token = instruction.accounts[5].pubkey;
        if holding != get_associated_token_address(&wallet, &mint) || token != spl_token::id() {
            return Err(ProgramError::InvalidSeeds);
        }
        let size = spl_token::state::Account::LEN;
        self.create(&payer, &holding, Rent::default().minimum_balance(size), size, &token)?;
        let inner =
            spl_token::instruction::initialize_account(&token, &holding, &mint, &wallet)?;
        self.token_program(&inner)
    }

    /// Performs one sub-operation as the host would: only the accounts that
    /// were handed over with the call can be named by its instruction.
    fn perform(&mut self, list: &[Account], call: &Call) -> Result<(), u64> {
        let handed: Vec<[u8; 32]> = call.accounts.iter().map(|at| list[*at].key.bytes).collect();
        let instruction = Instruction {
            program_id: Pubkey::new_from_array(call.instruction.program_id.bytes),
            accounts: call
                .instruction
                .accounts
                .iter()
                .map(|meta| AccountMeta {
                    pubkey: Pubkey::new_from_array(meta.key.bytes),
                    is_signer: meta.is_signer,
                    is_writable: meta.is_writable,
                })
                .collect(),
            data: call.instruction.data.clone(),
        };
        if instruction.accounts.iter().any(|meta| !handed.contains(&meta.pubkey.to_bytes())) {
            return Err(u64::from(ProgramError::NotEnoughAccountKeys));
        }
        let done = if instruction.program_id == solana_program::system_program::id() {
            self.system_program(&instruction)
        } else if instruction.program_id == spl_token::id() {
            self.token_program(&instruction)
        } else if instruction.program_id == spl_associated_token_account::id() {
            self.associated_program(&instruction)
        } else {
            Err(ProgramError::IncorrectProgramId)
        };
        done.map_err(u64::from)
    }

    /// One invocation from its first turn to its last; what a failed
    /// invocation changed is discarded, as the host does.
    fn invoke(&mut self, signers: &Signers, list: &[Account]) -> (Result<(), MintError>, usize) {
        let before: Vec<Slot> = self
            .slots
            .iter()
            .map(|slot| Slot {
                key: slot.key,
                lamports: slot.lamports,
                data: slot.data.clone(),
                owner: slot.owner,
            })
            .collect();
        let mut calls = 0;
        let mut turn = begin(signers, list);
        loop {
            match turn.progress {
                Progress::Finished(result) => {
                    if result.is_err() {
                        self.slots = before;
                    }
                    return (result, calls);
                }
                Progress::Pending(invocation, call) => {
                    calls += 1;
                    turn = invocation.resume(self.perform(list, &call));
                }
            }
        }
    }
}

fn hold_x() -> [u8; 32] {
    get_associated_token_address(&Pubkey::new_from_array(ADMIN), &Pubkey::new_from_array(MINT_X))
        .to_bytes()
}

fn supplied(mint: [u8; 32], holding: [u8; 32], signed: &[[u8; 32]]) -> Vec<Account> {
    let keys = [
        mint,
        holding,
        ADMIN,
        solana_program::sysvar::rent::id().to_bytes(),
        solana_program::system_program::id().to_bytes(),
        spl_token::id().to_bytes(),
        spl_associated_token_account::id().to_bytes(),
        SECOND,
    ];
    keys.iter()
        .map(|key| Account { key: Address::new(*key), is_signer: signed.contains(key) })
        .collect()
}

fn configured() -> Signers {
    Signers::new(Address::new(ADMIN), Address::new(SECOND))
}

#[test]
fn fresh_mint_ends_with_one_unit_in_the_holding_account() {
    let signed = [MINT_X, ADMIN, SECOND];
    let mut ledger = Ledger::fresh(&signed);
    let list = supplied(MINT_X, hold_x(), &signed);

    assert_eq!(ledger.invoke(&configured(), &list), (Ok(()), 4));

    let admin = Pubkey::new_from_array(ADMIN);
    let mint_slot = ledger.slot(&Pubkey::new_from_array(MINT_X)).unwrap();
    assert_eq!(mint_slot.owner, spl_token::id());
    assert_eq!(mint_slot.lamports, 100_000_000);
    assert_eq!(mint_slot.data.len(), 82);
    let mint = spl_token::state::Mint::unpack(&mint_slot.data).unwrap();
    assert_eq!(mint.decimals, 0);
    assert_eq!(mint.supply, 1);
    assert_eq!(mint.mint_authority, COption::Some(admin));
    assert_eq!(mint.freeze_authority, COption::Some(admin));

    let holding_slot = ledger.slot(&Pubkey::new_from_array(hold_x())).unwrap();
    assert_eq!(holding_slot.owner, spl_token::id());
    let holding = spl_token::state::Account::unpack(&holding_slot.data).unwrap();
    assert_eq!(holding.amount, 1);
    assert_eq!(holding.owner, admin);
    assert_eq!(holding.mint, Pubkey::new_from_array(MINT_X));
}

#[test]
fn second_invocation_on_the_same_mint_fails_at_the_first_call() {
    let signed = [MINT_X, ADMIN, SECOND];
    let mut ledger = Ledger::fresh(&signed);
    let list = supplied(MINT_X, hold_x(), &signed);
    assert_eq!(ledger.invoke(&configured(), &list), (Ok(()), 4));

    let again = ledger.invoke(&configured(), &list);
    assert_eq!(
        again,
        (Err(MintError::Rejected { stage: Stage::CreateMint, code: ACCOUNT_IN_USE }), 1)
    );
    let mint_slot = ledger.slot(&Pubkey::new_from_array(MINT_X)).unwrap();
    assert_eq!(spl_token::state::Mint::unpack(&mint_slot.data).unwrap().supply, 1);
}

#[test]
fn unsigned_second_signer_changes_nothing() {
    let signed = [MINT_X, ADMIN];
    let mut ledger = Ledger::fresh(&signed);
    let list = supplied(MINT_X, hold_x(), &signed);

    let ended = ledger.invoke(&configured(), &list);
    assert_eq!(ended, (Err(MintError::Unauthorized(Signer::Second)), 0));
    assert!(ledger.slot(&Pubkey::new_from_array(MINT_X)).is_none());
    assert!(ledger.slot(&Pubkey::new_from_array(hold_x())).is_none());
    assert_eq!(ledger.slot(&Pubkey::new_from_array(ADMIN)).unwrap().lamports, 10_000_000_000);
}

#[test]
fn holding_account_that_is_not_the_derived_one_fails_when_it_is_created() {
    let signed = [MINT_X, ADMIN, SECOND];
    let mut ledger = Ledger::fresh(&signed);
    let list = supplied(MINT_X, [48; 32], &signed);

    let ended = ledger.invoke(&configured(), &list);
    let code = u64::from(ProgramError::NotEnoughAccountKeys);
    assert_eq!(ended, (Err(MintError::Rejected { stage: Stage::CreateHolding, code }), 3));
    assert!(ledger.slot(&Pubkey::new_from_array(MINT_X)).is_none());
}

#[test]
fn mint_that_has_not_signed_is_refused_by_the_host() {
    let signed = [ADMIN, SECOND];
    let mut ledger = Ledger::fresh(&signed);
    let list = supplied(MINT_X, hold_x(), &signed);

    let ended = ledger.invoke(&configured(), &list);
    let code = u64::from(ProgramError::MissingRequiredSignature);
    assert_eq!(ended, (Err(MintError::Rejected { stage: Stage::CreateMint, code }), 1));
}
