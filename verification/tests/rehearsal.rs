use mint_nft::account::{Account, Accounts};
use mint_nft::address::Address;
use mint_nft::config::Signers;
use mint_nft::error::{MintError, Signer, Stage};
use mint_nft::instruction::{
    ASSOCIATED_PROGRAM_ID, RENT_SYSVAR_ID, SYSTEM_PROGRAM_ID, TOKEN_PROGRAM_ID,
};
use mint_nft::note::Note;
use mint_nft::rehearsal::{rehearse, Answers};
use mint_nft::steps::{create_holding, create_mint, initialize_mint, mint_unit};

const MINT_KEY: [u8; 32] = [31; 32];
const HOLDING_KEY: [u8; 32] = [32; 32];
const ADMIN_KEY: [u8; 32] = [33; 32];
const SECOND_KEY: [u8; 32] = [34; 32];

fn signers() -> Signers {
    Signers::new(Address::new(ADMIN_KEY), Address::new(SECOND_KEY))
}

fn account(bytes: [u8; 32], is_signer: bool) -> Account {
    Account { key: Address::new(bytes), is_signer }
}

fn list_with(admin: Account, second: Account) -> Vec<Account> {
    vec![
        account(MINT_KEY, true),
        account(HOLDING_KEY, false),
        admin,
        account(RENT_SYSVAR_ID, false),
        account(SYSTEM_PROGRAM_ID, false),
        account(TOKEN_PROGRAM_ID, false),
        account(ASSOCIATED_PROGRAM_ID, false),
        second,
    ]
}

fn admitted() -> Vec<Account> {
    list_with(account(ADMIN_KEY, true), account(SECOND_KEY, true))
}

fn accepting() -> Answers {
    Answers { create_mint: Ok(()), initialize_mint: Ok(()), create_holding: Ok(()), mint_unit: Ok(()) }
}

#[test]
fn answers_go_by_stage() {
    let host = Answers {
        create_mint: Err(1),
        initialize_mint: Err(2),
        create_holding: Ok(()),
        mint_unit: Err(4),
    };
    assert_eq!(host.answer(Stage::CreateMint), Err(1));
    assert_eq!(host.answer(Stage::InitializeMint), Err(2));
    assert_eq!(host.answer(Stage::CreateHolding), Ok(()));
    assert_eq!(host.answer(Stage::MintUnit), Err(4));
}

#[test]
fn accepted_invocation_makes_four_calls_in_order() {
    let list = admitted();
    let accounts = Accounts::bind(&list).unwrap();
    let record = rehearse(&signers(), &list, &accepting());
    assert_eq!(record.result, Ok(()));
    assert_eq!(
        record.calls,
        vec![
            create_mint(&accounts),
            initialize_mint(&accounts).unwrap(),
            create_holding(&accounts).unwrap(),
            mint_unit(&accounts).unwrap(),
        ]
    );
    let mint = Address::new(MINT_KEY);
    let holding = Address::new(HOLDING_KEY);
    assert_eq!(
        record.notes,
        vec![
            Note::CreatingMint,
            Note::Mint(mint),
            Note::InitializingMint,
            Note::Mint(mint),
            Note::CreatingHolding,
            Note::Holding(holding),
            Note::Minting,
            Note::Mint(mint),
            Note::Holding(holding),
            Note::Completed,
        ]
    );
}

#[test]
fn refused_signers_make_no_call() {
    let cases = [
        (account([99; 32], true), account(SECOND_KEY, true), Signer::Admin),
        (account(ADMIN_KEY, false), account(SECOND_KEY, true), Signer::Admin),
        (account(ADMIN_KEY, true), account([99; 32], true), Signer::Second),
        (account(ADMIN_KEY, true), account(SECOND_KEY, false), Signer::Second),
        (account([99; 32], false), account([98; 32], false), Signer::Admin),
    ];
    for (admin, second, who) in cases {
        let record = rehearse(&signers(), &list_with(admin, second), &accepting());
        assert_eq!(record.result, Err(MintError::Unauthorized(who)));
        assert_eq!(record.calls, vec![]);
        assert_eq!(record.notes.len(), 1);
    }
}

#[test]
fn refusal_at_each_stage_stops_there() {
    let stages =
        [Stage::CreateMint, Stage::InitializeMint, Stage::CreateHolding, Stage::MintUnit];
    for (rank, stage) in stages.iter().enumerate() {
        let mut host = accepting();
        match stage {
            Stage::CreateMint => host.create_mint = Err(40),
            Stage::InitializeMint => host.initialize_mint = Err(41),
            Stage::CreateHolding => host.create_holding = Err(42),
            Stage::MintUnit => host.mint_unit = Err(43),
        }
        let record = rehearse(&signers(), &admitted(), &host);
        assert_eq!(
            record.result,
            Err(MintError::Rejected { stage: *stage, code: 40 + rank as u64 })
        );
        assert_eq!(record.calls.len(), rank + 1);
        assert!(!record.notes.contains(&Note::Completed));
    }
}

#[test]
fn first_refusal_decides() {
    let host = Answers {
        create_mint: Ok(()),
        initialize_mint: Err(7),
        create_holding: Err(8),
        mint_unit: Err(9),
    };
    let record = rehearse(&signers(), &admitted(), &host);
    assert_eq!(
        record.result,
        Err(MintError::Rejected { stage: Stage::InitializeMint, code: 7 })
    );
    assert_eq!(record.calls.len(), 2);
}

#[test]
fn second_invocation_on_a_used_mint_fails() {
    // the host creates the mint account once and refuses to create it again
    let first = rehearse(&signers(), &admitted(), &accepting());
    assert_eq!(first.result, Ok(()));
    let mut host = accepting();
    host.create_mint = Err(1 << 32);
    let again = rehearse(&signers(), &admitted(), &host);
    assert_eq!(
        again.result,
        Err(MintError::Rejected { stage: Stage::CreateMint, code: 1 << 32 })
    );
    assert_eq!(again.calls, first.calls[..1].to_vec());
}

#[test]
fn positions_lie_within_the_accounts_read() {
    let record = rehearse(&signers(), &admitted(), &accepting());
    for call in &record.calls {
        assert!(call.accounts.iter().all(|position| *position < 8));
    }
}

#[test]
fn short_list_makes_no_call() {
    let record = rehearse(&signers(), &admitted()[..7], &accepting());
    assert_eq!(record.result, Err(MintError::NotEnoughAccountKeys));
    assert_eq!(record.calls, vec![]);
    assert_eq!(record.notes, vec![]);
}
