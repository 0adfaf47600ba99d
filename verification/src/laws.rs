//! What holds of every invocation, whatever the accounts and whatever the
//! host answers.

use crate::account::{bound, Account, Accounts, ACCOUNTS_READ};
use crate::config::Signers;
use crate::error::{MintError, Signer, Stage};
use crate::gate::{approves, refusal};
use crate::machine::{first_turn, next_turn, ProgressView};
use crate::rehearsal::{rehearsed, unfolded, Answers};
use crate::instruction::create_account_data;
use crate::steps::{
    create_holding_call, create_mint_call, derived_holding, initialize_mint_call, mint_unit_call,
    planned, token_program_accepted,
};
use vstd::bytes::spec_u64_to_le_bytes;
use vstd::prelude::*;

verus! {

/// An invocation whose admin account is not the expected identity fails as
/// unauthorised on the admin's account, and nothing is asked of the host,
/// whatever the other accounts hold and whatever the host would answer.
pub proof fn law_foreign_admin_is_refused(signers: Signers, list: Seq<Account>, host: Answers)
    requires
        list.len() >= ACCOUNTS_READ,
        bound(list).admin.key@ != signers.admin@,
    ensures
        first_turn(signers, list).progress == ProgressView::Finished(
            Err(MintError::Unauthorized(Signer::Admin)),
        ),
        rehearsed(signers, list, host).result == Err::<(), _>(
            MintError::Unauthorized(Signer::Admin),
        ),
        rehearsed(signers, list, host).calls.len() == 0,
{
    reveal_with_fuel(unfolded, 1);
}

/// An invocation whose admin account is the expected identity but has not
/// signed fails as unauthorised on the admin's account, and nothing is asked
/// of the host.
pub proof fn law_unsigned_admin_is_refused(signers: Signers, list: Seq<Account>, host: Answers)
    requires
        list.len() >= ACCOUNTS_READ,
        bound(list).admin.key@ == signers.admin@,
        !bound(list).admin.is_signer,
    ensures
        first_turn(signers, list).progress == ProgressView::Finished(
            Err(MintError::Unauthorized(Signer::Admin)),
        ),
        rehearsed(signers, list, host).result == Err::<(), _>(
            MintError::Unauthorized(Signer::Admin),
        ),
        rehearsed(signers, list, host).calls.len() == 0,
{
    reveal_with_fuel(unfolded, 1);
}

/// An invocation whose second signer is not the expected identity, or has
/// not signed, fails as unauthorised, whether or not the admin is approved:
/// on the admin's account where the admin is not approved either, and
/// otherwise on the second signer's. Nothing is asked of the host.
pub proof fn law_second_signer_is_required(signers: Signers, list: Seq<Account>, host: Answers)
    requires
        list.len() >= ACCOUNTS_READ,
        !approves(signers.second, bound(list).second),
    ensures
        first_turn(signers, list).progress is Finished,
        rehearsed(signers, list, host).result == Err::<(), _>(
            MintError::Unauthorized(
                if approves(signers.admin, bound(list).admin) {
                    Signer::Second
                } else {
                    Signer::Admin
                },
            ),
        ),
        rehearsed(signers, list, host).calls.len() == 0,
{
    reveal_with_fuel(unfolded, 1);
}

/// The host is asked for something only where both co-signers are approved:
/// an invocation is unauthorised exactly where one of them is not, and then
/// it names the first that is not.
pub proof fn law_calls_need_both_signers(signers: Signers, list: Seq<Account>, host: Answers)
    requires
        list.len() >= ACCOUNTS_READ,
    ensures
        rehearsed(signers, list, host).calls.len() > 0 ==> refusal(
            signers,
            bound(list).admin,
            bound(list).second,
        ) is None,
        refusal(signers, bound(list).admin, bound(list).second) matches Some(who)
            ==> rehearsed(signers, list, host).result == Err::<(), _>(MintError::Unauthorized(who)),
        rehearsed(signers, list, host).result matches Err(MintError::Unauthorized(who)) ==> refusal(
            signers,
            bound(list).admin,
            bound(list).second,
        ) == Some(who),
{
    reveal_with_fuel(unfolded, 5);
}

/// With both co-signers approved, the token program in its place, a holding
/// address that the ledger derives and a host that performs every
/// sub-operation, the invocation succeeds after exactly four calls in their
/// order: the mint account is created with its fixed funding and size for the
/// token program to own, the mint is stamped without decimals with the admin
/// as both authorities, the admin's holding account is created, and exactly
/// one unit is minted into the supplied holding account.
pub proof fn law_admitted_invocation_mints_one_unit(
    signers: Signers,
    list: Seq<Account>,
    host: Answers,
)
    requires
        list.len() >= ACCOUNTS_READ,
        approves(signers.admin, bound(list).admin),
        approves(signers.second, bound(list).second),
        token_program_accepted(bound(list)),
        derived_holding(bound(list)) is Some,
        host.all_accepted(),
    ensures
        rehearsed(signers, list, host).result == Ok::<(), MintError>(()),
        rehearsed(signers, list, host).calls == seq![
            create_mint_call(bound(list)),
            initialize_mint_call(bound(list)),
            create_holding_call(bound(list), derived_holding(bound(list))->0),
            mint_unit_call(bound(list)),
        ],
        create_mint_call(bound(list)).instruction.data == create_account_data(
            100_000_000,
            82,
            bound(list).token_program.key@,
        ),
        initialize_mint_call(bound(list)).instruction.data == seq![0u8, 0u8] + signers.admin@
            + seq![1u8] + signers.admin@,
        mint_unit_call(bound(list)).instruction.data == seq![7u8] + spec_u64_to_le_bytes(1),
        mint_unit_call(bound(list)).instruction.accounts[1].key == bound(list).holding.key@,
{
    reveal_with_fuel(unfolded, 5);
    let accounts = bound(list);
    assert(host.to(Stage::CreateMint) is Ok);
    assert(host.to(Stage::InitializeMint) is Ok);
    assert(host.to(Stage::CreateHolding) is Ok);
    assert(host.to(Stage::MintUnit) is Ok);
    assert(rehearsed(signers, list, host).calls =~= seq![
        create_mint_call(accounts),
        initialize_mint_call(accounts),
        create_holding_call(accounts, derived_holding(accounts)->0),
        mint_unit_call(accounts),
    ]);
}

/// An invocation succeeds only where the host performed all four
/// sub-operations, the creation of the mint account among them: against a
/// mint whose account the host will not create again, it cannot succeed.
pub proof fn law_success_needs_every_call(signers: Signers, list: Seq<Account>, host: Answers)
    requires
        rehearsed(signers, list, host).result is Ok,
    ensures
        host.all_accepted(),
        rehearsed(signers, list, host).calls.len() == 4,
        list.len() >= ACCOUNTS_READ,
        refusal(signers, bound(list).admin, bound(list).second) is None,
{
    reveal_with_fuel(unfolded, 5);
    assert forall|stage: Stage| #[trigger] host.to(stage) is Ok by {
        match stage {
            Stage::CreateMint => {},
            Stage::InitializeMint => {},
            Stage::CreateHolding => {},
            Stage::MintUnit => {},
        }
    }
}

/// Where the host refuses to create the mint account, an admitted invocation
/// fails with the host's status after that one call, whatever the host would
/// have answered to the rest.
pub proof fn law_refused_mint_account_ends_invocation(
    signers: Signers,
    list: Seq<Account>,
    host: Answers,
    code: u64,
)
    requires
        list.len() >= ACCOUNTS_READ,
        refusal(signers, bound(list).admin, bound(list).second) is None,
        host.create_mint == Err::<(), _>(code),
    ensures
        rehearsed(signers, list, host).result == Err::<(), _>(
            MintError::Rejected { stage: Stage::CreateMint, code },
        ),
        rehearsed(signers, list, host).calls == seq![create_mint_call(bound(list))],
{
    reveal_with_fuel(unfolded, 5);
    assert(host.to(Stage::CreateMint) == Err::<(), _>(code));
    assert(rehearsed(signers, list, host).calls =~= seq![create_mint_call(bound(list))]);
}

/// A sub-operation that the host refuses is the last one asked: the turn
/// that follows a refusal ends the invocation with the host's status and
/// the refused sub-operation, and asks for nothing more.
pub proof fn law_refusal_is_final(
    accounts: Accounts,
    stage: Stage,
    code: u64,
    host: Answers,
)
    ensures
        next_turn(accounts, stage, Err(code)).progress == ProgressView::Finished(
            Err(MintError::Rejected { stage, code }),
        ),
        unfolded(next_turn(accounts, stage, Err(code)), host).calls.len() == 0,
        unfolded(next_turn(accounts, stage, Err(code)), host).notes.len() == 0,
{
    reveal_with_fuel(unfolded, 1);
}

/// The sub-operations are asked in their fixed order, each only after the
/// host performed the one before: the call of rank `i` in the record is the
/// one planned for the stage of that rank.
pub proof fn law_calls_follow_the_order(signers: Signers, list: Seq<Account>, host: Answers)
    requires
        list.len() >= ACCOUNTS_READ,
    ensures
        rehearsed(signers, list, host).calls.len() <= 4,
        forall|stage: Stage|
            stage.rank() < rehearsed(signers, list, host).calls.len() ==> {
                &&& #[trigger] planned(stage, bound(list)) == Ok::<_, MintError>(
                    rehearsed(signers, list, host).calls[stage.rank() as int],
                )
                &&& forall|earlier: Stage|
                    earlier.rank() < stage.rank() ==> #[trigger] host.to(earlier) is Ok
            },
{
    reveal_with_fuel(unfolded, 5);
}

/// Every call names accounts of the invocation by positions among the eight
/// that it reads, so each position is within the supplied list.
pub proof fn law_calls_name_supplied_accounts(
    signers: Signers,
    list: Seq<Account>,
    host: Answers,
    call: int,
    account: int,
)
    requires
        0 <= call < rehearsed(signers, list, host).calls.len(),
        0 <= account < rehearsed(signers, list, host).calls[call].accounts.len(),
    ensures
        rehearsed(signers, list, host).calls[call].accounts[account] < ACCOUNTS_READ <= list.len(),
{
    reveal_with_fuel(unfolded, 5);
}

} // verus!
