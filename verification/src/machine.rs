//! An invocation as a sequence of turns: each turn yields the log lines that
//! are due and either the next sub-operation for the host or the result.

use crate::account::{bound, Account, Accounts, ACCOUNTS_READ};
use crate::config::Signers;
use crate::error::{MintError, Signer, Stage};
use crate::gate::{authorize, refusal};
use crate::note::Note;
use crate::steps::{announce, announced, planned, prepare, Call, CallView};
use vstd::prelude::*;

verus! {

/// An admitted invocation that has handed a sub-operation to the host and
/// awaits its outcome.
#[derive(Debug, PartialEq, Eq)]
pub struct Invocation {
    signers: Signers,
    accounts: Accounts,
    stage: Stage,
}

/// Where an invocation stands after a turn.
#[derive(Debug, PartialEq, Eq)]
pub enum Progress {
    /// The host is to perform the call and report its outcome to `resume`.
    Pending(Invocation, Call),
    /// The invocation is over.
    Finished(Result<(), MintError>),
}

/// One turn of an invocation.
#[derive(Debug, PartialEq, Eq)]
pub struct Turn {
    /// The log lines that are due, in order.
    pub notes: Vec<Note>,
    pub progress: Progress,
}

/// A `Progress` without the state that only the invocation itself holds.
pub enum ProgressView {
    Pending { accounts: Accounts, stage: Stage, call: CallView },
    Finished(Result<(), MintError>),
}

/// A `Turn` as its log lines and where the invocation stands.
pub struct TurnView {
    pub notes: Seq<Note>,
    pub progress: ProgressView,
}

impl Invocation {
    /// The co-signers that admitted the invocation.
    pub closed spec fn signers(self) -> Signers {
        self.signers
    }

    /// The accounts of the invocation by role.
    pub closed spec fn accounts(self) -> Accounts {
        self.accounts
    }

    /// The sub-operation whose outcome is awaited.
    pub closed spec fn stage(self) -> Stage {
        self.stage
    }

    /// Only an invocation whose co-signers were both approved is ever in flight.
    #[verifier::type_invariant]
    closed spec fn admitted(self) -> bool {
        refusal(self.signers, self.accounts.admin, self.accounts.second) is None
    }
}

impl View for Progress {
    type V = ProgressView;

    open spec fn view(&self) -> ProgressView {
        match *self {
            Progress::Pending(invocation, call) => ProgressView::Pending {
                accounts: invocation.accounts(),
                stage: invocation.stage(),
                call: call@,
            },
            Progress::Finished(result) => ProgressView::Finished(result),
        }
    }
}

impl View for Turn {
    type V = TurnView;

    open spec fn view(&self) -> TurnView {
        TurnView { notes: self.notes@, progress: self.progress@ }
    }
}

impl Progress {
    /// The co-signers of the invocation in flight, if one is.
    pub open spec fn admitted_by(self) -> Option<Signers> {
        match self {
            Progress::Pending(invocation, _) => Some(invocation.signers()),
            Progress::Finished(_) => None,
        }
    }
}

/// The log line that names a refused co-signer.
pub open spec fn refusal_note(who: Signer) -> Note {
    match who {
        Signer::Admin => Note::UnapprovedAdmin,
        Signer::Second => Note::UnapprovedSecond,
    }
}

/// The turn that enters a sub-operation: it is announced, then handed to the
/// host, or the invocation ends where it cannot be asked.
pub open spec fn entering(stage: Stage, accounts: Accounts) -> TurnView {
    TurnView {
        notes: announced(stage, accounts),
        progress: match planned(stage, accounts) {
            Ok(call) => ProgressView::Pending { accounts, stage, call },
            Err(error) => ProgressView::Finished(Err(error)),
        },
    }
}

/// The first turn: the accounts are bound by position, the co-signers are
/// checked, and the first sub-operation is entered.
pub open spec fn first_turn(signers: Signers, list: Seq<Account>) -> TurnView {
    if list.len() < ACCOUNTS_READ {
        TurnView {
            notes: Seq::empty(),
            progress: ProgressView::Finished(Err(MintError::NotEnoughAccountKeys)),
        }
    } else {
        let accounts = bound(list);
        match refusal(signers, accounts.admin, accounts.second) {
            Some(who) => TurnView {
                notes: seq![refusal_note(who)],
                progress: ProgressView::Finished(Err(MintError::Unauthorized(who))),
            },
            None => entering(Stage::CreateMint, accounts),
        }
    }
}

/// The turn that follows the host's answer to the sub-operation of `stage`:
/// a refusal ends the invocation with the host's status, an acceptance
/// enters the following sub-operation or, after the last, ends in success.
pub open spec fn next_turn(accounts: Accounts, stage: Stage, outcome: Result<(), u64>) -> TurnView {
    match outcome {
        Err(code) => TurnView {
            notes: Seq::empty(),
            progress: ProgressView::Finished(Err(MintError::Rejected { stage, code })),
        },
        Ok(_) => match stage.following() {
            Some(next) => entering(next, accounts),
            None => TurnView {
                notes: seq![Note::Completed],
                progress: ProgressView::Finished(Ok(())),
            },
        },
    }
}

fn enter(signers: Signers, stage: Stage, accounts: Accounts) -> (turn: Turn)
    requires
        refusal(signers, accounts.admin, accounts.second) is None,
    ensures
        turn@ == entering(stage, accounts),
        turn.progress.admitted_by() matches Some(s) ==> s == signers,
{
    let notes = announce(stage, &accounts);
    let progress = match prepare(stage, &accounts) {
        Ok(call) => Progress::Pending(Invocation { signers, accounts, stage }, call),
        Err(error) => Progress::Finished(Err(error)),
    };
    Turn { notes, progress }
}

/// Begins an invocation on the accounts supplied to it.
///
/// Nothing is asked of the host unless both co-signers are approved: with
/// too few accounts or a refused co-signer the first turn is the last.
pub fn begin(signers: &Signers, list: &[Account]) -> (turn: Turn)
    ensures
        turn@ == first_turn(*signers, list@),
        turn.progress.admitted_by() matches Some(s) ==> s == *signers,
{
    let accounts = match Accounts::bind(list) {
        Some(accounts) => accounts,
        None => {
            return Turn {
                notes: Vec::new(),
                progress: Progress::Finished(Err(MintError::NotEnoughAccountKeys)),
            };
        },
    };
    let turn = match authorize(signers, &accounts.admin, &accounts.second) {
        Err(Signer::Admin) => Turn {
            notes: vec![Note::UnapprovedAdmin],
            progress: Progress::Finished(Err(MintError::Unauthorized(Signer::Admin))),
        },
        Err(Signer::Second) => Turn {
            notes: vec![Note::UnapprovedSecond],
            progress: Progress::Finished(Err(MintError::Unauthorized(Signer::Second))),
        },
        Ok(_) => enter(*signers, Stage::CreateMint, accounts),
    };
    assert(turn@.notes =~= first_turn(*signers, list@).notes);
    turn
}

impl Invocation {
    /// The sub-operation whose outcome is awaited.
    pub fn awaiting(&self) -> (stage: Stage)
        ensures
            stage == self.stage(),
    {
        self.stage
    }

    /// Takes the host's answer to the pending sub-operation: `Ok` where it
    /// was performed, `Err` with the host's status where it was refused.
    ///
    /// Both co-signers of an invocation in flight were approved when it began,
    /// whoever holds it.
    pub fn resume(self, outcome: Result<(), u64>) -> (turn: Turn)
        ensures
            turn@ == next_turn(self.accounts(), self.stage(), outcome),
            turn.progress.admitted_by() matches Some(s) ==> s == self.signers(),
            refusal(self.signers(), self.accounts().admin, self.accounts().second) is None,
    {
        proof {
            use_type_invariant(&self);
        }
        let turn = match outcome {
            Err(code) => Turn {
                notes: Vec::new(),
                progress: Progress::Finished(Err(MintError::Rejected { stage: self.stage, code })),
            },
            Ok(_) => match self.stage.next() {
                Some(next) => enter(self.signers, next, self.accounts),
                None => Turn {
                    notes: vec![Note::Completed],
                    progress: Progress::Finished(Ok(())),
                },
            },
        };
        assert(turn@.notes =~= next_turn(self.accounts(), self.stage(), outcome).notes);
        turn
    }
}

} // verus!
