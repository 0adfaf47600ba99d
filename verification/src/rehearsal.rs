//! A whole invocation against a host whose answers are given in advance.

use crate::account::Account;
use crate::config::Signers;
use crate::error::{MintError, Stage};
use crate::machine::{begin, first_turn, next_turn, Progress, ProgressView, Turn, TurnView};
use crate::note::Note;
use crate::steps::{Call, CallView};
use vstd::prelude::*;

verus! {

/// The host's answer to each sub-operation, should it be asked: `Ok` where
/// it performs it, `Err` with its status where it refuses.
#[derive(Clone, Copy, Debug, PartialEq, Eq)]
pub struct Answers {
    pub create_mint: Result<(), u64>,
    pub initialize_mint: Result<(), u64>,
    pub create_holding: Result<(), u64>,
    pub mint_unit: Result<(), u64>,
}

/// What an invocation did from its first turn to its last.
#[derive(Debug, PartialEq, Eq)]
pub struct Record {
    /// The log, in order.
    pub notes: Vec<Note>,
    /// The sub-operations that were handed to the host, in order.
    pub calls: Vec<Call>,
    pub result: Result<(), MintError>,
}

/// A `Record` as its log lines, its calls and its result.
pub struct RecordView {
    pub notes: Seq<Note>,
    pub calls: Seq<CallView>,
    pub result: Result<(), MintError>,
}

impl View for Record {
    type V = RecordView;

    open spec fn view(&self) -> RecordView {
        RecordView {
            notes: self.notes@,
            calls: self.calls@.map_values(|call: Call| call@),
            result: self.result,
        }
    }
}

impl Answers {
    /// The host's answer to the sub-operation of `stage`.
    pub open spec fn to(self, stage: Stage) -> Result<(), u64> {
        match stage {
            Stage::CreateMint => self.create_mint,
            Stage::InitializeMint => self.initialize_mint,
            Stage::CreateHolding => self.create_holding,
            Stage::MintUnit => self.mint_unit,
        }
    }

    /// The host performs every sub-operation.
    pub open spec fn all_accepted(self) -> bool {
        forall|stage: Stage| #[trigger] self.to(stage) is Ok
    }

    /// The host's answer to the sub-operation of `stage`.
    pub fn answer(&self, stage: Stage) -> (outcome: Result<(), u64>)
        ensures
            outcome == self.to(stage),
    {
        match stage {
            Stage::CreateMint => self.create_mint,
            Stage::InitializeMint => self.initialize_mint,
            Stage::CreateHolding => self.create_holding,
            Stage::MintUnit => self.mint_unit,
        }
    }
}

/// Sub-operations that may still be handed to the host after a turn.
pub open spec fn stages_left(progress: ProgressView) -> nat {
    match progress {
        ProgressView::Pending { stage, .. } => (4 - stage.rank()) as nat,
        ProgressView::Finished(_) => 0,
    }
}

/// The invocation from `turn` on: its log lines and calls, then those of the
/// turns that the host's answers lead to.
pub open spec fn unfolded(turn: TurnView, host: Answers) -> RecordView
    decreases stages_left(turn.progress),
{
    match turn.progress {
        ProgressView::Finished(result) => RecordView {
            notes: turn.notes,
            calls: Seq::empty(),
            result,
        },
        ProgressView::Pending { accounts, stage, call } => {
            let rest = unfolded(next_turn(accounts, stage, host.to(stage)), host);
            RecordView {
                notes: turn.notes + rest.notes,
                calls: seq![call] + rest.calls,
                result: rest.result,
            }
        },
    }
}

/// The whole invocation on `list` against `host`.
pub open spec fn rehearsed(signers: Signers, list: Seq<Account>, host: Answers) -> RecordView {
    unfolded(first_turn(signers, list), host)
}

/// Runs an invocation to its end, answering each sub-operation as `host`
/// says, and records what it logged, what it asked of the host, and how it
/// ended.
pub fn rehearse(signers: &Signers, list: &[Account], host: &Answers) -> (record: Record)
    ensures
        record@ == rehearsed(*signers, list@, *host),
{
    let mut notes: Vec<Note> = Vec::new();
    let mut calls: Vec<Call> = Vec::new();
    let mut turn = begin(signers, list);
    loop
        invariant
            rehearsed(*signers, list@, *host).notes == notes@ + unfolded(turn@, *host).notes,
            rehearsed(*signers, list@, *host).calls == calls@.map_values(|call: Call| call@)
                + unfolded(turn@, *host).calls,
            rehearsed(*signers, list@, *host).result == unfolded(turn@, *host).result,
        decreases stages_left(turn@.progress),
    {
        let ghost before = turn@;
        let ghost logged = notes@;
        let ghost asked = calls@.map_values(|call: Call| call@);
        let Turn { notes: mut due, progress } = turn;
        notes.append(&mut due);
        match progress {
            Progress::Finished(result) => {
                let record = Record { notes, calls, result };
                assert(record@.notes =~= rehearsed(*signers, list@, *host).notes);
                assert(record@.calls =~= rehearsed(*signers, list@, *host).calls);
                return record;
            },
            Progress::Pending(invocation, call) => {
                let stage = invocation.awaiting();
                let ghost asking = call@;
                calls.push(call);
                turn = invocation.resume(host.answer(stage));
                proof {
                    let rest = unfolded(turn@, *host);
                    assert(calls@.map_values(|call: Call| call@) =~= asked + seq![asking]);
                    assert(notes@ + rest.notes =~= logged + (before.notes + rest.notes));
                    assert(calls@.map_values(|call: Call| call@) + rest.calls =~= asked + (
                    seq![asking] + rest.calls));
                }
            },
        }
    }
}

} // verus!
