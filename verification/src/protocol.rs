//! The per-click protocol as the live coordinator runs it: every network
//! call is a suspension point, so the decisions between calls stand here
//! as one total step function, and the surrounding loop only performs the
//! action handed back and reports what happened. The ledger insert comes
//! before the quantity write — the insert is the point of no return, and
//! a quantity write that fails afterwards still reports the redemption.

use crate::models::Outcome;
use vstd::prelude::*;

verus! {

/// Where the protocol stands between two suspension points.
#[derive(Clone, Copy, PartialEq, Eq, Structural, Debug)]
#[allow(inconsistent_fields)]
pub enum RedeemState {
    Acknowledging,
    Fetching,
    CheckingLedger { amount: u32 },
    Inserting { amount: u32 },
    Saving,
    Editing,
    Responding { outcome: Outcome },
    Done { outcome: Option<Outcome> },
}

/// What the surroundings report back after performing an action.
#[derive(Clone, Copy, PartialEq, Eq, Structural, Debug)]
pub enum RedeemEvent {
    Acked,
    AckFailed,
    Fetched { amount: u32, expiry_secs: Option<i64>, now_secs: i64 },
    FetchFailed,
    LedgerHas { already: bool },
    LedgerCheckFailed,
    Inserted,
    InsertDuplicate,
    InsertFailed,
    Saved,
    SaveFailed,
    Edited,
    EditFailed,
    Responded,
    RespondFailed,
}

/// What the protocol asks for next. `SaveDecremented` carries the new
/// remaining quantity to write; the record itself stays with the caller.
#[derive(Clone, Copy, PartialEq, Eq, Structural, Debug)]
#[allow(inconsistent_fields)]
pub enum RedeemAction {
    Acknowledge,
    FetchRecord,
    CheckLedger,
    InsertLedger,
    SaveDecremented { new_amount: u32 },
    EditMessage,
    Respond { outcome: Outcome, include_code: bool },
    Stop { outcome: Option<Outcome> },
}

/// Whether an outcome's response carries the code's plaintext value: a
/// redeeming user receives it, and one who already redeemed may retrieve
/// it again.
pub open spec fn spec_include_code(o: Outcome) -> bool {
    o == Outcome::Redeemed || o == Outcome::AlreadyRedeemed
}

/// The move to a response: the protocol will say `o` and stop.
pub open spec fn spec_respond(o: Outcome) -> (RedeemState, RedeemAction) {
    (
        RedeemState::Responding { outcome: o },
        RedeemAction::Respond { outcome: o, include_code: spec_include_code(o) },
    )
}

/// The protocol's transition: from where it stands and what just
/// happened, to where it stands next and what to do. Every store failure
/// turns into a FAILED response for this click alone; a duplicate ledger
/// insert is the ALREADY_REDEEMED outcome, not a crash; a failed quantity
/// write after a successful insert, and a failed message edit, still
/// report REDEEMED. A report that does not fit the state stops silently.
pub open spec fn spec_protocol_step(s: RedeemState, e: RedeemEvent) -> (RedeemState, RedeemAction) {
    match (s, e) {
        (RedeemState::Acknowledging, RedeemEvent::Acked) => (
            RedeemState::Fetching,
            RedeemAction::FetchRecord,
        ),
        (RedeemState::Fetching, RedeemEvent::Fetched { amount, expiry_secs, now_secs }) => match expiry_secs {
            None => spec_respond(Outcome::Failed),
            Some(expiry) => {
                if amount == 0 {
                    spec_respond(Outcome::Exhausted)
                } else if expiry < now_secs {
                    spec_respond(Outcome::Expired)
                } else {
                    (RedeemState::CheckingLedger { amount }, RedeemAction::CheckLedger)
                }
            },
        },
        (RedeemState::Fetching, RedeemEvent::FetchFailed) => spec_respond(Outcome::Failed),
        (RedeemState::CheckingLedger { amount }, RedeemEvent::LedgerHas { already }) => {
            if already {
                spec_respond(Outcome::AlreadyRedeemed)
            } else {
                (RedeemState::Inserting { amount }, RedeemAction::InsertLedger)
            }
        },
        (RedeemState::CheckingLedger { .. }, RedeemEvent::LedgerCheckFailed) => spec_respond(
            Outcome::Failed,
        ),
        (RedeemState::Inserting { amount }, RedeemEvent::Inserted) => (
            RedeemState::Saving,
            RedeemAction::SaveDecremented {
                new_amount: if amount > 0 {
                    (amount - 1) as u32
                } else {
                    0
                },
            },
        ),
        (RedeemState::Inserting { .. }, RedeemEvent::InsertDuplicate) => spec_respond(
            Outcome::AlreadyRedeemed,
        ),
        (RedeemState::Inserting { .. }, RedeemEvent::InsertFailed) => spec_respond(
            Outcome::Failed,
        ),
        (RedeemState::Saving, RedeemEvent::Saved) => (RedeemState::Editing, RedeemAction::EditMessage),
        (RedeemState::Saving, RedeemEvent::SaveFailed) => spec_respond(Outcome::Redeemed),
        (RedeemState::Editing, RedeemEvent::Edited) => spec_respond(Outcome::Redeemed),
        (RedeemState::Editing, RedeemEvent::EditFailed) => spec_respond(Outcome::Redeemed),
        (RedeemState::Responding { outcome }, RedeemEvent::Responded) => (
            RedeemState::Done { outcome: Some(outcome) },
            RedeemAction::Stop { outcome: Some(outcome) },
        ),
        (RedeemState::Responding { outcome }, RedeemEvent::RespondFailed) => (
            RedeemState::Done { outcome: Some(outcome) },
            RedeemAction::Stop { outcome: Some(outcome) },
        ),
        _ => (RedeemState::Done { outcome: None }, RedeemAction::Stop { outcome: None }),
    }
}

/// Where the protocol starts: acknowledge the interaction at once; every
/// user-visible result follows later.
pub fn protocol_start() -> (r: (RedeemState, RedeemAction))
    ensures
        r == (RedeemState::Acknowledging, RedeemAction::Acknowledge),
{
    (RedeemState::Acknowledging, RedeemAction::Acknowledge)
}

/// One protocol step: exactly `spec_protocol_step`.
pub fn protocol_step(s: RedeemState, e: RedeemEvent) -> (r: (RedeemState, RedeemAction))
    ensures
        r == spec_protocol_step(s, e),
{
    match (s, e) {
        (RedeemState::Acknowledging, RedeemEvent::Acked) => (
            RedeemState::Fetching,
            RedeemAction::FetchRecord,
        ),
        (RedeemState::Fetching, RedeemEvent::Fetched { amount, expiry_secs, now_secs }) => match expiry_secs {
            None => respond(Outcome::Failed),
            Some(expiry) => {
                if amount == 0 {
                    respond(Outcome::Exhausted)
                } else if expiry < now_secs {
                    respond(Outcome::Expired)
                } else {
                    (RedeemState::CheckingLedger { amount }, RedeemAction::CheckLedger)
                }
            },
        },
        (RedeemState::Fetching, RedeemEvent::FetchFailed) => respond(Outcome::Failed),
        (RedeemState::CheckingLedger { amount }, RedeemEvent::LedgerHas { already }) => {
            if already {
                respond(Outcome::AlreadyRedeemed)
            } else {
                (RedeemState::Inserting { amount }, RedeemAction::InsertLedger)
            }
        },
        (RedeemState::CheckingLedger { .. }, RedeemEvent::LedgerCheckFailed) => respond(
            Outcome::Failed,
        ),
        (RedeemState::Inserting { amount }, RedeemEvent::Inserted) => (
            RedeemState::Saving,
            RedeemAction::SaveDecremented {
                new_amount: if amount > 0 {
                    amount - 1
                } else {
                    0
                },
            },
        ),
        (RedeemState::Inserting { .. }, RedeemEvent::InsertDuplicate) => respond(
            Outcome::AlreadyRedeemed,
        ),
        (RedeemState::Inserting { .. }, RedeemEvent::InsertFailed) => respond(Outcome::Failed),
        (RedeemState::Saving, RedeemEvent::Saved) => (
            RedeemState::Editing,
            RedeemAction::EditMessage,
        ),
        (RedeemState::Saving, RedeemEvent::SaveFailed) => respond(Outcome::Redeemed),
        (RedeemState::Editing, RedeemEvent::Edited) => respond(Outcome::Redeemed),
        (RedeemState::Editing, RedeemEvent::EditFailed) => respond(Outcome::Redeemed),
        (RedeemState::Responding { outcome }, RedeemEvent::Responded) => (
            RedeemState::Done { outcome: Some(outcome) },
            RedeemAction::Stop { outcome: Some(outcome) },
        ),
        (RedeemState::Responding { outcome }, RedeemEvent::RespondFailed) => (
            RedeemState::Done { outcome: Some(outcome) },
            RedeemAction::Stop { outcome: Some(outcome) },
        ),
        _ => (RedeemState::Done { outcome: None }, RedeemAction::Stop { outcome: None }),
    }
}

fn respond(o: Outcome) -> (r: (RedeemState, RedeemAction))
    ensures
        r == spec_respond(o),
{
    let include_code = match o {
        Outcome::Redeemed => true,
        Outcome::AlreadyRedeemed => true,
        _ => false,
    };
    (RedeemState::Responding { outcome: o }, RedeemAction::Respond { outcome: o, include_code })
}

/// Law: the protocol writes the decremented quantity only from the state
/// it reaches by a successful ledger insert — the insert precedes the
/// write in every run.
pub proof fn lemma_insert_precedes_save(s: RedeemState, e: RedeemEvent)
    ensures
        (spec_protocol_step(s, e).1 matches RedeemAction::SaveDecremented { .. }) ==> (
        s matches RedeemState::Inserting { .. }) && e == RedeemEvent::Inserted,
{
}

/// Law: once the ledger insert succeeded, every later report — a failed
/// quantity write, a failed or successful message edit — still answers
/// REDEEMED.
pub proof fn lemma_redeemed_after_insert()
    ensures
        spec_protocol_step(RedeemState::Saving, RedeemEvent::SaveFailed) == spec_respond(
            Outcome::Redeemed,
        ),
        spec_protocol_step(RedeemState::Editing, RedeemEvent::Edited) == spec_respond(
            Outcome::Redeemed,
        ),
        spec_protocol_step(RedeemState::Editing, RedeemEvent::EditFailed) == spec_respond(
            Outcome::Redeemed,
        ),
{
}

} // verus!
