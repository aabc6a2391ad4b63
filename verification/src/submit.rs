//! The life of one request: signed, sent, confirmed, or failed on the way.
//!
//! The submitter decides; the caller acts. A submission starts with the
//! check that every account that has to sign has a signer at hand. From then
//! on the caller carries out one command at a time and reports what came of
//! it; the submitter answers with the next command. The steps come strictly
//! one after the other: sign, send, fetch the ledger's reference point, wait
//! for confirmation. A report that does not belong to the step in progress
//! changes nothing. No step is tried twice: every failure ends the
//! submission and goes back to the caller, who decides what to do next.

use crate::actions::{Instruction, InstructionView};
use crate::address::Address;
use crate::util::Signature;
use vstd::prelude::*;

verus! {

/// The ledger's reference point that bounds how long a transaction can be
/// confirmed.
#[derive(Clone, Copy, Debug, PartialEq, Eq)]
pub struct Blockhash {
    pub bytes: [u8; 32],
}

/// Why a submission ended without a confirmed transaction.
#[derive(Clone, Copy, Debug, PartialEq, Eq)]
pub enum SubmitError {
    /// An account that has to sign has no signer, or signing failed.
    Signing,
    /// The ledger could not be reached.
    Network,
    /// The ledger took the request in and turned it down.
    Rejected,
    /// No confirmation came before the transaction expired. It may have
    /// landed all the same: only a fresh read of the records can tell.
    ConfirmationTimeout(Signature),
}

/// How far a submission has come.
#[derive(Clone, Copy, Debug, PartialEq, Eq)]
pub enum Stage {
    /// The request is built and its signers are at hand.
    Built,
    /// Every required signer has signed.
    Signed,
    /// The ledger has taken the transaction in under this handle.
    Sent(Signature),
    /// The transaction awaits confirmation within this reference point.
    Confirming(Signature, Blockhash),
    /// The submission is over.
    Done(Result<Signature, SubmitError>),
}

/// What the caller reports of the command it carried out.
#[derive(Clone, Copy, Debug, PartialEq, Eq)]
pub enum Event {
    /// Every required signer has signed.
    Signed,
    /// A signer refused or could not sign.
    SigningFailed,
    /// The ledger took the transaction in under this handle.
    Accepted(Signature),
    /// The ledger's current reference point.
    ReferencePoint(Blockhash),
    /// The ledger reports the transaction as confirmed.
    Confirmed,
    /// The transaction expired unconfirmed.
    Expired,
    /// The ledger could not be reached.
    TransportFailed,
    /// The ledger turned the request down.
    Rejected,
}

/// What the caller is to do next.
#[derive(Clone, Copy, Debug, PartialEq, Eq)]
pub enum Command {
    /// Sign the request with every required signer.
    Sign,
    /// Send the signed transaction to the ledger.
    Send,
    /// Ask the ledger for its current reference point.
    FetchReferencePoint,
    /// Wait until the transaction is confirmed or expires.
    AwaitConfirmation(Signature, Blockhash),
    /// Hand the outcome to whoever asked for the submission.
    Finish(Result<Signature, SubmitError>),
}

/// What a caller should do about a failed submission.
#[derive(Clone, Copy, Debug, PartialEq, Eq, Structural)]
pub enum Advice {
    /// Nothing was sent and a new attempt would fail alike: give up.
    Abort,
    /// Nothing is known to have been sent wrongly: try again later.
    RetryLater,
    /// The ledger refused: tell the user.
    Report,
    /// The outcome is open: read the records again before concluding
    /// anything.
    RereadState,
}

/// Whether every account of the instruction that has to sign is among the
/// signers at hand.
pub open spec fn signers_cover(instruction: InstructionView, signers: Seq<Seq<u8>>) -> bool {
    forall|i: int|
        0 <= i < instruction.accounts.len() && (#[trigger] instruction.accounts[i]).is_signer
            ==> signers.contains(instruction.accounts[i].address)
}

/// The command that a stage waits on.
pub open spec fn pending(stage: Stage) -> Command {
    match stage {
        Stage::Built => Command::Sign,
        Stage::Signed => Command::Send,
        Stage::Sent(_) => Command::FetchReferencePoint,
        Stage::Confirming(handle, reference) => Command::AwaitConfirmation(handle, reference),
        Stage::Done(outcome) => Command::Finish(outcome),
    }
}

/// The stage that follows a report. A report that does not belong to the
/// stage leaves it as it is.
pub open spec fn next_stage(stage: Stage, event: Event) -> Stage {
    match (stage, event) {
        (Stage::Built, Event::Signed) => Stage::Signed,
        (Stage::Built, Event::SigningFailed) => Stage::Done(Err(SubmitError::Signing)),
        (Stage::Signed, Event::Accepted(handle)) => Stage::Sent(handle),
        (Stage::Signed, Event::TransportFailed) => Stage::Done(Err(SubmitError::Network)),
        (Stage::Signed, Event::Rejected) => Stage::Done(Err(SubmitError::Rejected)),
        (Stage::Sent(handle), Event::ReferencePoint(reference)) => Stage::Confirming(
            handle,
            reference,
        ),
        (Stage::Sent(_), Event::TransportFailed) => Stage::Done(Err(SubmitError::Network)),
        (Stage::Confirming(handle, _), Event::Confirmed) => Stage::Done(Ok(handle)),
        (Stage::Confirming(handle, _), Event::Expired) => Stage::Done(
            Err(SubmitError::ConfirmationTimeout(handle)),
        ),
        (Stage::Confirming(_, _), Event::TransportFailed) => Stage::Done(
            Err(SubmitError::Network),
        ),
        (Stage::Confirming(_, _), Event::Rejected) => Stage::Done(Err(SubmitError::Rejected)),
        (stage, _) => stage,
    }
}

/// The stage at which a submission starts: ready to be signed where every
/// required signer is at hand, over with a signing error where one is
/// missing.
pub open spec fn first_stage(instruction: InstructionView, signers: Seq<Seq<u8>>) -> Stage {
    if signers_cover(instruction, signers) {
        Stage::Built
    } else {
        Stage::Done(Err(SubmitError::Signing))
    }
}

/// The stage after a whole run of reports, one after the other.
pub open spec fn stage_after(start: Stage, events: Seq<Event>) -> Stage
    decreases events.len(),
{
    if events.len() == 0 {
        start
    } else {
        next_stage(stage_after(start, events.drop_last()), events.last())
    }
}

/// How many steps of the order sign, send, fetch, confirm lie behind a stage.
pub open spec fn progress(stage: Stage) -> nat {
    match stage {
        Stage::Built => 0,
        Stage::Signed => 1,
        Stage::Sent(_) => 2,
        Stage::Confirming(_, _) => 3,
        Stage::Done(_) => 4,
    }
}

/// What to do about a failure.
pub open spec fn advice_for(error: SubmitError) -> Advice {
    match error {
        SubmitError::Signing => Advice::Abort,
        SubmitError::Network => Advice::RetryLater,
        SubmitError::Rejected => Advice::Report,
        SubmitError::ConfirmationTimeout(_) => Advice::RereadState,
    }
}

/// A submission that is over stays over, with the outcome it has.
pub proof fn lemma_done_is_final(outcome: Result<Signature, SubmitError>, event: Event)
    ensures
        next_stage(Stage::Done(outcome), event) == Stage::Done(outcome),
{
}

/// No report lets a submission skip a step or go back: it stays where it is,
/// moves on by one step, or ends.
pub proof fn lemma_steps_in_order(stage: Stage, event: Event)
    ensures
        ({
            let next = next_stage(stage, event);
            next == stage || progress(next) == progress(stage) + 1 || next is Done
        }),
{
}

/// A submission succeeds in one way only: the transaction that the ledger
/// took in is reported as confirmed while its confirmation is awaited.
pub proof fn lemma_success_needs_confirmation(stage: Stage, event: Event, handle: Signature)
    requires
        !(stage is Done),
        next_stage(stage, event) == Stage::Done(Ok(handle)),
    ensures
        stage is Confirming,
        stage->Confirming_0 == handle,
        event is Confirmed,
{
}

/// An expiry is never taken for a success, nor for a plain failure to send:
/// it ends the submission with a timeout that carries the handle, and the
/// advice is to read the records again.
pub proof fn lemma_timeout_is_open(handle: Signature, reference: Blockhash)
    ensures
        next_stage(Stage::Confirming(handle, reference), Event::Expired) == Stage::Done(
            Err(SubmitError::ConfirmationTimeout(handle)),
        ),
        advice_for(SubmitError::ConfirmationTimeout(handle)) == Advice::RereadState,
{
}

/// The reports of a submission that runs without a fault lead to the
/// confirmed handle.
pub proof fn lemma_clean_run_succeeds(handle: Signature, reference: Blockhash)
    ensures
        stage_after(
            Stage::Built,
            seq![
                Event::Signed,
                Event::Accepted(handle),
                Event::ReferencePoint(reference),
                Event::Confirmed,
            ],
        ) == Stage::Done(Ok(handle)),
{
    let e1 = seq![Event::Signed];
    let e2 = seq![Event::Signed, Event::Accepted(handle)];
    let e3 = seq![Event::Signed, Event::Accepted(handle), Event::ReferencePoint(reference)];
    let e4 = seq![
        Event::Signed,
        Event::Accepted(handle),
        Event::ReferencePoint(reference),
        Event::Confirmed,
    ];
    assert(e1.drop_last() =~= Seq::<Event>::empty());
    assert(e2.drop_last() =~= e1);
    assert(e3.drop_last() =~= e2);
    assert(e4.drop_last() =~= e3);
    assert(stage_after(Stage::Built, e1.drop_last()) == Stage::Built);
    assert(stage_after(Stage::Built, e1) == Stage::Signed);
    assert(stage_after(Stage::Built, e2) == Stage::Sent(handle));
    assert(stage_after(Stage::Built, e3) == Stage::Confirming(handle, reference));
}

/// Whether `address` is among `list`.
fn contains_address(list: &Vec<Address>, address: &Address) -> (r: bool)
    ensures
        r == list@.map_values(|a: Address| a@).contains(address@),
{
    let ghost views = list@.map_values(|a: Address| a@);
    let mut i: usize = 0;
    while i < list.len()
        invariant
            i <= list.len(),
            views == list@.map_values(|a: Address| a@),
            forall|j: int| 0 <= j < i ==> views[j] != address@,
        decreases list.len() - i,
    {
        if list[i] == *address {
            assert(views[i as int] == address@);
            return true;
        }
        i += 1;
    }
    false
}

/// Starts the submission of an instruction with the signers at hand: says
/// where the submission stands and what the caller is to do first.
pub fn submit(instruction: &Instruction, signers: &Vec<Address>) -> (r: (Stage, Command))
    ensures
        r.0 == first_stage(instruction@, signers@.map_values(|a: Address| a@)),
        r.1 == pending(r.0),
{
    let ghost accounts = instruction@.accounts;
    let ghost at_hand = signers@.map_values(|a: Address| a@);
    let mut i: usize = 0;
    while i < instruction.accounts.len()
        invariant
            i <= instruction.accounts.len(),
            accounts == instruction@.accounts,
            at_hand == signers@.map_values(|a: Address| a@),
            forall|j: int|
                0 <= j < i && (#[trigger] accounts[j]).is_signer ==> at_hand.contains(
                    accounts[j].address,
                ),
        decreases instruction.accounts.len() - i,
    {
        let meta = &instruction.accounts[i];
        assert(accounts[i as int] == meta@);
        if meta.is_signer && !contains_address(signers, &meta.address) {
            let outcome = Err(SubmitError::Signing);
            return (Stage::Done(outcome), Command::Finish(outcome));
        }
        i += 1;
    }
    (Stage::Built, Command::Sign)
}

/// The command that a stage waits on.
pub fn command_for(stage: &Stage) -> (command: Command)
    ensures
        command == pending(*stage),
{
    match *stage {
        Stage::Built => Command::Sign,
        Stage::Signed => Command::Send,
        Stage::Sent(_) => Command::FetchReferencePoint,
        Stage::Confirming(handle, reference) => Command::AwaitConfirmation(handle, reference),
        Stage::Done(outcome) => Command::Finish(outcome),
    }
}

/// Takes the caller's report of the command it carried out: moves the
/// submission on and says what to do next.
pub fn advance(stage: &mut Stage, event: Event) -> (command: Command)
    ensures
        *final(stage) == next_stage(*old(stage), event),
        command == pending(*final(stage)),
{
    let next = match (*stage, event) {
        (Stage::Built, Event::Signed) => Stage::Signed,
        (Stage::Built, Event::SigningFailed) => Stage::Done(Err(SubmitError::Signing)),
        (Stage::Signed, Event::Accepted(handle)) => Stage::Sent(handle),
        (Stage::Signed, Event::TransportFailed) => Stage::Done(Err(SubmitError::Network)),
        (Stage::Signed, Event::Rejected) => Stage::Done(Err(SubmitError::Rejected)),
        (Stage::Sent(handle), Event::ReferencePoint(reference)) => Stage::Confirming(
            handle,
            reference,
        ),
        (Stage::Sent(_), Event::TransportFailed) => Stage::Done(Err(SubmitError::Network)),
        (Stage::Confirming(handle, _), Event::Confirmed) => Stage::Done(Ok(handle)),
        (Stage::Confirming(handle, _), Event::Expired) => Stage::Done(
            Err(SubmitError::ConfirmationTimeout(handle)),
        ),
        (Stage::Confirming(_, _), Event::TransportFailed) => Stage::Done(
            Err(SubmitError::Network),
        ),
        (Stage::Confirming(_, _), Event::Rejected) => Stage::Done(Err(SubmitError::Rejected)),
        (stage, _) => stage,
    };
    *stage = next;
    command_for(&next)
}

/// What a caller should do about a failed submission. A timeout settles
/// nothing: the records have to be read again.
pub fn advice(error: &SubmitError) -> (r: Advice)
    ensures
        r == advice_for(*error),
{
    match error {
        SubmitError::Signing => Advice::Abort,
        SubmitError::Network => Advice::RetryLater,
        SubmitError::Rejected => Advice::Report,
        SubmitError::ConfirmationTimeout(_) => Advice::RereadState,
    }
}

} // verus!
