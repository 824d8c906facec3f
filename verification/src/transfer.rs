//! One transfer, from the balance check to the confirmed transaction.
//!
//! The steps that ask a node for something are asked for as an [`Action`]; the node's answer comes
//! back as an [`Event`].

use crate::keypair::Keypair;
use crate::pubkey::address_in;
use crate::pubkey::pubkey_from_str;
use crate::pubkey::ParsePubkeyError;
use crate::pubkey::Pubkey;
use crate::transaction::is_signed_transfer;
use crate::transaction::message_reads_back;
use crate::transaction::pays;
use crate::transaction::sign_message;
use crate::transaction::sign_with_payer;
use crate::transaction::signature_over;
use crate::transaction::Transaction;
use vstd::prelude::*;
use vstd::string::*;

verus! {

/// What a tool is told to transfer for each slot.
#[derive(Debug)]
pub struct TransferConfig {
    pub source_keypair: String,
    pub destination: String,
    pub amount_lamports: u64,
}

/// What a tool transfers for each slot.
pub struct Plan {
    pub source_keypair: Keypair,
    pub destination: Pubkey,
    pub amount_lamports: u64,
}

/// Lamports that the source has to hold beyond the amount, for fees.
pub const FEE_LAMPORTS: u64 = 5000;

/// Why a transfer failed.
#[derive(Debug)]
pub enum TransferError {
    /// The balance could not be had.
    Balance(String),
    /// The balance does not cover the amount and the fee.
    Insufficient { amount: u64, needed: u64, available: u64 },
    /// The blockhash could not be had.
    Blockhash(String),
    /// The transaction was not sent or not confirmed.
    Transaction(String),
}

/// What a node answered.
#[derive(Debug)]
pub enum Event {
    Balance(Result<u64, String>),
    Blockhash(Result<[u8; 32], String>),
    Confirmation(Result<String, String>),
}

/// What to do next.
#[derive(Debug)]
pub enum Action {
    GetBalance(Pubkey),
    GetLatestBlockhash,
    SendAndConfirm(Transaction),
    Finish(Result<String, TransferError>),
}

/// What a transfer waits for.
#[derive(Clone, Copy, Debug, PartialEq, Eq, Structural)]
pub enum Stage {
    Balance,
    Blockhash,
    Confirmation,
    Finished,
}

/// How the transaction is put together.
#[derive(Clone, Copy, Debug, PartialEq, Eq, Structural)]
pub enum Signing {
    /// In one go, with the payer named.
    WithPayer,
    /// As an unsigned message that is then signed.
    Message,
}

/// A transfer under way.
#[derive(Clone, Copy, Debug)]
pub struct TransferJob {
    pub destination: Pubkey,
    pub amount: u64,
    pub signing: Signing,
    pub stage: Stage,
}

/// Whether the amount and the fee can be added up.
pub open spec fn amount_in_range(amount: u64) -> bool {
    amount + FEE_LAMPORTS <= u64::MAX
}

/// Whether the event is what a transfer at this stage waits for.
pub open spec fn awaits(stage: Stage, event: Event) -> bool {
    match stage {
        Stage::Balance => event is Balance,
        Stage::Blockhash => event is Blockhash,
        Stage::Confirmation => event is Confirmation,
        Stage::Finished => false,
    }
}

/// What the balance check comes to.
pub open spec fn balance_check(balance: u64, amount: u64) -> Result<(), TransferError> {
    if balance < amount + FEE_LAMPORTS {
        Err(
            TransferError::Insufficient {
                amount,
                needed: (amount + FEE_LAMPORTS) as u64,
                available: balance,
            },
        )
    } else {
        Ok(())
    }
}

/// How an event ends a transfer, where it does.
pub open spec fn finish_of(job: TransferJob, event: Event) -> Option<Result<String, TransferError>> {
    match event {
        Event::Balance(Err(e)) => Some(Err(TransferError::Balance(e))),
        Event::Balance(Ok(balance)) => match balance_check(balance, job.amount) {
            Err(e) => Some(Err(e)),
            Ok(()) => None,
        },
        Event::Blockhash(Err(e)) => Some(Err(TransferError::Blockhash(e))),
        Event::Blockhash(Ok(_)) => None,
        Event::Confirmation(Err(e)) => Some(Err(TransferError::Transaction(e))),
        Event::Confirmation(Ok(signature)) => Some(Ok(signature)),
    }
}

/// What an event makes of a transfer, and the action that follows.
pub open spec fn stepped(
    before: TransferJob,
    after: TransferJob,
    keypair: Seq<u8>,
    event: Event,
    action: Action,
) -> bool {
    match event {
        Event::Balance(Err(e)) => {
            &&& after == (TransferJob { stage: Stage::Finished, ..before })
            &&& action == Action::Finish(Err(TransferError::Balance(e)))
        },
        Event::Balance(Ok(balance)) => match balance_check(balance, before.amount) {
            Err(e) => {
                &&& after == (TransferJob { stage: Stage::Finished, ..before })
                &&& action == Action::Finish(Err(e))
            },
            Ok(()) => {
                &&& after == (TransferJob { stage: Stage::Blockhash, ..before })
                &&& action == Action::GetLatestBlockhash
            },
        },
        Event::Blockhash(Err(e)) => {
            &&& after == (TransferJob { stage: Stage::Finished, ..before })
            &&& action == Action::Finish(Err(TransferError::Blockhash(e)))
        },
        Event::Blockhash(Ok(blockhash)) => {
            &&& after == (TransferJob { stage: Stage::Confirmation, ..before })
            &&& action is SendAndConfirm
            &&& is_signed_transfer(
                action->SendAndConfirm_0,
                keypair,
                before.destination@,
                before.amount,
                blockhash@,
            )
        },
        Event::Confirmation(Err(e)) => {
            &&& after == (TransferJob { stage: Stage::Finished, ..before })
            &&& action == Action::Finish(Err(TransferError::Transaction(e)))
        },
        Event::Confirmation(Ok(signature)) => {
            &&& after == (TransferJob { stage: Stage::Finished, ..before })
            &&& action == Action::Finish(Ok(signature))
        },
    }
}

/// What the key of the source, or the failure to read it, and the destination, or what is wrong
/// with it, come to: the first failure counts.
pub open spec fn planned(
    keypair: Result<Keypair, String>,
    destination: Result<Seq<u8>, ParsePubkeyError>,
    amount_lamports: u64,
    keypair_failure: Seq<char>,
    destination_failure: Seq<char>,
    r: Result<Plan, String>,
) -> bool {
    match (keypair, destination) {
        (Err(e), _) => r is Err && r->Err_0@ == keypair_failure + e@,
        (Ok(_), Err(e)) => r is Err && r->Err_0@ == destination_failure + e.text_spec(),
        (Ok(source), Ok(key)) => {
            &&& r is Ok
            &&& r->Ok_0.source_keypair == source
            &&& r->Ok_0.destination@ == key
            &&& r->Ok_0.amount_lamports == amount_lamports
        },
    }
}

/// What a parse of an address came to, with the address as its bytes.
pub open spec fn parsed_view(parsed: Result<Pubkey, ParsePubkeyError>) -> Result<Seq<u8>, ParsePubkeyError> {
    match parsed {
        Ok(key) => Ok(key@),
        Err(e) => Err(e),
    }
}

impl Plan {
    /// Puts a plan together from the key and the destination, or says which of them failed.
    pub fn assemble(
        keypair: Result<Keypair, String>,
        destination: Result<Pubkey, ParsePubkeyError>,
        amount_lamports: u64,
        keypair_failure: &str,
        destination_failure: &str,
    ) -> (r: Result<Plan, String>)
        ensures
            planned(
                keypair,
                parsed_view(destination),
                amount_lamports,
                keypair_failure@,
                destination_failure@,
                r,
            ),
            keypair matches Err(e) ==> r is Err && r->Err_0@ == keypair_failure@ + e@,
            keypair is Ok && destination == Err::<Pubkey, ParsePubkeyError>(ParsePubkeyError::WrongSize) ==> r is Err
                && r->Err_0@ == destination_failure@ + "String is the wrong size"@,
            keypair is Ok && destination == Err::<Pubkey, ParsePubkeyError>(ParsePubkeyError::Invalid) ==> r is Err
                && r->Err_0@ == destination_failure@ + "Invalid Base58 string"@,
            keypair is Ok && destination is Ok ==> {
                &&& r is Ok
                &&& r->Ok_0.source_keypair == keypair->Ok_0
                &&& r->Ok_0.destination == destination->Ok_0
                &&& r->Ok_0.amount_lamports == amount_lamports
            },
    {
        match keypair {
            Err(e) => Err(String::from_str(keypair_failure).concat(e.as_str())),
            Ok(source_keypair) => match destination {
                Err(e) => Err(String::from_str(destination_failure).concat(e.text())),
                Ok(destination) => Ok(Plan { source_keypair, destination, amount_lamports }),
            },
        }
    }

    /// Puts a plan together from the key and the configuration, or says what failed.
    pub fn new(
        transfer: &TransferConfig,
        keypair: Result<Keypair, String>,
        keypair_failure: &str,
        destination_failure: &str,
    ) -> (r: Result<Plan, String>)
        ensures
            planned(
                keypair,
                address_in(transfer.destination@),
                transfer.amount_lamports,
                keypair_failure@,
                destination_failure@,
                r,
            ),
            keypair matches Err(e) ==> r is Err && r->Err_0@ == keypair_failure@ + e@,
            keypair is Ok && address_in(transfer.destination@) == Err::<Seq<u8>, ParsePubkeyError>(ParsePubkeyError::WrongSize)
                ==> r is Err && r->Err_0@ == destination_failure@ + "String is the wrong size"@,
            keypair is Ok && address_in(transfer.destination@) == Err::<Seq<u8>, ParsePubkeyError>(ParsePubkeyError::Invalid)
                ==> r is Err && r->Err_0@ == destination_failure@ + "Invalid Base58 string"@,
            keypair is Ok && address_in(transfer.destination@) is Ok ==> {
                &&& r is Ok
                &&& r->Ok_0.source_keypair == keypair->Ok_0
                &&& r->Ok_0.destination.bytes@ == address_in(transfer.destination@)->Ok_0
                &&& r->Ok_0.amount_lamports == transfer.amount_lamports
            },
    {
        let destination: Result<Pubkey, ParsePubkeyError> = pubkey_from_str(transfer.destination.as_str());
        Plan::assemble(keypair, destination, transfer.amount_lamports, keypair_failure, destination_failure)
    }
}

/// Checks that a balance covers an amount and the fee.
pub fn check_balance(balance: u64, amount: u64) -> (r: Result<(), TransferError>)
    requires
        amount_in_range(amount),
    ensures
        r == balance_check(balance, amount),
        r is Ok <==> balance >= amount + 5000,
        r matches Err(e) ==> e == (TransferError::Insufficient {
            amount,
            needed: (amount + 5000) as u64,
            available: balance,
        }),
{
    let needed: u64 = amount + FEE_LAMPORTS;
    if balance < needed {
        Err(TransferError::Insufficient { amount, needed, available: balance })
    } else {
        Ok(())
    }
}

impl TransferJob {
    /// Starts a transfer: the first thing to ask for is the balance of the source.
    pub fn start(keypair: &Keypair, destination: Pubkey, amount: u64, signing: Signing) -> (r: (TransferJob, Action))
        ensures
            r.0 == (TransferJob { destination, amount, signing, stage: Stage::Balance }),
            r.1 is GetBalance,
            r.1->GetBalance_0@ == keypair@.subrange(32, 64),
    {
        let job = TransferJob { destination, amount, signing, stage: Stage::Balance };
        (job, Action::GetBalance(keypair.pubkey()))
    }

    /// Takes the answer that the transfer waits for.
    pub fn step(&mut self, keypair: &Keypair, event: Event) -> (r: Action)
        requires
            event is Balance && event->Balance_0 is Ok ==> amount_in_range(old(self).amount),
            awaits(old(self).stage, event),
        ensures
            stepped(*old(self), *final(self), keypair@, event, r),
    {
        match event {
            Event::Balance(Err(e)) => {
                self.stage = Stage::Finished;
                Action::Finish(Err(TransferError::Balance(e)))
            },
            Event::Balance(Ok(balance)) => match check_balance(balance, self.amount) {
                Err(e) => {
                    self.stage = Stage::Finished;
                    Action::Finish(Err(e))
                },
                Ok(()) => {
                    self.stage = Stage::Blockhash;
                    Action::GetLatestBlockhash
                },
            },
            Event::Blockhash(Err(e)) => {
                self.stage = Stage::Finished;
                Action::Finish(Err(TransferError::Blockhash(e)))
            },
            Event::Blockhash(Ok(blockhash)) => {
                let tx: Transaction = match self.signing {
                    Signing::WithPayer => sign_with_payer(keypair, &self.destination, self.amount, &blockhash),
                    Signing::Message => sign_message(keypair, &self.destination, self.amount, &blockhash),
                };
                self.stage = Stage::Confirmation;
                Action::SendAndConfirm(tx)
            },
            Event::Confirmation(Err(e)) => {
                self.stage = Stage::Finished;
                Action::Finish(Err(TransferError::Transaction(e)))
            },
            Event::Confirmation(Ok(signature)) => {
                self.stage = Stage::Finished;
                Action::Finish(Ok(signature))
            },
        }
    }
}

/// How many answers a transfer at this stage can still wait for.
pub open spec fn answers_left(stage: Stage) -> nat {
    match stage {
        Stage::Balance => 3,
        Stage::Blockhash => 2,
        Stage::Confirmation => 1,
        Stage::Finished => 0,
    }
}

/// Each answer brings a transfer nearer its end, and it ends with the action to finish and with no
/// other, on the result that the answer gives.
pub proof fn transfer_finishes(before: TransferJob, after: TransferJob, keypair: Seq<u8>, event: Event, action: Action)
    requires
        awaits(before.stage, event),
        stepped(before, after, keypair, event, action),
    ensures
        answers_left(after.stage) < answers_left(before.stage),
        after.stage == Stage::Finished <==> action is Finish,
        action is Finish <==> finish_of(before, event) is Some,
        action is Finish ==> finish_of(before, event) == Some(action->Finish_0),
{
}

/// A transaction goes out only where the balance that was reported covers the amount and the fee,
/// and it is the transfer that was asked for, under the blockhash that was reported.
pub proof fn only_a_covered_transfer_is_sent(
    start: TransferJob,
    checked: TransferJob,
    sent: TransferJob,
    keypair: Seq<u8>,
    balance: Event,
    middle: Action,
    blockhash: Event,
    action: Action,
)
    requires
        start.stage == Stage::Balance,
        awaits(start.stage, balance),
        stepped(start, checked, keypair, balance, middle),
        awaits(checked.stage, blockhash),
        stepped(checked, sent, keypair, blockhash, action),
        action is SendAndConfirm,
    ensures
        balance->Balance_0 is Ok,
        balance->Balance_0->Ok_0 >= start.amount + FEE_LAMPORTS,
        blockhash->Blockhash_0 is Ok,
        is_signed_transfer(
            action->SendAndConfirm_0,
            keypair,
            start.destination@,
            start.amount,
            blockhash->Blockhash_0->Ok_0@,
        ),
{
}

/// A balance short of the amount and the fee ends the transfer at once: nothing else is asked for.
pub proof fn uncovered_transfer_ends(before: TransferJob, after: TransferJob, keypair: Seq<u8>, balance: u64, action: Action)
    requires
        stepped(before, after, keypair, Event::Balance(Ok(balance)), action),
        balance < before.amount + FEE_LAMPORTS,
    ensures
        after.stage == Stage::Finished,
        action == Action::Finish(
            Err(
                TransferError::Insufficient {
                    amount: before.amount,
                    needed: (before.amount + FEE_LAMPORTS) as u64,
                    available: balance,
                },
            ),
        ),
{
}

/// The check passes exactly the balances that hold the amount and 5000 lamports for the fee, and a
/// balance that it refuses is short of what it says is needed.
pub proof fn covered_balance_passes(balance: u64, amount: u64)
    ensures
        balance_check(balance, amount) is Ok <==> balance >= amount + 5000,
        balance_check(balance, amount) matches Err(e) ==> {
            &&& e is Insufficient
            &&& e->amount == amount
            &&& e->available == balance
            &&& amount + 5000 <= u64::MAX ==> e->needed == amount + 5000 && e->available < e->needed
        },
{
}

/// The check never turns against a richer source or a smaller amount.
pub proof fn cover_is_monotone(balance: u64, amount: u64, more: u64, less: u64)
    requires
        balance <= more,
        less <= amount,
        balance_check(balance, amount) is Ok,
    ensures
        balance_check(more, less) is Ok,
{
}

/// The amounts that can be checked are those to which 5000 lamports can be added.
pub proof fn amounts_that_can_be_checked(amount: u64)
    ensures
        amount_in_range(amount) <==> amount + 5000 <= u64::MAX,
{
}

/// A transfer takes the answer to what it asked for last, and no other.
pub proof fn answers_come_in_order(stage: Stage, event: Event)
    ensures
        awaits(stage, event) <==> {
            ||| stage == Stage::Balance && event is Balance
            ||| stage == Stage::Blockhash && event is Blockhash
            ||| stage == Stage::Confirmation && event is Confirmation
        },
{
}

/// A covered transfer goes on: with a balance of the amount and the fee or more, the blockhash is
/// asked for.
pub proof fn covered_transfer_goes_on(
    before: TransferJob,
    after: TransferJob,
    keypair: Seq<u8>,
    balance: u64,
    action: Action,
)
    requires
        stepped(before, after, keypair, Event::Balance(Ok(balance)), action),
    ensures
        balance >= before.amount + 5000 <==> action is GetLatestBlockhash,
        balance >= before.amount + 5000 <==> after.stage == Stage::Blockhash,
        balance < before.amount + 5000 <==> action is Finish,
        balance < before.amount + 5000 <==> after.stage == Stage::Finished,
{
}

/// A transfer never changes what is transferred, to whom, or how it is signed.
pub proof fn transfer_keeps_its_terms(
    before: TransferJob,
    after: TransferJob,
    keypair: Seq<u8>,
    event: Event,
    action: Action,
)
    requires
        stepped(before, after, keypair, event, action),
    ensures
        after.destination == before.destination,
        after.amount == before.amount,
        after.signing == before.signing,
{
}

/// With a blockhash the transfer is sent, signed by the keypair over a message that pays the amount
/// to the destination.
pub proof fn blockhash_leads_to_the_transfer(
    before: TransferJob,
    after: TransferJob,
    keypair: Seq<u8>,
    blockhash: [u8; 32],
    action: Action,
)
    requires
        stepped(before, after, keypair, Event::Blockhash(Ok(blockhash)), action),
        keypair.len() == 64,
    ensures
        after.stage == Stage::Confirmation,
        action matches Action::SendAndConfirm(tx) && pays(
            tx.message@,
            keypair.subrange(32, 64),
            before.destination.bytes@,
            before.amount,
            blockhash@,
        ) && tx.signatures@.len() == 1 && tx.signatures@[0]@ == signature_over(keypair, tx.message@),
{
    message_reads_back(keypair.subrange(32, 64), before.destination.bytes@, before.amount, blockhash@);
}

/// An answer that is a failure ends the transfer with that failure, and a confirmation ends it with
/// the signature that the node gave.
pub proof fn answers_end_the_transfer(
    before: TransferJob,
    after: TransferJob,
    keypair: Seq<u8>,
    event: Event,
    action: Action,
)
    requires
        stepped(before, after, keypair, event, action),
    ensures
        event matches Event::Balance(Err(e)) ==> action == Action::Finish(Err(TransferError::Balance(e))),
        event matches Event::Blockhash(Err(e)) ==> action == Action::Finish(Err(TransferError::Blockhash(e))),
        event matches Event::Confirmation(Err(e)) ==> action == Action::Finish(Err(TransferError::Transaction(e))),
        event matches Event::Confirmation(Ok(signature)) ==> action == Action::Finish(Ok(signature)),
        action is Finish ==> after.stage == Stage::Finished,
        action is Finish <==> {
            ||| event matches Event::Balance(Err(e))
            ||| event matches Event::Balance(Ok(balance)) && balance < before.amount + 5000
            ||| event matches Event::Blockhash(Err(e))
            ||| event is Confirmation
        },
{
}

/// What ends a transfer, and with what result, is told by the answer and the amount alone.
pub proof fn ends_are_told_by_the_answer(job: TransferJob, event: Event)
    ensures
        event matches Event::Balance(Err(e)) ==> finish_of(job, event) == Some(
            Err::<String, TransferError>(TransferError::Balance(e)),
        ),
        event matches Event::Balance(Ok(balance)) ==> {
            &&& balance >= job.amount + 5000 <==> finish_of(job, event) is None
            &&& balance < job.amount + 5000 ==> finish_of(job, event) == Some(
                Err::<String, TransferError>(
                    TransferError::Insufficient {
                        amount: job.amount,
                        needed: (job.amount + 5000) as u64,
                        available: balance,
                    },
                ),
            )
        },
        event matches Event::Blockhash(Err(e)) ==> finish_of(job, event) == Some(
            Err::<String, TransferError>(TransferError::Blockhash(e)),
        ),
        event matches Event::Blockhash(Ok(blockhash)) ==> finish_of(job, event) is None,
        event matches Event::Confirmation(Err(e)) ==> finish_of(job, event) == Some(
            Err::<String, TransferError>(TransferError::Transaction(e)),
        ),
        event matches Event::Confirmation(Ok(signature)) ==> finish_of(job, event) == Some(
            Ok::<String, TransferError>(signature),
        ),
{
}

/// A plan is made exactly where the key was read and the destination is an address, and holds that
/// key, that address and the amount; otherwise the key's failure is told before the destination's.
pub proof fn plan_holds_its_parts(
    keypair: Result<Keypair, String>,
    destination: Result<Seq<u8>, ParsePubkeyError>,
    amount_lamports: u64,
    keypair_failure: Seq<char>,
    destination_failure: Seq<char>,
    r: Result<Plan, String>,
)
    requires
        planned(keypair, destination, amount_lamports, keypair_failure, destination_failure, r),
    ensures
        r is Ok <==> keypair is Ok && destination is Ok,
        r matches Ok(plan) ==> {
            &&& plan.source_keypair == keypair->Ok_0
            &&& plan.destination.bytes@ == destination->Ok_0
            &&& plan.amount_lamports == amount_lamports
        },
        keypair matches Err(e) ==> r->Err_0@ == keypair_failure + e@,
        keypair is Ok && destination is Err ==> r->Err_0@ == destination_failure + (if destination->Err_0
            == ParsePubkeyError::WrongSize {
            "String is the wrong size"@
        } else {
            "Invalid Base58 string"@
        }),
{
}

/// A parse keeps its address, byte for byte, and its error.
pub proof fn parse_keeps_what_it_found(key: Pubkey, error: ParsePubkeyError)
    ensures
        parsed_view(Ok(key)) == Ok::<Seq<u8>, ParsePubkeyError>(key.bytes@),
        parsed_view(Err(error)) == Err::<Seq<u8>, ParsePubkeyError>(error),
{
}

} // verus!
