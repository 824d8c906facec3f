//! A transfer that is tried again after a failure, as far as the limit allows.

use crate::keypair::Keypair;
use crate::retry::attempts_made;
use crate::retry::Retry;
use crate::retry::Verdict;
use crate::transaction::is_signed_transfer;
use crate::transaction::pays;
use crate::transaction::signature_over;
use crate::transaction::signed_transfer_pays;
use crate::transaction::Transaction;
use crate::transfer::amount_in_range;
use crate::transfer::answers_left;
use crate::transfer::awaits;
use crate::transfer::finish_of;
use crate::transfer::stepped;
use crate::transfer::transfer_finishes;
use crate::transfer::Action;
use crate::transfer::Event;
use crate::transfer::Plan;
use crate::transfer::Signing;
use crate::transfer::Stage;
use crate::transfer::TransferError;
use crate::transfer::TransferJob;
use crate::transfer::FEE_LAMPORTS;
use vstd::bytes::spec_u64_from_le_bytes;
use vstd::prelude::*;

verus! {

/// A transfer with its attempts.
#[derive(Clone, Copy, Debug)]
pub struct Session {
    pub retry: Retry,
    pub delay_ms: u64,
    pub job: TransferJob,
    pub waiting: bool,
}

/// What happened.
#[derive(Debug)]
pub enum SessionEvent {
    /// A node answered.
    Answer(Event),
    /// The wait before the next attempt is over.
    Slept,
}

/// What to do next.
#[derive(Debug)]
pub enum SessionAction {
    /// Ask a node.
    Ask(Action),
    /// Wait; the attempt failed like this, and another one is due.
    Sleep { ms: u64, error: TransferError },
    /// The transfer is over.
    Done(Result<String, TransferError>),
}

impl Session {
    /// The attempts are in order, and a wait follows a finished attempt.
    pub open spec fn well_formed(self) -> bool {
        self.retry.well_formed() && (self.waiting ==> self.job.stage == Stage::Finished)
    }
}

/// Whether the event is what the session waits for.
pub open spec fn session_awaits(s: Session, event: SessionEvent) -> bool {
    match event {
        SessionEvent::Answer(event) => !s.waiting && awaits(s.job.stage, event),
        SessionEvent::Slept => s.waiting,
    }
}

/// What an event makes of a session, and the action that follows.
pub open spec fn session_stepped(
    before: Session,
    after: Session,
    keypair: Seq<u8>,
    event: SessionEvent,
    action: SessionAction,
) -> bool {
    match event {
        SessionEvent::Slept => {
            &&& after == (Session {
                job: TransferJob { stage: Stage::Balance, ..before.job },
                waiting: false,
                ..before
            })
            &&& action is Ask
            &&& action->Ask_0 is GetBalance
            &&& action->Ask_0->GetBalance_0@ == keypair.subrange(32, 64)
        },
        SessionEvent::Answer(event) => match finish_of(before.job, event) {
            None => {
                &&& action is Ask
                &&& stepped(before.job, after.job, keypair, event, action->Ask_0)
                &&& after == (Session { job: after.job, ..before })
            },
            Some(result) => {
                let finished = Session {
                    job: TransferJob { stage: Stage::Finished, ..before.job },
                    ..before
                };
                if result is Ok || before.retry.attempt == before.retry.last {
                    action == SessionAction::Done(result) && after == finished
                } else {
                    &&& action == SessionAction::Sleep { ms: before.delay_ms, error: result->Err_0 }
                    &&& after == (Session {
                        retry: Retry { attempt: (before.retry.attempt + 1) as u32, ..before.retry },
                        waiting: true,
                        ..finished
                    })
                }
            },
        },
    }
}

/// The transfer of a plan, not yet begun.
pub open spec fn job_of(plan: Plan) -> TransferJob {
    TransferJob {
        destination: plan.destination,
        amount: plan.amount_lamports,
        signing: Signing::WithPayer,
        stage: Stage::Balance,
    }
}

/// Whether the action asks for the balance of the source of a plan.
pub open spec fn is_balance_request(action: SessionAction, plan: Plan) -> bool {
    &&& action is Ask
    &&& action->Ask_0 is GetBalance
    &&& action->Ask_0->GetBalance_0@ == plan.source_keypair@.subrange(32, 64)
}

impl Session {
    /// Starts the first attempt at the transfer of a plan.
    pub fn start(plan: &Plan, retry: Retry, delay_ms: u64) -> (r: (Session, SessionAction))
        requires
            retry.well_formed(),
        ensures
            r.0 == (Session { retry, delay_ms, job: job_of(*plan), waiting: false }),
            r.0.well_formed(),
            is_balance_request(r.1, *plan),
            r.0.retry == retry,
            r.0.delay_ms == delay_ms,
            !r.0.waiting,
            r.0.job.amount == plan.amount_lamports,
            r.0.job.destination == plan.destination,
            r.0.job.signing == Signing::WithPayer,
            r.0.job.stage == Stage::Balance,
            r.1 is Ask && r.1->Ask_0 is GetBalance,
            r.1->Ask_0->GetBalance_0.bytes@ == plan.source_keypair@.subrange(32, 64),
    {
        let started: (TransferJob, Action) = TransferJob::start(
            &plan.source_keypair,
            plan.destination,
            plan.amount_lamports,
            Signing::WithPayer,
        );
        let session = Session { retry, delay_ms, job: started.0, waiting: false };
        (session, SessionAction::Ask(started.1))
    }

    /// Takes what the session waits for.
    pub fn step(&mut self, keypair: &Keypair, event: SessionEvent) -> (r: SessionAction)
        requires
            old(self).well_formed(),
            session_awaits(*old(self), event),
            event matches SessionEvent::Answer(Event::Balance(Ok(balance))) ==> amount_in_range(
                old(self).job.amount,
            ),
        ensures
            session_stepped(*old(self), *final(self), keypair@, event, r),
            final(self).well_formed(),
    {
        match event {
            SessionEvent::Slept => {
                let started: (TransferJob, Action) = TransferJob::start(
                    keypair,
                    self.job.destination,
                    self.job.amount,
                    self.job.signing,
                );
                self.job = started.0;
                self.waiting = false;
                SessionAction::Ask(started.1)
            },
            SessionEvent::Answer(event) => {
                let mut job: TransferJob = self.job;
                let action: Action = job.step(keypair, event);
                proof {
                    transfer_finishes(self.job, job, keypair@, event, action);
                }
                self.job = job;
                match action {
                    Action::Finish(result) => {
                        let mut retry: Retry = self.retry;
                        match retry.judge(result) {
                            Verdict::Return(result) => SessionAction::Done(result),
                            Verdict::Again(error) => {
                                self.retry = retry;
                                self.waiting = true;
                                SessionAction::Sleep { ms: self.delay_ms, error }
                            },
                        }
                    },
                    action => SessionAction::Ask(action),
                }
            },
        }
    }
}

/// How much a session has still before it, at most.
pub open spec fn session_left(s: Session) -> int {
    (s.retry.last - s.retry.attempt) * 5 + answers_left(s.job.stage) + (if s.waiting {
        4int
    } else {
        0
    })
}

/// Every event brings a session nearer its end, and it is over exactly when it says so.
pub proof fn session_ends(before: Session, after: Session, keypair: Seq<u8>, event: SessionEvent, action: SessionAction)
    requires
        before.well_formed(),
        session_awaits(before, event),
        session_stepped(before, after, keypair, event, action),
    ensures
        0 <= session_left(after) < session_left(before),
        action is Done <==> (after.job.stage == Stage::Finished && !after.waiting),
{
}

/// How many transactions a session can still send.
pub open spec fn sends_left(s: Session) -> int {
    s.retry.last - s.retry.attempt + (if s.waiting || s.job.stage == Stage::Balance || s.job.stage
        == Stage::Blockhash {
        1int
    } else {
        0
    })
}

/// A session sends at most one transaction for each attempt that it is allowed: each one uses up
/// one of those left and none is ever gained. A confirmed transaction ends the session.
pub proof fn sends_are_limited(
    before: Session,
    after: Session,
    keypair: Seq<u8>,
    event: SessionEvent,
    action: SessionAction,
)
    requires
        before.well_formed(),
        session_awaits(before, event),
        session_stepped(before, after, keypair, event, action),
    ensures
        sends_left(after) <= sends_left(before),
        action matches SessionAction::Ask(Action::SendAndConfirm(tx)) ==> sends_left(after) == sends_left(before)
            - 1,
        event matches SessionEvent::Answer(Event::Confirmation(Ok(signature))) ==> action
            == SessionAction::Done(Ok::<String, TransferError>(signature)),
        0 <= sends_left(after),
{
}

/// An event, the action that followed, and the session after both.
pub struct Turn {
    pub event: SessionEvent,
    pub action: SessionAction,
    pub after: Session,
}

/// The session after a series of turns.
pub open spec fn session_after(s: Session, turns: Seq<Turn>) -> Session {
    if turns.len() == 0 {
        s
    } else {
        turns.last().after
    }
}

/// Whether the turns follow one another from the session on.
pub open spec fn is_run(s: Session, turns: Seq<Turn>, keypair: Seq<u8>) -> bool
    decreases turns.len(),
{
    turns.len() > 0 ==> {
        let before = session_after(s, turns.drop_last());
        let turn = turns.last();
        &&& is_run(s, turns.drop_last(), keypair)
        &&& session_awaits(before, turn.event)
        &&& session_stepped(before, turn.after, keypair, turn.event, turn.action)
    }
}

/// How many transactions a series of turns sends.
pub open spec fn sends_in(turns: Seq<Turn>) -> nat
    decreases turns.len(),
{
    if turns.len() == 0 {
        0
    } else {
        sends_in(turns.drop_last()) + (if turns.last().action matches SessionAction::Ask(
            Action::SendAndConfirm(tx),
        ) {
            1nat
        } else {
            0
        })
    }
}

/// No run of a session from its start sends more transactions than attempts are allowed, or takes
/// more than five turns for each attempt.
pub proof fn run_is_limited(s: Session, turns: Seq<Turn>, keypair: Seq<u8>)
    requires
        s.well_formed(),
        s.retry.attempt == 0,
        s.job.stage == Stage::Balance,
        is_run(s, turns, keypair),
    ensures
        sends_in(turns) <= s.retry.last + 1,
        turns.len() <= 5 * (s.retry.last + 1),
{
    run_uses_up(s, turns, keypair);
}

/// How many waits a series of turns asks for: one after each attempt that failed and was not the
/// last.
pub open spec fn waits_in(turns: Seq<Turn>) -> nat
    decreases turns.len(),
{
    if turns.len() == 0 {
        0
    } else {
        waits_in(turns.drop_last()) + (if turns.last().action is Sleep {
            1nat
        } else {
            0
        })
    }
}

/// What the attempts of a series of turns came to, in their order.
pub open spec fn outcomes_in(turns: Seq<Turn>) -> Seq<Result<String, TransferError>>
    decreases turns.len(),
{
    if turns.len() == 0 {
        Seq::empty()
    } else {
        match turns.last().action {
            SessionAction::Sleep { ms, error } => outcomes_in(turns.drop_last()).push(Err(error)),
            SessionAction::Done(result) => outcomes_in(turns.drop_last()).push(result),
            SessionAction::Ask(_) => outcomes_in(turns.drop_last()),
        }
    }
}

/// Whether a series of turns is over.
pub open spec fn is_done(turns: Seq<Turn>) -> bool {
    turns.len() > 0 && turns.last().action is Done
}

/// Whether a turn does what the session is for: a transaction is the transfer that was asked for,
/// under the blockhash that was just reported; a wait is as long as was set; and a wait or an end
/// carries the error or result of the answer that ended the attempt.
pub open spec fn turn_follows(s: Session, turn: Turn, keypair: Seq<u8>) -> bool {
    match turn.action {
        SessionAction::Ask(Action::SendAndConfirm(tx)) => {
            &&& turn.event matches SessionEvent::Answer(Event::Blockhash(Ok(blockhash)))
            &&& is_signed_transfer(tx, keypair, s.job.destination@, s.job.amount, blockhash@)
        },
        SessionAction::Ask(_) => true,
        SessionAction::Sleep { ms, error } => {
            &&& turn.event matches SessionEvent::Answer(event)
            &&& finish_of(s.job, event) == Some(Err::<String, TransferError>(error))
            &&& ms == s.delay_ms
        },
        SessionAction::Done(result) => {
            &&& turn.event matches SessionEvent::Answer(event)
            &&& finish_of(s.job, event) == Some(result)
        },
    }
}

/// Whether the turn reports a balance that covers the amount and the fee.
pub open spec fn reports_cover(s: Session, turn: Turn) -> bool {
    turn.event matches SessionEvent::Answer(Event::Balance(Ok(balance))) && balance >= s.job.amount + FEE_LAMPORTS
}

/// Whether the turn sends a transaction.
pub open spec fn sends(turn: Turn) -> bool {
    turn.action matches SessionAction::Ask(Action::SendAndConfirm(tx))
}

/// In any run of a session from its start, every transaction is the transfer that was asked for
/// and goes out right after a balance that covers it; every wait is as long as was set and follows
/// an attempt that failed; the waits count the attempts; and nothing follows the end.
pub proof fn run_follows_the_session(s: Session, turns: Seq<Turn>, keypair: Seq<u8>)
    requires
        s.well_formed(),
        s.retry.attempt == 0,
        s.job.stage == Stage::Balance,
        is_run(s, turns, keypair),
    ensures
        forall|i: int| 0 <= i < turns.len() ==> turn_follows(s, #[trigger] turns[i], keypair),
        forall|i: int|
            0 <= i < turns.len() && sends(#[trigger] turns[i]) ==> i > 0 && reports_cover(s, turns[i - 1]),
        forall|i: int| 0 <= i < turns.len() - 1 ==> !((#[trigger] turns[i]).action is Done),
        waits_in(turns) == session_after(s, turns).retry.attempt,
        waits_in(turns) <= s.retry.last,
{
    run_has_shape(s, turns, keypair);
}

/// A run that is over made as many attempts as it waited, and one more. All but the last one
/// failed. The result is that of the last one: the signature that the node confirmed for the
/// transaction just sent, or the error of the last attempt allowed.
pub proof fn done_at_first_success_or_limit(s: Session, turns: Seq<Turn>, keypair: Seq<u8>)
    requires
        s.well_formed(),
        s.retry.attempt == 0,
        s.job.stage == Stage::Balance,
        is_run(s, turns, keypair),
        is_done(turns),
    ensures
        outcomes_in(turns).len() == waits_in(turns) + 1,
        outcomes_in(turns).len() == attempts_made(s.retry, outcomes_in(turns)),
        forall|i: int| 0 <= i < waits_in(turns) ==> (#[trigger] outcomes_in(turns)[i]) is Err,
        turns.last().action == SessionAction::Done(outcomes_in(turns).last()),
        turns.last().action matches SessionAction::Done(Ok(signature)) ==> {
            &&& turns.last().event == SessionEvent::Answer(Event::Confirmation(Ok(signature)))
            &&& turns.len() > 1
            &&& sends(turns[turns.len() - 2])
        },
        turns.last().action matches SessionAction::Done(Err(error)) ==> {
            &&& waits_in(turns) == s.retry.last
            &&& turns.last().event matches SessionEvent::Answer(event)
            &&& finish_of(s.job, event) == Some(Err::<String, TransferError>(error))
        },
{
    run_has_shape(s, turns, keypair);
    assert(turn_follows(s, turns.last(), keypair));
    outcomes_count_the_attempts(s.retry, outcomes_in(turns));
}

/// What a run from the start has come to so far, for an induction over its turns.
proof fn run_has_shape(s: Session, turns: Seq<Turn>, keypair: Seq<u8>)
    requires
        s.well_formed(),
        s.retry.attempt == 0,
        s.job.stage == Stage::Balance,
        is_run(s, turns, keypair),
    ensures
        ({
            let end = session_after(s, turns);
            &&& end.well_formed()
            &&& end.delay_ms == s.delay_ms
            &&& end.retry == (Retry { attempt: waits_in(turns) as u32, last: s.retry.last })
            &&& end.retry.attempt == waits_in(turns)
            &&& end.job == (TransferJob { stage: end.job.stage, ..s.job })
            &&& is_done(turns) <==> end.job.stage == Stage::Finished && !end.waiting
            &&& end.job.stage == Stage::Blockhash ==> turns.len() > 0 && reports_cover(s, turns.last())
            &&& end.job.stage == Stage::Confirmation ==> turns.len() > 0 && sends(turns.last())
        }),
        forall|i: int| 0 <= i < turns.len() ==> turn_follows(s, #[trigger] turns[i], keypair),
        forall|i: int|
            0 <= i < turns.len() && sends(#[trigger] turns[i]) ==> i > 0 && reports_cover(s, turns[i - 1]),
        forall|i: int| 0 <= i < turns.len() - 1 ==> !((#[trigger] turns[i]).action is Done),
        outcomes_in(turns).len() == waits_in(turns) + (if is_done(turns) {
            1int
        } else {
            0
        }),
        forall|i: int| 0 <= i < waits_in(turns) ==> (#[trigger] outcomes_in(turns)[i]) is Err,
        is_done(turns) ==> {
            &&& turns.last().action == SessionAction::Done(outcomes_in(turns).last())
            &&& outcomes_in(turns).last() is Ok ==> turns.len() > 1 && sends(turns[turns.len() - 2])
            &&& outcomes_in(turns).last() is Err ==> waits_in(turns) == s.retry.last
        },
    decreases turns.len(),
{
    if turns.len() > 0 {
        let init = turns.drop_last();
        let before = session_after(s, init);
        let turn = turns.last();
        run_has_shape(s, init, keypair);
        session_ends(before, turn.after, keypair, turn.event, turn.action);
        if init.len() > 0 {
            assert(init.last() == turns[turns.len() - 2]);
        }
        assert(turn_follows(s, turn, keypair));
        assert forall|i: int| 0 <= i < turns.len() implies turn_follows(s, #[trigger] turns[i], keypair) by {
            if i < init.len() {
                assert(turns[i] == init[i]);
            }
        }
        assert forall|i: int| 0 <= i < turns.len() && sends(#[trigger] turns[i]) implies i > 0 && reports_cover(
            s,
            turns[i - 1],
        ) by {
            if i < init.len() {
                assert(turns[i] == init[i]);
                assert(turns[i - 1] == init[i - 1]);
            }
        }
        assert forall|i: int| 0 <= i < turns.len() - 1 implies !((#[trigger] turns[i]).action is Done) by {
            assert(turns[i] == init[i]);
        }
    }
}

/// A series of outcomes that all failed but the last, and whose last one succeeded or reached the
/// limit, is as long as the count of its attempts.
proof fn outcomes_count_the_attempts(series: Retry, outcomes: Seq<Result<String, TransferError>>)
    requires
        series.well_formed(),
        0 < outcomes.len() <= series.last - series.attempt + 1,
        forall|i: int| 0 <= i < outcomes.len() - 1 ==> (#[trigger] outcomes[i]) is Err,
        outcomes.last() is Err ==> outcomes.len() == series.last - series.attempt + 1,
    ensures
        attempts_made(series, outcomes) == outcomes.len(),
    decreases outcomes.len(),
{
    if outcomes.len() > 1 {
        let rest = outcomes.drop_first();
        assert(outcomes[0] is Err);
        assert forall|i: int| 0 <= i < rest.len() - 1 implies (#[trigger] rest[i]) is Err by {
            assert(rest[i] == outcomes[i + 1]);
        }
        outcomes_count_the_attempts(Retry { attempt: (series.attempt + 1) as u32, ..series }, rest);
    }
}

/// What a run of a session sends and takes comes off what is left.
proof fn run_uses_up(s: Session, turns: Seq<Turn>, keypair: Seq<u8>)
    requires
        s.well_formed(),
        is_run(s, turns, keypair),
    ensures
        session_after(s, turns).well_formed(),
        sends_in(turns) + sends_left(session_after(s, turns)) <= sends_left(s),
        turns.len() + session_left(session_after(s, turns)) <= session_left(s),
        0 <= sends_left(session_after(s, turns)),
        0 <= session_left(session_after(s, turns)),
    decreases turns.len(),
{
    if turns.len() > 0 {
        let before = session_after(s, turns.drop_last());
        let turn = turns.last();
        run_uses_up(s, turns.drop_last(), keypair);
        session_ends(before, turn.after, keypair, turn.event, turn.action);
        sends_are_limited(before, turn.after, keypair, turn.event, turn.action);
    }
}

/// The transfer of a plan carries the plan's own terms.
pub proof fn job_carries_the_plan(plan: Plan)
    ensures
        job_of(plan).amount == plan.amount_lamports,
        job_of(plan).destination == plan.destination,
        job_of(plan).signing == Signing::WithPayer,
        job_of(plan).stage == Stage::Balance,
{
}

/// The first request of a session is for the balance of the plan's own source.
pub proof fn first_request_is_for_the_source(action: SessionAction, plan: Plan)
    requires
        is_balance_request(action, plan),
    ensures
        action matches SessionAction::Ask(Action::GetBalance(key)) && key.bytes@ == plan.source_keypair@.subrange(
            32,
            64,
        ),
{
}

/// Whatever happens, a session keeps the terms of its transfer, its limit and its pause.
pub proof fn session_keeps_its_terms(
    before: Session,
    after: Session,
    keypair: Seq<u8>,
    event: SessionEvent,
    action: SessionAction,
)
    requires
        session_stepped(before, after, keypair, event, action),
    ensures
        after.job.amount == before.job.amount,
        after.job.destination == before.job.destination,
        after.job.signing == before.job.signing,
        after.retry.last == before.retry.last,
        after.delay_ms == before.delay_ms,
{
}

/// A session goes on as the answers say: a covered balance leads to the blockhash, the blockhash to
/// the transaction that pays the amount to the destination, and the end of a pause to a new
/// attempt, which asks for the balance of the source again.
pub proof fn session_goes_on(
    before: Session,
    after: Session,
    keypair: Seq<u8>,
    event: SessionEvent,
    action: SessionAction,
)
    requires
        session_stepped(before, after, keypair, event, action),
        keypair.len() == 64,
    ensures
        event matches SessionEvent::Answer(Event::Balance(Ok(balance))) ==> (balance >= before.job.amount + 5000
            <==> action == SessionAction::Ask(Action::GetLatestBlockhash)),
        event matches SessionEvent::Answer(Event::Blockhash(Ok(blockhash))) ==> {
            &&& action matches SessionAction::Ask(Action::SendAndConfirm(tx))
            &&& pays(
                tx.message@,
                keypair.subrange(32, 64),
                before.job.destination.bytes@,
                before.job.amount,
                blockhash@,
            )
            &&& spec_u64_from_le_bytes(tx.message@.subrange(tx.message@.len() - 8, tx.message@.len() as int))
                == before.job.amount
            &&& tx.signatures@.len() == 1
            &&& tx.signatures@[0]@ == signature_over(keypair, tx.message@)
        },
        event is Slept ==> {
            &&& action matches SessionAction::Ask(Action::GetBalance(key))
            &&& key.bytes@ == keypair.subrange(32, 64)
            &&& after.job.stage == Stage::Balance
            &&& !after.waiting
        },
        action matches SessionAction::Ask(asked) ==> {
            &&& after.retry.attempt == before.retry.attempt
            &&& asked is GetLatestBlockhash <==> after.job.stage == Stage::Blockhash
            &&& asked is SendAndConfirm <==> after.job.stage == Stage::Confirmation
            &&& asked is GetBalance <==> after.job.stage == Stage::Balance
        },
{
    if let SessionEvent::Answer(Event::Blockhash(Ok(blockhash))) = event {
        let tx = action->Ask_0->SendAndConfirm_0;
        signed_transfer_pays(tx, keypair, before.job.destination.bytes@, before.job.amount, blockhash@);
    }
}

/// A confirmed transaction ends a session with its signature. A failure ends it only at the limit,
/// and otherwise leads to a pause of the length that was set, with one more attempt counted; the
/// failure that was reported is passed on in both cases.
pub proof fn session_ends_or_tries_again(
    before: Session,
    after: Session,
    keypair: Seq<u8>,
    event: SessionEvent,
    action: SessionAction,
)
    requires
        session_stepped(before, after, keypair, event, action),
        before.retry.attempt <= before.retry.last,
    ensures
        ({
            let failure = match event {
                SessionEvent::Answer(Event::Balance(Err(e))) => Some(TransferError::Balance(e)),
                SessionEvent::Answer(Event::Balance(Ok(balance))) => if balance < before.job.amount + 5000 {
                    Some(
                        TransferError::Insufficient {
                            amount: before.job.amount,
                            needed: (before.job.amount + 5000) as u64,
                            available: balance,
                        },
                    )
                } else {
                    None
                },
                SessionEvent::Answer(Event::Blockhash(Err(e))) => Some(TransferError::Blockhash(e)),
                SessionEvent::Answer(Event::Confirmation(Err(e))) => Some(TransferError::Transaction(e)),
                _ => None,
            };
            &&& failure is Some && before.retry.attempt == before.retry.last ==> action == SessionAction::Done(
                Err::<String, TransferError>(failure->Some_0),
            )
            &&& failure is Some && before.retry.attempt < before.retry.last ==> {
                &&& action == SessionAction::Sleep { ms: before.delay_ms, error: failure->Some_0 }
                &&& after.retry.attempt == before.retry.attempt + 1
                &&& after.waiting
            }
            &&& failure is None ==> !(action is Sleep)
            &&& action is Done <==> {
                ||| failure is Some && before.retry.attempt == before.retry.last
                ||| event matches SessionEvent::Answer(Event::Confirmation(Ok(signature)))
            }
            &&& action is Sleep || after.retry.attempt == before.retry.attempt
        }),
        event matches SessionEvent::Answer(Event::Confirmation(Ok(signature))) ==> action == SessionAction::Done(
            Ok::<String, TransferError>(signature),
        ),
{
}

/// A session takes the answer to what it asked for last, or the end of its pause, and no other.
pub proof fn session_waits_for_one_thing(s: Session, event: SessionEvent)
    ensures
        session_awaits(s, event) <==> {
            ||| s.waiting && event is Slept
            ||| !s.waiting && s.job.stage == Stage::Balance && (event is Answer && event->Answer_0 is Balance)
            ||| !s.waiting && s.job.stage == Stage::Blockhash && (event is Answer && event->Answer_0 is Blockhash)
            ||| !s.waiting && s.job.stage == Stage::Confirmation && (event is Answer
                && event->Answer_0 is Confirmation)
        },
        s.well_formed() <==> s.retry.attempt <= s.retry.last && (s.waiting ==> s.job.stage == Stage::Finished),
{
}

/// Every transaction of a run that was started for a plan pays the plan's amount from the plan's
/// source to the plan's destination, under the blockhash that was just reported, and goes out right
/// after a balance that covers the amount and the fee.
pub proof fn run_of_a_plan_sends_the_plan(
    plan: Plan,
    s: Session,
    turns: Seq<Turn>,
    i: int,
    tx: Transaction,
)
    requires
        s.retry.attempt == 0,
        s.job == job_of(plan),
        !s.waiting,
        plan.source_keypair@.len() == 64,
        is_run(s, turns, plan.source_keypair@),
        0 <= i < turns.len(),
        turns[i].action == SessionAction::Ask(Action::SendAndConfirm(tx)),
    ensures
        turns[i].event matches SessionEvent::Answer(Event::Blockhash(Ok(blockhash))) && pays(
            tx.message@,
            plan.source_keypair@.subrange(32, 64),
            plan.destination.bytes@,
            plan.amount_lamports,
            blockhash@,
        ) && is_signed_transfer(
            tx,
            plan.source_keypair@,
            plan.destination.bytes@,
            plan.amount_lamports,
            blockhash@,
        ),
        spec_u64_from_le_bytes(tx.message@.subrange(tx.message@.len() - 8, tx.message@.len() as int))
            == plan.amount_lamports,
        i > 0,
        turns[i - 1].event matches SessionEvent::Answer(Event::Balance(Ok(balance))) && balance
            >= plan.amount_lamports + 5000,
{
    run_follows_the_session(s, turns, plan.source_keypair@);
    assert(turn_follows(s, turns[i], plan.source_keypair@));
    assert(sends(turns[i]));
    let blockhash = turns[i].event->Answer_0->Blockhash_0->Ok_0;
    signed_transfer_pays(
        tx,
        plan.source_keypair@,
        plan.destination.bytes@,
        plan.amount_lamports,
        blockhash@,
    );
}

} // verus!
