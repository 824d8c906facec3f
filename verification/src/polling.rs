//! The tool that polls a node for its slot and sends a transfer for each new one.

use crate::keypair::Keypair;
use crate::pubkey::address_in;
use crate::pubkey::address_text;
use crate::pubkey::pubkey_to_string;
use crate::pubkey::ParsePubkeyError;
use crate::retry::Retry;
use crate::session::is_balance_request;
use crate::session::job_of;
use crate::session::Session;
use crate::session::SessionAction;
use crate::text::decimal;
use crate::text::decimal_text;
use crate::text::has_label;
use crate::text::label;
use crate::text::label_of;
use crate::text::label_of_ascii;
use crate::transfer::planned;
use crate::transfer::Plan;
use crate::transfer::Signing;
use crate::transfer::Stage;
use crate::transfer::TransferConfig;
use crate::transfer::TransferError;
use vstd::prelude::*;
use vstd::string::StringExecFns;

verus! {

/// Seconds to wait after the slot could not be had.
pub const SLOT_ERROR_SECS: u64 = 1;

/// The configuration of the tool.
#[derive(Debug)]
pub struct Config {
    pub rpc_url: String,
    pub transfer: TransferConfig,
    pub polling_interval_ms: u64,
    pub max_retries: u32,
    pub retry_delay_ms: u64,
}

/// What the tool has seen and done.
#[derive(Clone, Copy, Debug, PartialEq, Eq, Structural)]
pub struct Stats {
    pub slots_processed: u64,
    pub transfers_successful: u64,
    pub transfers_failed: u64,
    pub last_slot: u64,
}

/// The tool, ready to run.
pub struct App {
    pub config: Config,
    pub plan: Plan,
    pub stats: Stats,
}

/// What follows a reading of the slot.
#[derive(Clone, Copy, Debug, PartialEq, Eq, Structural)]
pub enum SlotAction {
    /// A transfer is due for this slot.
    HandOn(u64),
    /// Nothing is due.
    Nothing,
    /// The reading failed; wait before the next one.
    Pause { secs: u64 },
}

/// The counters at the start, from the slot that was read first.
pub open spec fn stats_from(slot: u64) -> Stats {
    Stats { slots_processed: 0, transfers_successful: 0, transfers_failed: 0, last_slot: slot }
}

/// The slot that a reading hands on: one beyond the last on record.
pub open spec fn handed_on(stats: Stats, reading: Result<u64, String>) -> Option<u64> {
    match reading {
        Ok(slot) => if slot > stats.last_slot {
            Some(slot)
        } else {
            None
        },
        Err(_) => None,
    }
}

/// The counters after a reading: a new slot is counted, and anything else changes nothing.
pub open spec fn observed(stats: Stats, reading: Result<u64, String>) -> Stats {
    match handed_on(stats, reading) {
        Some(slot) => Stats { slots_processed: (stats.slots_processed + 1) as u64, last_slot: slot, ..stats },
        None => stats,
    }
}

/// The counters after a transfer.
pub open spec fn recorded(stats: Stats, successful: bool) -> Stats {
    if successful {
        Stats { transfers_successful: (stats.transfers_successful + 1) as u64, ..stats }
    } else {
        Stats { transfers_failed: (stats.transfers_failed + 1) as u64, ..stats }
    }
}

/// Checks the configuration and the key of the tool, before the first slot is asked for.
pub fn prepare(config: &Config, keypair: Result<Keypair, String>) -> (r: Result<Plan, String>)
    ensures
        planned(
            keypair,
            address_in(config.transfer.destination@),
            config.transfer.amount_lamports,
            "Failed to read source keypair: "@,
            "Failed to get initial slot: "@,
            r,
        ),
        keypair matches Err(e) ==> r is Err && r->Err_0@ == "Failed to read source keypair: "@ + e@,
        keypair is Ok && address_in(config.transfer.destination@) == Err::<Seq<u8>, ParsePubkeyError>(
            ParsePubkeyError::WrongSize,
        ) ==> r is Err && r->Err_0@ == "Failed to get initial slot: "@ + "String is the wrong size"@,
        keypair is Ok && address_in(config.transfer.destination@) == Err::<Seq<u8>, ParsePubkeyError>(
            ParsePubkeyError::Invalid,
        ) ==> r is Err && r->Err_0@ == "Failed to get initial slot: "@ + "Invalid Base58 string"@,
        keypair is Ok && address_in(config.transfer.destination@) is Ok ==> {
            &&& r is Ok
            &&& r->Ok_0.source_keypair == keypair->Ok_0
            &&& r->Ok_0.destination.bytes@ == address_in(config.transfer.destination@)->Ok_0
            &&& r->Ok_0.amount_lamports == config.transfer.amount_lamports
        },
{
    Plan::new(&config.transfer, keypair, "Failed to read source keypair: ", "Failed to get initial slot: ")
}

impl App {
    /// Sets the tool up from a checked plan and the first reading of the slot.
    pub fn new(config: Config, plan: Plan, initial_slot: Result<u64, String>) -> (r: Result<App, String>)
        ensures
            match initial_slot {
                Ok(slot) => r == Ok::<App, String>(App { config, plan, stats: stats_from(slot) }),
                Err(_) => r is Err && r->Err_0@ == "Failed to get initial slot"@,
            },
            initial_slot matches Ok(slot) ==> {
                &&& r is Ok
                &&& r->Ok_0.config == config
                &&& r->Ok_0.plan == plan
                &&& r->Ok_0.stats.last_slot == slot
                &&& r->Ok_0.stats.slots_processed == 0
                &&& r->Ok_0.stats.transfers_successful == 0
                &&& r->Ok_0.stats.transfers_failed == 0
            },
    {
        match initial_slot {
            Ok(slot) => Ok(App { config, plan, stats: Stats::starting_at(slot) }),
            Err(_) => Err(String::from_str("Failed to get initial slot")),
        }
    }

    /// Starts the transfer for a slot, with the retries that the configuration allows.
    pub fn start_transfer(&self) -> (r: (Session, SessionAction))
        ensures
            r.0.retry == (Retry { attempt: 0, last: self.config.max_retries }),
            r.0.delay_ms == self.config.retry_delay_ms,
            r.0.job == job_of(self.plan),
            !r.0.waiting,
            r.0.well_formed(),
            is_balance_request(r.1, self.plan),
            r.0.job.amount == self.plan.amount_lamports,
            r.0.job.destination == self.plan.destination,
            r.0.job.signing == Signing::WithPayer,
            r.0.job.stage == Stage::Balance,
            r.1 is Ask && r.1->Ask_0 is GetBalance,
            r.1->Ask_0->GetBalance_0.bytes@ == self.plan.source_keypair@.subrange(32, 64),
    {
        Session::start(&self.plan, Retry::retries(self.config.max_retries), self.config.retry_delay_ms)
    }
}

impl Stats {
    /// No more slots are counted than lie below the last one.
    pub open spec fn well_formed(self) -> bool {
        self.slots_processed <= self.last_slot
    }

    /// Empty counters, with the slot that was read first on record.
    pub fn starting_at(slot: u64) -> (r: Stats)
        ensures
            r == stats_from(slot),
            r.well_formed(),
            r.last_slot == slot,
            r.slots_processed == 0,
            r.transfers_successful == 0,
            r.transfers_failed == 0,
    {
        Stats { slots_processed: 0, transfers_successful: 0, transfers_failed: 0, last_slot: slot }
    }

    /// Takes a reading of the slot, and hands it on where it is new.
    pub fn on_slot(&mut self, reading: Result<u64, String>) -> (r: SlotAction)
        requires
            old(self).well_formed(),
        ensures
            *final(self) == observed(*old(self), reading),
            r == match (reading, handed_on(*old(self), reading)) {
                (Err(_), _) => SlotAction::Pause { secs: SLOT_ERROR_SECS },
                (Ok(_), Some(slot)) => SlotAction::HandOn(slot),
                (Ok(_), None) => SlotAction::Nothing,
            },
            reading matches Ok(slot) ==> {
                &&& slot > old(self).last_slot <==> r == SlotAction::HandOn(slot)
                &&& slot > old(self).last_slot ==> {
                    &&& final(self).last_slot == slot
                    &&& final(self).slots_processed == old(self).slots_processed + 1
                }
                &&& slot <= old(self).last_slot ==> r == SlotAction::Nothing && *final(self) == *old(self)
            },
            reading is Err ==> r == (SlotAction::Pause { secs: 1 }) && *final(self) == *old(self),
            final(self).transfers_successful == old(self).transfers_successful,
            final(self).transfers_failed == old(self).transfers_failed,
            final(self).well_formed(),
    {
        match reading {
            Ok(slot) => if slot > self.last_slot {
                self.last_slot = slot;
                self.slots_processed = self.slots_processed + 1;
                SlotAction::HandOn(slot)
            } else {
                SlotAction::Nothing
            },
            Err(_) => SlotAction::Pause { secs: SLOT_ERROR_SECS },
        }
    }

    /// Counts a transfer by its result.
    pub fn record<T, E>(&mut self, result: &Result<T, E>)
        requires
            result is Ok ==> old(self).transfers_successful < u64::MAX,
            result is Err ==> old(self).transfers_failed < u64::MAX,
        ensures
            *final(self) == recorded(*old(self), *result is Ok),
            result is Ok ==> {
                &&& final(self).transfers_successful == old(self).transfers_successful + 1
                &&& final(self).transfers_failed == old(self).transfers_failed
            },
            result is Err ==> {
                &&& final(self).transfers_successful == old(self).transfers_successful
                &&& final(self).transfers_failed == old(self).transfers_failed + 1
            },
            final(self).slots_processed == old(self).slots_processed,
            final(self).last_slot == old(self).last_slot,
            final(self).well_formed() == old(self).well_formed(),
    {
        match result {
            Ok(_) => {
                self.transfers_successful = self.transfers_successful + 1;
            },
            Err(_) => {
                self.transfers_failed = self.transfers_failed + 1;
            },
        }
    }

    /// All transfers, successful or not.
    pub fn total_transfers(&self) -> (r: u64)
        requires
            self.transfers_successful + self.transfers_failed <= u64::MAX,
        ensures
            r == self.transfers_successful + self.transfers_failed,
    {
        self.transfers_successful + self.transfers_failed
    }
}

/// The line of the counters, with the success rate in percent as it was written out.
pub open spec fn report(stats: Stats, rate: Seq<char>) -> Seq<char> {
    "\nStats: "@ + decimal(stats.slots_processed as nat) + " slots | "@ + decimal(
        stats.transfers_successful as nat,
    ) + " success | "@ + decimal(stats.transfers_failed as nat) + " failed | "@ + rate + "% success rate\n"@
}

impl Stats {
    /// Writes the line of the counters; `rate` is the success rate in percent, written out.
    pub fn report_text(&self, rate: &str) -> (r: String)
        ensures
            r@ == report(*self, rate@),
            r@ == "\nStats: "@ + decimal(self.slots_processed as nat) + " slots | "@ + decimal(
                self.transfers_successful as nat,
            ) + " success | "@ + decimal(self.transfers_failed as nat) + " failed | "@ + rate@
                + "% success rate\n"@,
    {
        String::from_str("\nStats: ").concat(decimal_text(self.slots_processed).as_str()).concat(
            " slots | ",
        ).concat(decimal_text(self.transfers_successful).as_str()).concat(" success | ").concat(
            decimal_text(self.transfers_failed).as_str(),
        ).concat(" failed | ").concat(rate).concat("% success rate\n")
    }
}

/// The line of the transfer for a slot, with the amount in SOL and the destination as they were
/// written out.
pub open spec fn outcome(slot: u64, sol: Seq<char>, destination: Seq<char>, result: Result<String, TransferError>) -> Seq<char> {
    match result {
        Ok(signature) => "Slot "@ + decimal(slot as nat) + ": "@ + sol + " SOL → "@ + label(destination) + " | "@
            + signature@,
        Err(e) => "Slot "@ + decimal(slot as nat) + ": Transfer failed: "@ + error_text_spec(e),
    }
}

/// Writes the line of the transfer for a slot; `sol` is the amount in SOL, written out, and
/// `destination` the text of the address.
pub fn outcome_text(slot: u64, sol: &str, destination: &str, result: &Result<String, TransferError>) -> (r: String)
    requires
        result is Ok ==> has_label(destination@),
    ensures
        r@ == outcome(slot, sol@, destination@, *result),
        *result matches Ok(signature) ==> r@ == "Slot "@ + decimal(slot as nat) + ": "@ + sol@ + " SOL → "@ + label(
            destination@,
        ) + " | "@ + signature@,
        *result matches Err(e) ==> r@ == "Slot "@ + decimal(slot as nat) + ": Transfer failed: "@ + error_text_spec(e),
{
    match result {
        Ok(signature) => String::from_str("Slot ").concat(decimal_text(slot).as_str()).concat(": ").concat(
            sol,
        ).concat(" SOL → ").concat(label_of(destination)).concat(" | ").concat(signature.as_str()),
        Err(e) => String::from_str("Slot ").concat(decimal_text(slot).as_str()).concat(": Transfer failed: ").concat(
            error_text(e).as_str(),
        ),
    }
}

/// The line of an attempt that failed, of a first one and so many retries.
pub open spec fn retry_line(slot: u64, attempt: u32, max_retries: u32, error: TransferError) -> Seq<char> {
    "Retry "@ + decimal(attempt as nat) + "/"@ + decimal((max_retries + 1) as nat) + " for slot "@ + decimal(
        slot as nat,
    ) + ": "@ + error_text_spec(error)
}

impl App {
    /// Writes the line of the transfer for a slot; `sol` is the amount in SOL, written out.
    pub fn outcome_text(&self, slot: u64, sol: &str, result: &Result<String, TransferError>) -> (r: String)
        ensures
            r@ == outcome(slot, sol@, address_text(self.plan.destination@), *result),
            *result matches Ok(signature) ==> r@ == "Slot "@ + decimal(slot as nat) + ": "@ + sol@ + " SOL → "@ + label(
                address_text(self.plan.destination.bytes@),
            ) + " | "@ + signature@,
            *result matches Err(e) ==> r@ == "Slot "@ + decimal(slot as nat) + ": Transfer failed: "@ + error_text_spec(e),
    {
        let destination: String = pubkey_to_string(&self.plan.destination);
        proof {
            label_of_ascii(destination@);
        }
        outcome_text(slot, sol, destination.as_str(), result)
    }

    /// Writes the line of an attempt that failed, counted from one, when another one is due.
    pub fn retry_text(&self, slot: u64, attempt: u32, error: &TransferError) -> (r: String)
        ensures
            r@ == retry_line(slot, attempt, self.config.max_retries, *error),
            r@ == "Retry "@ + decimal(attempt as nat) + "/"@ + decimal((self.config.max_retries + 1) as nat)
                + " for slot "@ + decimal(slot as nat) + ": "@ + error_text_spec(*error),
    {
        String::from_str("Retry ").concat(decimal_text(attempt as u64).as_str()).concat("/").concat(
            decimal_text(self.config.max_retries as u64 + 1).as_str(),
        ).concat(" for slot ").concat(decimal_text(slot).as_str()).concat(": ").concat(error_text(error).as_str())
    }
}

/// The text of a failed transfer; it does not say what the node answered.
pub open spec fn error_text_spec(error: TransferError) -> Seq<char> {
    match error {
        TransferError::Balance(e) => "Failed to get balance"@,
        TransferError::Insufficient { amount, needed, available } => "Insufficient balance: "@ + decimal(
            available as nat,
        ),
        TransferError::Blockhash(e) => "Failed to get blockhash"@,
        TransferError::Transaction(e) => "Transaction failed"@,
    }
}

/// The text of a failed transfer.
pub fn error_text(error: &TransferError) -> (r: String)
    ensures
        r@ == error_text_spec(*error),
        match *error {
            TransferError::Balance(e) => r@ == "Failed to get balance"@,
            TransferError::Insufficient { amount, needed, available } => r@ == "Insufficient balance: "@ + decimal(
                available as nat,
            ),
            TransferError::Blockhash(e) => r@ == "Failed to get blockhash"@,
            TransferError::Transaction(e) => r@ == "Transaction failed"@,
        },
{
    match error {
        TransferError::Balance(_) => String::from_str("Failed to get balance"),
        TransferError::Insufficient { amount: _, needed: _, available } => String::from_str(
            "Insufficient balance: ",
        ).concat(decimal_text(*available).as_str()),
        TransferError::Blockhash(_) => String::from_str("Failed to get blockhash"),
        TransferError::Transaction(_) => String::from_str("Transaction failed"),
    }
}

/// The counters after a series of readings.
pub open spec fn observed_all(stats: Stats, readings: Seq<Result<u64, String>>) -> Stats
    decreases readings.len(),
{
    if readings.len() == 0 {
        stats
    } else {
        observed(observed_all(stats, readings.drop_last()), readings.last())
    }
}

/// The slots that a series of readings hands on, in their order.
pub open spec fn handed_on_all(stats: Stats, readings: Seq<Result<u64, String>>) -> Seq<u64>
    decreases readings.len(),
{
    if readings.len() == 0 {
        Seq::empty()
    } else {
        match handed_on(observed_all(stats, readings.drop_last()), readings.last()) {
            Some(slot) => handed_on_all(stats, readings.drop_last()).push(slot),
            None => handed_on_all(stats, readings.drop_last()),
        }
    }
}

/// The slots that are handed on rise strictly and lie beyond the first reading, so no slot gets
/// two transfers; the counter says how many there are, and the last on record is never below a
/// reading. A reading that failed hands on and changes nothing.
pub proof fn slots_rise(stats: Stats, readings: Seq<Result<u64, String>>)
    requires
        stats.well_formed(),
    ensures
        ({
            let out = handed_on_all(stats, readings);
            let end = observed_all(stats, readings);
            &&& forall|i: int, j: int| 0 <= i < j < out.len() ==> out[i] < out[j]
            &&& forall|i: int| 0 <= i < out.len() ==> stats.last_slot < #[trigger] out[i] <= end.last_slot
            &&& forall|i: int|
                0 <= i < readings.len() ==> ((#[trigger] readings[i]) matches Ok(slot) ==> slot <= end.last_slot)
            &&& stats.last_slot <= end.last_slot
            &&& end.last_slot == stats.last_slot || readings.contains(Ok(end.last_slot))
            &&& end.slots_processed == stats.slots_processed + out.len()
            &&& end.transfers_successful == stats.transfers_successful
            &&& end.transfers_failed == stats.transfers_failed
            &&& end.well_formed()
        }),
        readings.len() > 0 && readings.last() is Err ==> {
            &&& handed_on_all(stats, readings) == handed_on_all(stats, readings.drop_last())
            &&& observed_all(stats, readings) == observed_all(stats, readings.drop_last())
        },
    decreases readings.len(),
{
    if readings.len() > 0 {
        let init = readings.drop_last();
        slots_rise(stats, init);
        let end = observed_all(stats, readings);
        let mid = observed_all(stats, init);
        if handed_on(mid, readings.last()) is Some {
            assert(readings[readings.len() - 1] == Ok::<u64, String>(end.last_slot));
        } else if mid.last_slot != stats.last_slot {
            let k = choose|k: int| 0 <= k < init.len() && init[k] == Ok::<u64, String>(mid.last_slot);
            assert(readings[k] == Ok::<u64, String>(mid.last_slot));
        }
        assert forall|i: int| 0 <= i < readings.len() implies ((#[trigger] readings[i]) matches Ok(slot) ==> slot
            <= end.last_slot) by {
            if i < init.len() {
                assert(init[i] == readings[i]);
            }
        }
    }
}

/// The counters together with the slots that wait for their transfer.
pub struct Pipeline {
    pub stats: Stats,
    pub waiting: Seq<u64>,
}

/// What happens to the pipeline: a reading, had or failed, or the result of the transfer for the slot that has
/// waited longest.
pub enum PipelineEvent {
    Reading(Result<u64, String>),
    Transfer { successful: bool },
}

/// The pipeline after an event.
pub open spec fn pipeline_step(p: Pipeline, event: PipelineEvent) -> Pipeline {
    match event {
        PipelineEvent::Reading(reading) => Pipeline {
            stats: observed(p.stats, reading),
            waiting: match handed_on(p.stats, reading) {
                Some(slot) => p.waiting.push(slot),
                None => p.waiting,
            },
        },
        PipelineEvent::Transfer { successful } => if p.waiting.len() > 0 {
            Pipeline { stats: recorded(p.stats, successful), waiting: p.waiting.drop_first() }
        } else {
            p
        },
    }
}

/// The pipeline after a series of events.
pub open spec fn pipeline_run(p: Pipeline, events: Seq<PipelineEvent>) -> Pipeline
    decreases events.len(),
{
    if events.len() == 0 {
        p
    } else {
        pipeline_step(pipeline_run(p, events.drop_last()), events.last())
    }
}

/// From the start on, every slot that was processed has had its transfer, successful or failed,
/// or waits for it; in particular the transfer counters can always be incremented while a slot
/// waits, and can always be added up.
pub proof fn every_slot_is_answered(slot: u64, events: Seq<PipelineEvent>)
    ensures
        ({
            let p = pipeline_run(Pipeline { stats: stats_from(slot), waiting: Seq::empty() }, events);
            &&& p.stats.well_formed()
            &&& p.stats.transfers_successful + p.stats.transfers_failed + p.waiting.len()
                == p.stats.slots_processed
        }),
    decreases events.len(),
{
    if events.len() > 0 {
        every_slot_is_answered(slot, events.drop_last());
    }
}

/// Every reading beyond the last slot on record is handed on, counted and put on record; every other
/// reading, and every failure to read, hands nothing on and changes nothing.
pub proof fn new_slots_are_handed_on(stats: Stats, reading: Result<u64, String>)
    requires
        stats.slots_processed <= stats.last_slot,
    ensures
        reading matches Ok(slot) ==> {
            &&& slot > stats.last_slot <==> handed_on(stats, reading) == Some(slot)
            &&& slot > stats.last_slot ==> {
                &&& observed(stats, reading).last_slot == slot
                &&& observed(stats, reading).slots_processed == stats.slots_processed + 1
            }
            &&& slot <= stats.last_slot ==> handed_on(stats, reading) is None && observed(stats, reading) == stats
        },
        reading is Err ==> handed_on(stats, reading) is None && observed(stats, reading) == stats,
        observed(stats, reading).transfers_successful == stats.transfers_successful,
        observed(stats, reading).transfers_failed == stats.transfers_failed,
{
}

/// The slots that a series of readings hands on are exactly its records: those that lie beyond the
/// slot at the start and beyond every earlier reading. The slot on record changes only with a slot
/// that is handed on.
pub proof fn handed_on_are_the_records(stats: Stats, readings: Seq<Result<u64, String>>, slot: u64)
    requires
        stats.slots_processed <= stats.last_slot,
    ensures
        handed_on_all(stats, readings).contains(slot) <==> slot > stats.last_slot && exists|i: int|
            {
                &&& 0 <= i < readings.len()
                &&& #[trigger] readings[i] == Ok::<u64, String>(slot)
                &&& forall|j: int| 0 <= j < i ==> ((#[trigger] readings[j]) matches Ok(earlier) ==> earlier < slot)
            },
        ({
            let out = handed_on_all(stats, readings);
            let end = observed_all(stats, readings);
            end.last_slot == stats.last_slot && out.len() == 0 || out.len() > 0 && out.last() == end.last_slot
        }),
    decreases readings.len(),
{
    if readings.len() > 0 {
        let init = readings.drop_last();
        let last = readings.last();
        let n = readings.len() - 1;
        let mid = observed_all(stats, init);
        let before = handed_on_all(stats, init);
        let out = handed_on_all(stats, readings);
        handed_on_are_the_records(stats, init, slot);
        slots_rise(stats, init);
        assert(readings[n] == last);
        if before.contains(slot) {
            let k = choose|k: int| 0 <= k < before.len() && before[k] == slot;
            assert(out[k] == slot);
            let i = choose|i: int|
                {
                    &&& 0 <= i < init.len()
                    &&& #[trigger] init[i] == Ok::<u64, String>(slot)
                    &&& forall|j: int| 0 <= j < i ==> ((#[trigger] init[j]) matches Ok(earlier) ==> earlier < slot)
                };
            assert(readings[i] == init[i]);
            assert forall|j: int| 0 <= j < i implies ((#[trigger] readings[j]) matches Ok(earlier) ==> earlier < slot) by {
                assert(init[j] == readings[j]);
            }
        }
        if last == Ok::<u64, String>(slot) && slot > mid.last_slot {
            assert(out[out.len() - 1] == slot);
            assert forall|j: int| 0 <= j < n implies ((#[trigger] readings[j]) matches Ok(earlier) ==> earlier < slot) by {
                assert(init[j] == readings[j]);
            }
        }
        if out.contains(slot) {
            let k = choose|k: int| 0 <= k < out.len() && out[k] == slot;
            if k < before.len() {
                assert(before[k] == slot);
            }
        }
        if slot > stats.last_slot && exists|i: int|
            {
                &&& 0 <= i < readings.len()
                &&& #[trigger] readings[i] == Ok::<u64, String>(slot)
                &&& forall|j: int| 0 <= j < i ==> ((#[trigger] readings[j]) matches Ok(earlier) ==> earlier < slot)
            } {
            let i = choose|i: int|
                {
                    &&& 0 <= i < readings.len()
                    &&& #[trigger] readings[i] == Ok::<u64, String>(slot)
                    &&& forall|j: int| 0 <= j < i ==> ((#[trigger] readings[j]) matches Ok(earlier) ==> earlier < slot)
                };
            if i < n {
                assert(init[i] == Ok::<u64, String>(slot));
                assert forall|j: int| 0 <= j < i implies ((#[trigger] init[j]) matches Ok(earlier) ==> earlier < slot) by {
                    assert(init[j] == readings[j]);
                }
                assert(before.contains(slot));
            } else {
                if mid.last_slot != stats.last_slot {
                    let k = choose|k: int| 0 <= k < init.len() && init[k] == Ok::<u64, String>(mid.last_slot);
                    assert(readings[k] == init[k]);
                }
                assert(slot > mid.last_slot);
            }
        }
    }
}

/// A transfer adds one to the counter of its kind and leaves every other number.
pub proof fn transfer_counts_once(stats: Stats, successful: bool)
    requires
        stats.transfers_successful < u64::MAX,
        stats.transfers_failed < u64::MAX,
    ensures
        recorded(stats, successful).transfers_successful == stats.transfers_successful + (if successful {
            1int
        } else {
            0
        }),
        recorded(stats, successful).transfers_failed == stats.transfers_failed + (if successful {
            0int
        } else {
            1
        }),
        recorded(stats, successful).slots_processed == stats.slots_processed,
        recorded(stats, successful).last_slot == stats.last_slot,
{
}

/// A tool starts with nothing counted and the slot that was read first on record.
pub proof fn first_slot_is_on_record(slot: u64)
    ensures
        stats_from(slot).last_slot == slot,
        stats_from(slot).slots_processed == 0,
        stats_from(slot).transfers_successful == 0,
        stats_from(slot).transfers_failed == 0,
        stats_from(slot).well_formed(),
{
}

/// Counters are in order exactly while no more slots are counted than lie below the last one.
pub proof fn counters_in_order(stats: Stats)
    ensures
        stats.well_formed() <==> stats.slots_processed <= stats.last_slot,
{
}

/// Each failure of a transfer has its own text.
pub proof fn failure_is_told(error: TransferError)
    ensures
        error is Balance ==> error_text_spec(error) == "Failed to get balance"@,
        error matches TransferError::Insufficient { amount, needed, available } ==> error_text_spec(error)
            == "Insufficient balance: "@ + decimal(available as nat),
        error is Blockhash ==> error_text_spec(error) == "Failed to get blockhash"@,
        error is Transaction ==> error_text_spec(error) == "Transaction failed"@,
{
}

} // verus!
