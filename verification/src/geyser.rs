//! The tool that sends a transfer for each slot that a Geyser stream reports.

use crate::keypair::Keypair;
use crate::pubkey::address_in;
use crate::pubkey::address_text;
use crate::pubkey::pubkey_to_string;
use crate::pubkey::ParsePubkeyError;
use crate::retry::Retry;
use crate::session::is_balance_request;
use crate::session::job_of;
use crate::session::Session;
use crate::session::SessionAction;
use crate::text::decimal;
use crate::text::decimal_text;
use crate::text::has_label;
use crate::text::label;
use crate::text::label_of;
use crate::text::label_of_ascii;
use crate::transfer::planned;
use crate::transfer::Plan;
use crate::transfer::Signing;
use crate::transfer::Stage;
use crate::transfer::TransferConfig;
use crate::transfer::TransferError;
use vstd::prelude::*;
use vstd::string::StringExecFns;
use vstd::utf8::encode_utf8;

verus! {

/// Seconds to wait before a lost connection is set up again.
pub const RECONNECT_SECS: u64 = 5;

/// The configuration of the tool.
#[derive(Debug)]
pub struct Config {
    pub rpc_url: String,
    pub geyser_endpoint: String,
    pub api_key: String,
    pub transfer: TransferConfig,
    pub retry: RetryConfig,
}

/// How often a transfer is tried, and how long to wait in between.
#[derive(Clone, Copy, Debug)]
pub struct RetryConfig {
    pub max_attempts: u32,
    pub delay_ms: u64,
}

/// What the tool has seen and done.
#[derive(Clone, Copy, Debug, PartialEq, Eq, Structural)]
pub struct Stats {
    pub slots_received: u64,
    pub transfers_successful: u64,
    pub transfers_failed: u64,
    pub last_slot: u64,
}

/// The tool, ready to run.
pub struct App {
    pub config: Config,
    pub plan: Plan,
    pub stats: Stats,
}

/// How settled a slot is.
#[derive(Clone, Copy, Debug, PartialEq, Eq, Structural)]
pub enum CommitmentLevel {
    Processed,
    Confirmed,
    Finalized,
}

/// A message of the stream.
#[derive(Clone, Copy, Debug, PartialEq, Eq, Structural)]
pub enum Update {
    Slot { slot: u64, status: CommitmentLevel },
    Other,
}

/// A named filter for slots, with the commitment levels to report.
#[derive(Debug)]
pub struct SlotFilter {
    pub name: String,
    pub filter_by_commitment: Vec<String>,
}

/// What happened to the connection.
#[derive(Clone, Copy, Debug, PartialEq, Eq, Structural)]
pub enum MonitorEvent {
    /// The monitor begins.
    Started,
    /// The pause is over.
    Paused,
    Connected,
    ConnectFailed,
    SubscriptionEnded,
    SubscriptionFailed,
}

/// What to do about the connection.
#[derive(Clone, Copy, Debug, PartialEq, Eq, Structural)]
pub enum MonitorAction {
    Connect,
    Subscribe,
    Pause { secs: u64 },
}

/// What happened while a connection is set up.
#[derive(Debug)]
pub enum ConnectEvent {
    /// The connection is to be set up.
    Started,
    /// The endpoint could not be reached, for this reason.
    Refused(String),
    /// The connection stands.
    Connected,
}

/// What to do to set a connection up.
#[derive(Debug)]
pub enum ConnectAction {
    /// Connect to the endpoint.
    Dial,
    /// Use the connection; each request carries this value for the API key.
    Ready(Vec<u8>),
    /// Give up, for this reason.
    Fail(String),
}

/// The counters at the start.
pub open spec fn no_stats() -> Stats {
    Stats { slots_received: 0, transfers_successful: 0, transfers_failed: 0, last_slot: 0 }
}

impl Default for Stats {
    fn default() -> (r: Stats)
        ensures
            r == no_stats(),
            r.slots_received == 0,
            r.transfers_successful == 0,
            r.transfers_failed == 0,
            r.last_slot == 0,
    {
        Stats { slots_received: 0, transfers_successful: 0, transfers_failed: 0, last_slot: 0 }
    }
}

impl App {
    /// Sets the tool up, from its configuration and the key that was read or the failure to read
    /// it.
    pub fn new(config: Config, keypair: Result<Keypair, String>) -> (r: Result<App, String>)
        ensures
            planned(
                keypair,
                address_in(config.transfer.destination@),
                config.transfer.amount_lamports,
                "Failed to read keypair: "@,
                "Invalid destination: "@,
                match r {
                    Ok(app) => Ok(app.plan),
                    Err(e) => Err(e),
                },
            ),
            r is Ok ==> r->Ok_0.config == config && r->Ok_0.stats == no_stats(),
            keypair matches Err(e) ==> r is Err && r->Err_0@ == "Failed to read keypair: "@ + e@,
            keypair is Ok && address_in(config.transfer.destination@) == Err::<Seq<u8>, ParsePubkeyError>(
                ParsePubkeyError::WrongSize,
            ) ==> r is Err && r->Err_0@ == "Invalid destination: "@ + "String is the wrong size"@,
            keypair is Ok && address_in(config.transfer.destination@) == Err::<Seq<u8>, ParsePubkeyError>(
                ParsePubkeyError::Invalid,
            ) ==> r is Err && r->Err_0@ == "Invalid destination: "@ + "Invalid Base58 string"@,
            keypair is Ok && address_in(config.transfer.destination@) is Ok ==> {
                &&& r is Ok
                &&& r->Ok_0.plan.source_keypair == keypair->Ok_0
                &&& r->Ok_0.plan.destination.bytes@ == address_in(config.transfer.destination@)->Ok_0
                &&& r->Ok_0.plan.amount_lamports == config.transfer.amount_lamports
            },
    {
        match Plan::new(&config.transfer, keypair, "Failed to read keypair: ", "Invalid destination: ") {
            Ok(plan) => Ok(App { config, plan, stats: Stats::default() }),
            Err(e) => Err(e),
        }
    }

    /// Starts the transfer for a slot, with the attempts that the configuration allows.
    pub fn start_transfer(&self) -> (r: (Session, SessionAction))
        requires
            self.config.retry.max_attempts > 0,
        ensures
            r.0.retry == (Retry { attempt: 0, last: (self.config.retry.max_attempts - 1) as u32 }),
            r.0.delay_ms == self.config.retry.delay_ms,
            r.0.job == job_of(self.plan),
            !r.0.waiting,
            r.0.well_formed(),
            is_balance_request(r.1, self.plan),
            r.0.job.amount == self.plan.amount_lamports,
            r.0.job.destination == self.plan.destination,
            r.0.job.signing == Signing::WithPayer,
            r.0.job.stage == Stage::Balance,
            r.1 is Ask && r.1->Ask_0 is GetBalance,
            r.1->Ask_0->GetBalance_0.bytes@ == self.plan.source_keypair@.subrange(32, 64),
    {
        Session::start(&self.plan, Retry::attempts(self.config.retry.max_attempts), self.config.retry.delay_ms)
    }
}

/// The slot that an update hands on: that of a slot that is confirmed or finalized.
pub open spec fn handed_on(update: Update) -> Option<u64> {
    match update {
        Update::Slot { slot, status } => if status == CommitmentLevel::Processed {
            None
        } else {
            Some(slot)
        },
        Update::Other => None,
    }
}

/// The counters after an update.
pub open spec fn counted(stats: Stats, update: Update) -> Stats {
    match update {
        Update::Slot { slot, status } => Stats {
            slots_received: (stats.slots_received + 1) as u64,
            last_slot: slot,
            ..stats
        },
        Update::Other => stats,
    }
}

/// The counters after a transfer.
pub open spec fn recorded(stats: Stats, successful: bool) -> Stats {
    if successful {
        Stats { transfers_successful: (stats.transfers_successful + 1) as u64, ..stats }
    } else {
        Stats { transfers_failed: (stats.transfers_failed + 1) as u64, ..stats }
    }
}

impl Stats {
    /// Counts an update of the stream, and hands on its slot where a transfer is due.
    pub fn on_update(&mut self, update: Update) -> (r: Option<u64>)
        requires
            update is Slot ==> old(self).slots_received < u64::MAX,
        ensures
            r == handed_on(update),
            *final(self) == counted(*old(self), update),
            update matches Update::Slot { slot, status } ==> {
                &&& final(self).slots_received == old(self).slots_received + 1
                &&& final(self).last_slot == slot
                &&& r == (if status == CommitmentLevel::Confirmed || status == CommitmentLevel::Finalized {
                    Some(slot)
                } else {
                    None
                })
            },
            update is Other ==> *final(self) == *old(self) && r is None,
            final(self).transfers_successful == old(self).transfers_successful,
            final(self).transfers_failed == old(self).transfers_failed,
    {
        match update {
            Update::Slot { slot, status } => {
                self.slots_received = self.slots_received + 1;
                self.last_slot = slot;
                match status {
                    CommitmentLevel::Confirmed | CommitmentLevel::Finalized => Some(slot),
                    _ => None,
                }
            },
            Update::Other => None,
        }
    }

    /// Counts a transfer by its result.
    pub fn record<T, E>(&mut self, result: &Result<T, E>)
        requires
            result is Ok ==> old(self).transfers_successful < u64::MAX,
            result is Err ==> old(self).transfers_failed < u64::MAX,
        ensures
            *final(self) == recorded(*old(self), *result is Ok),
            result is Ok ==> {
                &&& final(self).transfers_successful == old(self).transfers_successful + 1
                &&& final(self).transfers_failed == old(self).transfers_failed
            },
            result is Err ==> {
                &&& final(self).transfers_successful == old(self).transfers_successful
                &&& final(self).transfers_failed == old(self).transfers_failed + 1
            },
            final(self).slots_received == old(self).slots_received,
            final(self).last_slot == old(self).last_slot,
    {
        match result {
            Ok(_) => {
                self.transfers_successful = self.transfers_successful + 1;
            },
            Err(_) => {
                self.transfers_failed = self.transfers_failed + 1;
            },
        }
    }

    /// All transfers, successful or not.
    pub fn total_transfers(&self) -> (r: u64)
        requires
            self.transfers_successful + self.transfers_failed <= u64::MAX,
        ensures
            r == self.transfers_successful + self.transfers_failed,
    {
        self.transfers_successful + self.transfers_failed
    }
}

/// The line of the counters, with the success rate in percent as it was written out.
pub open spec fn report(stats: Stats, rate: Seq<char>) -> Seq<char> {
    "📊 Stats - Slots: "@ + decimal(stats.slots_received as nat) + " | Transfers: "@ + decimal(
        stats.transfers_successful as nat,
    ) + "✅/"@ + decimal(stats.transfers_failed as nat) + "❌ | Success: "@ + rate + "% | Last slot: "@ + decimal(
        stats.last_slot as nat,
    )
}

impl Stats {
    /// Writes the line of the counters; `rate` is the success rate in percent, written out.
    pub fn report_text(&self, rate: &str) -> (r: String)
        ensures
            r@ == report(*self, rate@),
            r@ == "📊 Stats - Slots: "@ + decimal(self.slots_received as nat) + " | Transfers: "@ + decimal(
                self.transfers_successful as nat,
            ) + "✅/"@ + decimal(self.transfers_failed as nat) + "❌ | Success: "@ + rate@ + "% | Last slot: "@
                + decimal(self.last_slot as nat),
    {
        String::from_str("📊 Stats - Slots: ").concat(decimal_text(self.slots_received).as_str()).concat(
            " | Transfers: ",
        ).concat(decimal_text(self.transfers_successful).as_str()).concat("✅/").concat(
            decimal_text(self.transfers_failed).as_str(),
        ).concat("❌ | Success: ").concat(rate).concat("% | Last slot: ").concat(
            decimal_text(self.last_slot).as_str(),
        )
    }
}

/// The line of the transfer for a slot, with the amount in SOL and the destination as they were
/// written out.
pub open spec fn outcome(slot: u64, sol: Seq<char>, destination: Seq<char>, result: Result<String, TransferError>) -> Seq<char> {
    match result {
        Ok(signature) => "✅ Transfer sent for slot "@ + decimal(slot as nat) + ": "@ + sol + " SOL → "@ + label(
            destination,
        ) + " | Signature: "@ + signature@,
        Err(e) => "❌ Transfer failed for slot "@ + decimal(slot as nat) + ": "@ + error_text_spec(e),
    }
}

/// Writes the line of the transfer for a slot; `sol` is the amount in SOL, written out, and
/// `destination` the text of the address.
pub fn outcome_text(slot: u64, sol: &str, destination: &str, result: &Result<String, TransferError>) -> (r: String)
    requires
        result is Ok ==> has_label(destination@),
    ensures
        r@ == outcome(slot, sol@, destination@, *result),
        *result matches Ok(signature) ==> r@ == "✅ Transfer sent for slot "@ + decimal(slot as nat) + ": "@ + sol@
            + " SOL → "@ + label(destination@) + " | Signature: "@ + signature@,
        *result matches Err(e) ==> r@ == "❌ Transfer failed for slot "@ + decimal(slot as nat) + ": "@
            + error_text_spec(e),
{
    match result {
        Ok(signature) => String::from_str("✅ Transfer sent for slot ").concat(
            decimal_text(slot).as_str(),
        ).concat(": ").concat(sol).concat(" SOL → ").concat(label_of(destination)).concat(" | Signature: ").concat(
            signature.as_str(),
        ),
        Err(e) => String::from_str("❌ Transfer failed for slot ").concat(decimal_text(slot).as_str()).concat(
            ": ",
        ).concat(error_text(e).as_str()),
    }
}

/// The line of an attempt that failed, of so many.
pub open spec fn retry_line(attempt: u32, limit: u32, error: TransferError) -> Seq<char> {
    "Transfer attempt "@ + decimal(attempt as nat) + "/"@ + decimal(limit as nat) + " failed: "@ + error_text_spec(
        error,
    )
}

impl App {
    /// Writes the line of the transfer for a slot; `sol` is the amount in SOL, written out.
    pub fn outcome_text(&self, slot: u64, sol: &str, result: &Result<String, TransferError>) -> (r: String)
        ensures
            r@ == outcome(slot, sol@, address_text(self.plan.destination@), *result),
            *result matches Ok(signature) ==> r@ == "✅ Transfer sent for slot "@ + decimal(slot as nat) + ": "@ + sol@
                + " SOL → "@ + label(address_text(self.plan.destination.bytes@)) + " | Signature: "@ + signature@,
            *result matches Err(e) ==> r@ == "❌ Transfer failed for slot "@ + decimal(slot as nat) + ": "@
                + error_text_spec(e),
    {
        let destination: String = pubkey_to_string(&self.plan.destination);
        proof {
            label_of_ascii(destination@);
        }
        outcome_text(slot, sol, destination.as_str(), result)
    }

    /// Writes the line of an attempt that failed, counted from one, when another one is due.
    pub fn retry_text(&self, attempt: u32, error: &TransferError) -> (r: String)
        ensures
            r@ == retry_line(attempt, self.config.retry.max_attempts, *error),
            r@ == "Transfer attempt "@ + decimal(attempt as nat) + "/"@ + decimal(
                self.config.retry.max_attempts as nat,
            ) + " failed: "@ + error_text_spec(*error),
    {
        String::from_str("Transfer attempt ").concat(decimal_text(attempt as u64).as_str()).concat("/").concat(
            decimal_text(self.config.retry.max_attempts as u64).as_str(),
        ).concat(" failed: ").concat(error_text(error).as_str())
    }
}

/// The filter to subscribe with: confirmed and finalized slots.
pub fn slot_filter() -> (r: SlotFilter)
    ensures
        r.name@ == "client"@,
        r.filter_by_commitment@.len() == 2,
        r.filter_by_commitment@[0]@ == "confirmed"@,
        r.filter_by_commitment@[1]@ == "finalized"@,
{
    let mut levels: Vec<String> = Vec::new();
    levels.push(String::from_str("confirmed"));
    levels.push(String::from_str("finalized"));
    SlotFilter { name: String::from_str("client"), filter_by_commitment: levels }
}

/// What to do after something happened to the connection: subscribe once it stands, pause when it
/// was lost or not had, and set it up at the start and after each pause.
pub fn monitor_step(event: MonitorEvent) -> (r: MonitorAction)
    ensures
        r == match event {
            MonitorEvent::Started | MonitorEvent::Paused => MonitorAction::Connect,
            MonitorEvent::Connected => MonitorAction::Subscribe,
            _ => MonitorAction::Pause { secs: RECONNECT_SECS },
        },
        r matches MonitorAction::Pause { secs } ==> secs == 5,
{
    match event {
        MonitorEvent::Started | MonitorEvent::Paused => MonitorAction::Connect,
        MonitorEvent::Connected => MonitorAction::Subscribe,
        _ => MonitorAction::Pause { secs: RECONNECT_SECS },
    }
}

/// Whether a byte may stand in a metadata value: a tab, or any from the space on but DEL.
pub open spec fn is_metadata_byte(b: u8) -> bool {
    b == 9 || (b >= 32 && b != 127)
}

/// Whether all bytes of a text may stand in a metadata value.
pub open spec fn is_metadata_text(text: Seq<char>) -> bool {
    forall|i: int| 0 <= i < encode_utf8(text).len() ==> is_metadata_byte(#[trigger] encode_utf8(text)[i])
}

/// Parses as `tonic::metadata::AsciiMetadataValue`: it takes exactly the texts whose
/// bytes may all stand in a metadata value, and keeps those bytes.
#[verifier::external_body]
fn parse_metadata_value(text: &str) -> (r: Option<Vec<u8>>)
    ensures
        match r {
            Some(value) => is_metadata_text(text@) && value@ == encode_utf8(text@),
            None => !is_metadata_text(text@),
        },
{
    match text.parse::<tonic::metadata::AsciiMetadataValue>() {
        Ok(value) => Some(value.as_bytes().to_vec()),
        Err(_) => None,
    }
}

/// The metadata value that each request carries for the API key, or why the key cannot be one.
pub fn api_key_value(api_key: &str) -> (r: Result<Vec<u8>, String>)
    ensures
        match r {
            Ok(value) => is_metadata_text(api_key@) && value@ == encode_utf8(api_key@),
            Err(e) => !is_metadata_text(api_key@) && e@ == "Invalid API key: failed to parse metadata value"@,
        },
        match r {
            Ok(value) => value@ == encode_utf8(api_key@) && forall|i: int|
                0 <= i < value@.len() ==> (#[trigger] value@[i]) == 9 || 32 <= value@[i] < 127 || 127 < value@[i],
            Err(e) => exists|i: int|
                0 <= i < encode_utf8(api_key@).len() && {
                    let b = #[trigger] encode_utf8(api_key@)[i];
                    b < 9 || 9 < b < 32 || b == 127
                },
        },
{
    match parse_metadata_value(api_key) {
        Some(value) => Ok(value),
        None => Err(String::from_str("Invalid API key: failed to parse metadata value")),
    }
}

/// The name under which a request carries the API key.
pub fn api_key_name() -> (r: &'static str)
    ensures
        r@ == "x-token"@,
{
    "x-token"
}

/// Whether `tonic::transport::Endpoint::from_shared` takes a text as an endpoint.
pub uninterp spec fn is_endpoint(text: Seq<char>) -> bool;

/// Calls `tonic::transport::Endpoint::from_shared`, which parses a URI and connects to nothing.
/// Whether it takes the text is a function of the text alone.
#[verifier::external_body]
fn endpoint_is_valid(text: &str) -> (r: bool)
    ensures
        r == is_endpoint(text@),
{
    tonic::transport::Endpoint::from_shared(text.to_string()).is_ok()
}

/// What an event leads to while a connection is set up, where `valid` says whether the endpoint
/// is one: a bad endpoint fails at once and is never dialled, then the connection counts, and the
/// API key is looked at once it stands.
pub open spec fn connecting(valid: bool, api_key: Seq<char>, event: ConnectEvent, r: ConnectAction) -> bool {
    match event {
        ConnectEvent::Started => if valid {
            r is Dial
        } else {
            r is Fail && r->Fail_0@ == "invalid URI"@
        },
        ConnectEvent::Refused(reason) => r == ConnectAction::Fail(reason),
        ConnectEvent::Connected => if is_metadata_text(api_key) {
            r is Ready && r->Ready_0@ == encode_utf8(api_key)
        } else {
            r is Fail && r->Fail_0@ == "Invalid API key: failed to parse metadata value"@
        },
    }
}

/// A step of setting a connection up, where `valid` says whether the endpoint is one.
pub fn connect_step_at(valid: bool, api_key: &str, event: ConnectEvent) -> (r: ConnectAction)
    ensures
        connecting(valid, api_key@, event, r),
        event is Started ==> match r {
            ConnectAction::Dial => valid,
            ConnectAction::Fail(e) => !valid && e@ == "invalid URI"@,
            ConnectAction::Ready(_) => false,
        },
        event matches ConnectEvent::Refused(reason) ==> r == ConnectAction::Fail(reason),
        event is Connected ==> match r {
            ConnectAction::Dial => false,
            ConnectAction::Ready(value) => is_metadata_text(api_key@) && value@ == encode_utf8(api_key@),
            ConnectAction::Fail(e) => !is_metadata_text(api_key@) && e@
                == "Invalid API key: failed to parse metadata value"@,
        },
{
    match event {
        ConnectEvent::Started => if valid {
            ConnectAction::Dial
        } else {
            ConnectAction::Fail(String::from_str("invalid URI"))
        },
        ConnectEvent::Refused(reason) => ConnectAction::Fail(reason),
        ConnectEvent::Connected => match api_key_value(api_key) {
            Ok(value) => ConnectAction::Ready(value),
            Err(e) => ConnectAction::Fail(e),
        },
    }
}

/// A step of setting a connection to an endpoint up.
pub fn connect_step(endpoint: &str, api_key: &str, event: ConnectEvent) -> (r: ConnectAction)
    ensures
        connecting(is_endpoint(endpoint@), api_key@, event, r),
        event is Started ==> match r {
            ConnectAction::Dial => is_endpoint(endpoint@),
            ConnectAction::Fail(e) => !is_endpoint(endpoint@) && e@ == "invalid URI"@,
            ConnectAction::Ready(_) => false,
        },
        event matches ConnectEvent::Refused(reason) ==> r == ConnectAction::Fail(reason),
        event is Connected ==> match r {
            ConnectAction::Dial => false,
            ConnectAction::Ready(value) => is_metadata_text(api_key@) && value@ == encode_utf8(api_key@),
            ConnectAction::Fail(e) => !is_metadata_text(api_key@) && e@
                == "Invalid API key: failed to parse metadata value"@,
        },
{
    let valid: bool = endpoint_is_valid(endpoint);
    connect_step_at(valid, api_key, event)
}

/// Only a valid endpoint is dialled, and only at the start; a connection is used only where it
/// stands and the API key can be sent, and then each request carries the key's bytes.
pub proof fn connection_is_checked(
    endpoint: Seq<char>,
    api_key: Seq<char>,
    event: ConnectEvent,
    action: ConnectAction,
)
    requires
        connecting(is_endpoint(endpoint), api_key, event, action),
    ensures
        action is Dial <==> event is Started && is_endpoint(endpoint),
        action is Ready <==> event is Connected && is_metadata_text(api_key),
        action matches ConnectAction::Ready(value) ==> value@ == encode_utf8(api_key),
{
}

/// The text of a failed transfer.
pub open spec fn error_text_spec(error: TransferError) -> Seq<char> {
    match error {
        TransferError::Balance(e) => "Failed to get balance: "@ + e@,
        TransferError::Insufficient { amount, needed, available } => "Insufficient balance: "@ + decimal(
            needed as nat,
        ) + " lamports needed, "@ + decimal(available as nat) + " available"@,
        TransferError::Blockhash(e) => "Failed to get blockhash: "@ + e@,
        TransferError::Transaction(e) => "Transaction failed: "@ + e@,
    }
}

/// The text of a failed transfer.
pub fn error_text(error: &TransferError) -> (r: String)
    ensures
        r@ == error_text_spec(*error),
        match *error {
            TransferError::Balance(e) => r@ == "Failed to get balance: "@ + e@,
            TransferError::Insufficient { amount, needed, available } => r@ == "Insufficient balance: "@ + decimal(
                needed as nat,
            ) + " lamports needed, "@ + decimal(available as nat) + " available"@,
            TransferError::Blockhash(e) => r@ == "Failed to get blockhash: "@ + e@,
            TransferError::Transaction(e) => r@ == "Transaction failed: "@ + e@,
        },
{
    match error {
        TransferError::Balance(e) => String::from_str("Failed to get balance: ").concat(e.as_str()),
        TransferError::Insufficient { amount: _, needed, available } => String::from_str(
            "Insufficient balance: ",
        ).concat(decimal_text(*needed).as_str()).concat(" lamports needed, ").concat(
            decimal_text(*available).as_str(),
        ).concat(" available"),
        TransferError::Blockhash(e) => String::from_str("Failed to get blockhash: ").concat(e.as_str()),
        TransferError::Transaction(e) => String::from_str("Transaction failed: ").concat(e.as_str()),
    }
}

/// The counters after a series of updates.
pub open spec fn counted_all(stats: Stats, updates: Seq<Update>) -> Stats
    decreases updates.len(),
{
    if updates.len() == 0 {
        stats
    } else {
        counted(counted_all(stats, updates.drop_last()), updates.last())
    }
}

/// The slots that a series of updates hands on, in their order.
pub open spec fn handed_on_all(updates: Seq<Update>) -> Seq<u64>
    decreases updates.len(),
{
    if updates.len() == 0 {
        Seq::empty()
    } else {
        match handed_on(updates.last()) {
            Some(slot) => handed_on_all(updates.drop_last()).push(slot),
            None => handed_on_all(updates.drop_last()),
        }
    }
}

/// How many of the updates report a slot.
pub open spec fn slot_updates(updates: Seq<Update>) -> nat {
    updates.filter(|u: Update| u is Slot).len()
}

/// Every reported slot is counted, settled or not; none is handed on that was not reported, and
/// the transfer counters stay as they are.
pub proof fn every_slot_is_counted(stats: Stats, updates: Seq<Update>)
    requires
        stats.slots_received + slot_updates(updates) <= u64::MAX,
    ensures
        counted_all(stats, updates).slots_received == stats.slots_received + slot_updates(updates),
        handed_on_all(updates).len() <= slot_updates(updates),
        counted_all(stats, updates).transfers_successful == stats.transfers_successful,
        counted_all(stats, updates).transfers_failed == stats.transfers_failed,
    decreases updates.len(),
{
    reveal(Seq::filter);
    if updates.len() > 0 {
        every_slot_is_counted(stats, updates.drop_last());
    }
}

/// The last slot on record is that of the last update that reports one.
pub proof fn last_slot_is_the_latest(stats: Stats, updates: Seq<Update>, rest: Seq<Update>, slot: u64, status: CommitmentLevel)
    requires
        forall|i: int| 0 <= i < rest.len() ==> (#[trigger] rest[i]) is Other,
    ensures
        counted_all(stats, updates.push(Update::Slot { slot, status }) + rest).last_slot == slot,
    decreases rest.len(),
{
    let all = updates.push(Update::Slot { slot, status });
    if rest.len() == 0 {
        assert(all + rest =~= all);
        assert(all.drop_last() =~= updates);
    } else {
        last_slot_is_the_latest(stats, updates, rest.drop_last(), slot, status);
        assert((all + rest).drop_last() =~= all + rest.drop_last());
        assert((all + rest).last() == rest[rest.len() - 1]);
    }
}

/// The counters together with the slots that wait for their transfer.
pub struct Pipeline {
    pub stats: Stats,
    pub waiting: Seq<u64>,
}

/// What happens to the pipeline: an update of the stream, or the result of the transfer for the
/// slot that has waited longest.
pub enum PipelineEvent {
    Update(Update),
    Transfer { successful: bool },
}

/// The pipeline after an event.
pub open spec fn pipeline_step(p: Pipeline, event: PipelineEvent) -> Pipeline {
    match event {
        PipelineEvent::Update(update) => Pipeline {
            stats: counted(p.stats, update),
            waiting: match handed_on(update) {
                Some(slot) => p.waiting.push(slot),
                None => p.waiting,
            },
        },
        PipelineEvent::Transfer { successful } => if p.waiting.len() > 0 {
            Pipeline { stats: recorded(p.stats, successful), waiting: p.waiting.drop_first() }
        } else {
            p
        },
    }
}

/// The pipeline after a series of events.
pub open spec fn pipeline_run(p: Pipeline, events: Seq<PipelineEvent>) -> Pipeline
    decreases events.len(),
{
    if events.len() == 0 {
        p
    } else {
        pipeline_step(pipeline_run(p, events.drop_last()), events.last())
    }
}

/// How many slots a series of events hands on.
pub open spec fn slots_handed_on(events: Seq<PipelineEvent>) -> nat
    decreases events.len(),
{
    if events.len() == 0 {
        0
    } else {
        slots_handed_on(events.drop_last()) + (match events.last() {
            PipelineEvent::Update(update) => if handed_on(update) is Some {
                1nat
            } else {
                0
            },
            PipelineEvent::Transfer { successful } => 0,
        })
    }
}

/// From the start on, every slot that was handed on has had its transfer, successful or failed, or
/// waits for it; no more are handed on than are received.
pub proof fn every_slot_is_answered(events: Seq<PipelineEvent>)
    requires
        events.len() <= u64::MAX,
    ensures
        ({
            let p = pipeline_run(Pipeline { stats: no_stats(), waiting: Seq::empty() }, events);
            &&& p.stats.transfers_successful + p.stats.transfers_failed + p.waiting.len() == slots_handed_on(
                events,
            )
            &&& slots_handed_on(events) <= p.stats.slots_received <= events.len()
        }),
    decreases events.len(),
{
    if events.len() > 0 {
        every_slot_is_answered(events.drop_last());
    }
}

/// Every slot that is reported is counted and put on record, whatever its status; it is handed on
/// exactly where it is confirmed or finalized. Any other message changes nothing and hands nothing
/// on.
pub proof fn settled_slots_are_handed_on(stats: Stats, slot: u64, status: CommitmentLevel)
    requires
        stats.slots_received < u64::MAX,
    ensures
        handed_on(Update::Slot { slot, status }) == Some(slot) <==> status == CommitmentLevel::Confirmed || status
            == CommitmentLevel::Finalized,
        handed_on(Update::Slot { slot, status }) is None <==> status == CommitmentLevel::Processed,
        counted(stats, Update::Slot { slot, status }).slots_received == stats.slots_received + 1,
        counted(stats, Update::Slot { slot, status }).last_slot == slot,
        counted(stats, Update::Slot { slot, status }).transfers_successful == stats.transfers_successful,
        counted(stats, Update::Slot { slot, status }).transfers_failed == stats.transfers_failed,
        handed_on(Update::Other) is None,
        counted(stats, Update::Other) == stats,
{
}

/// The slots that a series of updates hands on are those that were reported as confirmed or
/// finalized, all of them, in their order.
pub proof fn handed_on_are_the_settled_slots(updates: Seq<Update>)
    ensures
        handed_on_all(updates) == updates.filter(
            |u: Update|
                u is Slot && (u->status == CommitmentLevel::Confirmed || u->status == CommitmentLevel::Finalized),
        ).map_values(|u: Update| u->slot),
    decreases updates.len(),
{
    reveal(Seq::filter);
    let settled = |u: Update|
        u is Slot && (u->status == CommitmentLevel::Confirmed || u->status == CommitmentLevel::Finalized);
    let slot_of = |u: Update| u->slot;
    if updates.len() > 0 {
        handed_on_are_the_settled_slots(updates.drop_last());
        let before = updates.drop_last().filter(settled);
        if settled(updates.last()) {
            assert(before.push(updates.last()).map_values(slot_of) =~= before.map_values(slot_of).push(
                updates.last()->slot,
            ));
        }
        assert(handed_on_all(updates) =~= updates.filter(settled).map_values(slot_of));
    } else {
        assert(handed_on_all(updates) =~= updates.filter(settled).map_values(slot_of));
    }
}

/// A transfer adds one to the counter of its kind and leaves every other number.
pub proof fn transfer_counts_once(stats: Stats, successful: bool)
    requires
        stats.transfers_successful < u64::MAX,
        stats.transfers_failed < u64::MAX,
    ensures
        recorded(stats, successful).transfers_successful == stats.transfers_successful + (if successful {
            1int
        } else {
            0
        }),
        recorded(stats, successful).transfers_failed == stats.transfers_failed + (if successful {
            0int
        } else {
            1
        }),
        recorded(stats, successful).slots_received == stats.slots_received,
        recorded(stats, successful).last_slot == stats.last_slot,
{
}

/// A tool starts with nothing counted.
pub proof fn nothing_is_counted_at_the_start()
    ensures
        no_stats().slots_received == 0,
        no_stats().transfers_successful == 0,
        no_stats().transfers_failed == 0,
        no_stats().last_slot == 0,
{
}

/// A text can be a metadata value exactly where none of its bytes is a control character other than
/// the tab.
pub proof fn metadata_has_no_control_characters(text: Seq<char>)
    ensures
        is_metadata_text(text) <==> forall|i: int|
            0 <= i < encode_utf8(text).len() ==> (#[trigger] encode_utf8(text)[i]) == 9 || 32 <= encode_utf8(text)[i]
                < 127 || 127 < encode_utf8(text)[i],
{
    let bytes = encode_utf8(text);
    if is_metadata_text(text) {
        assert forall|i: int| 0 <= i < bytes.len() implies (#[trigger] bytes[i]) == 9 || 32 <= bytes[i] < 127 || 127
            < bytes[i] by {
            assert(is_metadata_byte(bytes[i]));
        }
    }
}

/// Each failure of a transfer has its own text, which tells the failure.
pub proof fn failure_is_told(error: TransferError)
    ensures
        error matches TransferError::Balance(e) ==> error_text_spec(error) == "Failed to get balance: "@ + e@,
        error matches TransferError::Insufficient { amount, needed, available } ==> error_text_spec(error)
            == "Insufficient balance: "@ + decimal(needed as nat) + " lamports needed, "@ + decimal(available as nat)
            + " available"@,
        error matches TransferError::Blockhash(e) ==> error_text_spec(error) == "Failed to get blockhash: "@ + e@,
        error matches TransferError::Transaction(e) ==> error_text_spec(error) == "Transaction failed: "@ + e@,
{
}

} // verus!
