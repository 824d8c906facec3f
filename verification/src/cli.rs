//! The tool that sends the same amount from each source wallet to its destination.

use crate::keypair::Keypair;
use crate::pubkey::address_in;
use crate::pubkey::address_text;
use crate::pubkey::pubkey_from_str;
use crate::pubkey::pubkey_to_string;
use crate::pubkey::ParsePubkeyError;
use crate::pubkey::Pubkey;
use crate::text::decimal;
use crate::text::decimal_text;
use crate::text::has_label;
use crate::text::label;
use crate::text::label_of;
use crate::text::label_of_ascii;
use crate::transfer::parsed_view;
use crate::transfer::Action;
use crate::transfer::Signing;
use crate::transfer::Stage;
use crate::transfer::TransferError;
use crate::transfer::TransferJob;
use vstd::prelude::*;
use vstd::string::StringExecFns;

verus! {

/// The longest duration, in nanoseconds: all seconds and nanoseconds that fit.
pub const MAX_DURATION_NANOS: u128 = 18_446_744_073_709_551_615_999_999_999;

/// The configuration of the tool.
#[derive(Debug)]
pub struct Config {
    pub rpc_url: String,
    pub wallets: Wallets,
}

/// The wallets to send from and the addresses to send to.
#[derive(Debug)]
pub struct Wallets {
    pub sources: Vec<WalletInfo>,
    pub destinations: Vec<DestinationInfo>,
}

/// A wallet, by the file of its key.
#[derive(Debug)]
pub struct WalletInfo {
    pub keypair: String,
}

/// A destination, by the text of its address.
#[derive(Debug)]
pub struct DestinationInfo {
    pub address: String,
}

/// One transfer to make.
#[derive(Debug)]
pub struct TransferTask {
    pub keypair: String,
    pub destination: Pubkey,
}

/// What became of a transfer.
#[derive(Debug)]
pub struct TransferResult {
    pub source: String,
    pub destination: String,
    pub signature: Result<String, String>,
    pub duration_nanos: u128,
}

/// What became of all transfers.
#[derive(Clone, Copy, Debug, PartialEq, Eq, Structural)]
pub struct Summary {
    pub successful: usize,
    pub failed: usize,
    pub total_nanos: u128,
}

/// The text of a bad destination.
pub open spec fn destination_failure(e: ParsePubkeyError) -> Seq<char> {
    "Invalid destination pubkey: "@ + e.text_spec()
}

/// The text of counts that do not agree.
pub open spec fn count_failure(sources: nat, destinations: nat) -> Seq<char> {
    "Sources count ("@ + decimal(sources) + ") != destinations count ("@ + decimal(destinations) + ")"@
}

/// What the destinations come to, where `parsed` says what each of them is: all addresses in their
/// order, or the text of the first failure.
pub open spec fn collected(
    parsed: Seq<Result<Seq<u8>, ParsePubkeyError>>,
    r: Result<Vec<Pubkey>, String>,
) -> bool {
    match r {
        Ok(keys) => {
            &&& keys@.len() == parsed.len()
            &&& forall|i: int|
                0 <= i < parsed.len() ==> #[trigger] parsed[i] == Ok::<Seq<u8>, ParsePubkeyError>(keys@[i]@)
        },
        Err(text) => exists|i: int|
            {
                &&& 0 <= i < parsed.len()
                &&& (#[trigger] parsed[i]) is Err
                &&& forall|j: int| 0 <= j < i ==> (#[trigger] parsed[j]) is Ok
                &&& text@ == destination_failure(parsed[i]->Err_0)
            },
    }
}

/// Whether each source is paired with the destination at its place.
pub open spec fn paired(sources: Seq<WalletInfo>, destinations: Seq<Seq<u8>>, tasks: Seq<TransferTask>) -> bool {
    &&& tasks.len() == sources.len() == destinations.len()
    &&& forall|i: int|
        0 <= i < tasks.len() ==> (#[trigger] tasks[i]).keypair@ == sources[i].keypair@ && tasks[i].destination@
            == destinations[i]
}

/// Turns the parsed destinations into addresses, or says what is wrong with the first bad one.
pub fn collect_destinations(parsed: &Vec<Result<Pubkey, ParsePubkeyError>>) -> (r: Result<Vec<Pubkey>, String>)
    ensures
        collected(parsed@.map_values(|p: Result<Pubkey, ParsePubkeyError>| parsed_view(p)), r),
        match r {
            Ok(keys) => {
                &&& keys@.len() == parsed@.len()
                &&& forall|i: int| 0 <= i < keys@.len() ==> parsed@[i] == Ok::<Pubkey, ParsePubkeyError>(#[trigger] keys@[i])
            },
            Err(text) => exists|i: int|
                {
                    &&& 0 <= i < parsed@.len()
                    &&& (#[trigger] parsed@[i]) is Err
                    &&& forall|j: int| 0 <= j < i ==> (#[trigger] parsed@[j]) is Ok
                    &&& text@ == "Invalid destination pubkey: "@ + (if parsed@[i]->Err_0 == ParsePubkeyError::WrongSize {
                        "String is the wrong size"@
                    } else {
                        "Invalid Base58 string"@
                    })
                },
        },
{
    let ghost views = parsed@.map_values(|p: Result<Pubkey, ParsePubkeyError>| parsed_view(p));
    let mut keys: Vec<Pubkey> = Vec::new();
    let mut i: usize = 0;
    while i < parsed.len()
        invariant
            i <= parsed@.len(),
            views == parsed@.map_values(|p: Result<Pubkey, ParsePubkeyError>| parsed_view(p)),
            keys@.len() == i,
            forall|j: int|
                0 <= j < i ==> #[trigger] views[j] == Ok::<Seq<u8>, ParsePubkeyError>(keys@[j]@),
            forall|j: int| 0 <= j < i ==> parsed@[j] == Ok::<Pubkey, ParsePubkeyError>(#[trigger] keys@[j]),
        decreases parsed@.len() - i,
    {
        match &parsed[i] {
            Ok(key) => {
                keys.push(*key);
            },
            Err(e) => {
                assert(views[i as int] is Err);
                assert forall|j: int| 0 <= j < i implies (#[trigger] parsed@[j]) is Ok by {
                    assert(parsed@[j] == Ok::<Pubkey, ParsePubkeyError>(keys@[j]));
                }
                assert(parsed@[i as int] is Err);
                return Err(String::from_str("Invalid destination pubkey: ").concat(e.text()));
            },
        }
        i += 1;
    }
    Ok(keys)
}

/// Reads the addresses of the destinations, or says what is wrong with the first bad one.
pub fn parse_destinations(destinations: &Vec<DestinationInfo>) -> (r: Result<Vec<Pubkey>, String>)
    ensures
        collected(destinations@.map_values(|d: DestinationInfo| address_in(d.address@)), r),
        match r {
            Ok(keys) => {
                &&& keys@.len() == destinations@.len()
                &&& forall|i: int| 0 <= i < keys@.len() ==> address_in(destinations@[i].address@) == Ok::<Seq<u8>, ParsePubkeyError>(
                (#[trigger] keys@[i]).bytes@,
            )
            },
            Err(text) => exists|i: int|
                {
                    &&& 0 <= i < destinations@.len()
                    &&& address_in((#[trigger] destinations@[i]).address@) is Err
                    &&& forall|j: int| 0 <= j < i ==> address_in((#[trigger] destinations@[j]).address@) is Ok
                    &&& text@ == "Invalid destination pubkey: "@ + (if address_in(destinations@[i].address@)->Err_0 == ParsePubkeyError::WrongSize {
                        "String is the wrong size"@
                    } else {
                        "Invalid Base58 string"@
                    })
                },
        },
{
    let mut parsed: Vec<Result<Pubkey, ParsePubkeyError>> = Vec::new();
    let mut i: usize = 0;
    while i < destinations.len()
        invariant
            i <= destinations@.len(),
            parsed@.len() == i,
            forall|j: int|
                0 <= j < i ==> parsed_view(#[trigger] parsed@[j]) == address_in(destinations@[j].address@),
        decreases destinations@.len() - i,
    {
        parsed.push(pubkey_from_str(destinations[i].address.as_str()));
        i += 1;
    }
    proof {
        assert(parsed@.map_values(|p: Result<Pubkey, ParsePubkeyError>| parsed_view(p))
            =~= destinations@.map_values(|d: DestinationInfo| address_in(d.address@)));
    }
    let r: Result<Vec<Pubkey>, String> = collect_destinations(&parsed);
    proof {
        if r is Ok {
            assert forall|i: int| 0 <= i < r->Ok_0@.len() implies address_in(destinations@[i].address@) == Ok::<
                Seq<u8>,
                ParsePubkeyError,
            >((#[trigger] r->Ok_0@[i]).bytes@) by {
                assert(parsed_view(parsed@[i]) == address_in(destinations@[i].address@));
            }
        } else {
            let i = choose|i: int|
                {
                    &&& 0 <= i < parsed@.len()
                    &&& (#[trigger] parsed@[i]) is Err
                    &&& forall|j: int| 0 <= j < i ==> (#[trigger] parsed@[j]) is Ok
                    &&& r->Err_0@ == "Invalid destination pubkey: "@ + (if parsed@[i]->Err_0
                        == ParsePubkeyError::WrongSize {
                        "String is the wrong size"@
                    } else {
                        "Invalid Base58 string"@
                    })
                };
            assert(parsed_view(parsed@[i]) == address_in(destinations@[i].address@));
            assert forall|j: int| 0 <= j < i implies address_in((#[trigger] destinations@[j]).address@) is Ok by {
                assert(parsed_view(parsed@[j]) == address_in(destinations@[j].address@));
            }
        }
    }
    r
}

/// Pairs the sources with the destinations, or says that their counts do not agree.
pub fn pair_wallets(sources: &Vec<WalletInfo>, destinations: &Vec<Pubkey>) -> (r: Result<Vec<TransferTask>, String>)
    ensures
        match r {
            Ok(tasks) => paired(sources@, destinations@.map_values(|k: Pubkey| k@), tasks@),
            Err(text) => sources@.len() != destinations@.len() && text@ == count_failure(
                sources@.len(),
                destinations@.len(),
            ),
        },
        r is Ok <==> sources@.len() == destinations@.len(),
        r matches Ok(tasks) ==> tasks@.len() == sources@.len() && forall|i: int|
            0 <= i < tasks@.len() ==> {
                &&& (#[trigger] tasks@[i]).keypair@ == sources@[i].keypair@
                &&& tasks@[i].destination.bytes@ == destinations@[i].bytes@
            },
        r matches Err(text) ==> text@ == "Sources count ("@ + decimal(sources@.len()) + ") != destinations count ("@
            + decimal(destinations@.len()) + ")"@,
{
    if sources.len() != destinations.len() {
        return Err(
            String::from_str("Sources count (").concat(decimal_text(sources.len() as u64).as_str()).concat(
                ") != destinations count (",
            ).concat(decimal_text(destinations.len() as u64).as_str()).concat(")"),
        );
    }
    let mut tasks: Vec<TransferTask> = Vec::new();
    let mut i: usize = 0;
    while i < sources.len()
        invariant
            i <= sources@.len(),
            sources@.len() == destinations@.len(),
            tasks@.len() == i,
            forall|j: int|
                0 <= j < i ==> (#[trigger] tasks@[j]).keypair@ == sources@[j].keypair@ && tasks@[j].destination@
                    == destinations@[j]@,
        decreases sources@.len() - i,
    {
        tasks.push(TransferTask { keypair: sources[i].keypair.clone(), destination: destinations[i] });
        i += 1;
    }
    Ok(tasks)
}

/// Makes the list of transfers, or says what is wrong with the wallets: a bad destination first,
/// then counts that do not agree.
pub fn plan_transfers(wallets: &Wallets) -> (r: Result<Vec<TransferTask>, String>)
    ensures
        ({
            let parsed = wallets.destinations@.map_values(|d: DestinationInfo| address_in(d.address@));
            if exists|i: int| 0 <= i < parsed.len() && (#[trigger] parsed[i]) is Err {
                r is Err && collected(parsed, Err(r->Err_0))
            } else if wallets.sources@.len() != wallets.destinations@.len() {
                r is Err && r->Err_0@ == count_failure(
                    wallets.sources@.len(),
                    wallets.destinations@.len(),
                )
            } else {
                r is Ok && paired(
                    wallets.sources@,
                    parsed.map_values(|p: Result<Seq<u8>, ParsePubkeyError>| p->Ok_0),
                    r->Ok_0@,
                )
            }
        }),
        r is Ok <==> {
            &&& wallets.sources@.len() == wallets.destinations@.len()
            &&& forall|i: int|
                0 <= i < wallets.destinations@.len() ==> address_in((#[trigger] wallets.destinations@[i]).address@) is Ok
        },
        r matches Ok(tasks) ==> tasks@.len() == wallets.sources@.len() && forall|i: int|
            0 <= i < tasks@.len() ==> {
                &&& (#[trigger] tasks@[i]).keypair@ == wallets.sources@[i].keypair@
                &&& address_in(wallets.destinations@[i].address@) == Ok::<Seq<u8>, ParsePubkeyError>(
                    tasks@[i].destination.bytes@,
                )
            },
        r is Err && (forall|i: int|
            0 <= i < wallets.destinations@.len() ==> address_in((#[trigger] wallets.destinations@[i]).address@) is Ok)
            ==> r->Err_0@ == "Sources count ("@ + decimal(wallets.sources@.len()) + ") != destinations count ("@
            + decimal(wallets.destinations@.len()) + ")"@,
        r is Err && !(forall|i: int|
            0 <= i < wallets.destinations@.len() ==> address_in((#[trigger] wallets.destinations@[i]).address@) is Ok)
            ==> exists|i: int|
            {
                &&& 0 <= i < wallets.destinations@.len()
                &&& address_in((#[trigger] wallets.destinations@[i]).address@) is Err
                &&& forall|j: int| 0 <= j < i ==> address_in((#[trigger] wallets.destinations@[j]).address@) is Ok
                &&& r->Err_0@ == "Invalid destination pubkey: "@ + (if address_in(
                    wallets.destinations@[i].address@,
                )->Err_0 == ParsePubkeyError::WrongSize {
                    "String is the wrong size"@
                } else {
                    "Invalid Base58 string"@
                })
            },
{
    let ghost parsed = wallets.destinations@.map_values(|d: DestinationInfo| address_in(d.address@));
    match parse_destinations(&wallets.destinations) {
        Err(e) => Err(e),
        Ok(destinations) => {
            let r: Result<Vec<TransferTask>, String> = pair_wallets(&wallets.sources, &destinations);
            proof {
                assert forall|i: int| 0 <= i < parsed.len() implies (#[trigger] parsed[i]) is Ok by {}
                assert forall|i: int| 0 <= i < wallets.destinations@.len() implies address_in(
                    (#[trigger] wallets.destinations@[i]).address@,
                ) is Ok by {
                    assert(parsed[i] is Ok);
                }
                assert(destinations@.map_values(|k: Pubkey| k@) =~= parsed.map_values(
                    |p: Result<Seq<u8>, ParsePubkeyError>| p->Ok_0,
                ));
            }
            r
        },
    }
}

/// The text of a failed transfer.
pub open spec fn error_text_spec(error: TransferError) -> Seq<char> {
    match error {
        TransferError::Balance(e) => "Failed to get balance: "@ + e@,
        TransferError::Insufficient { amount, needed, available } => "Insufficient balance: "@ + decimal(
            available as nat,
        ) + " lamports (need "@ + decimal(amount as nat) + " + fees)"@,
        TransferError::Blockhash(e) => "Failed to get blockhash: "@ + e@,
        TransferError::Transaction(e) => "Transaction failed: "@ + e@,
    }
}

/// The text of a failed transfer.
pub fn error_text(error: &TransferError) -> (r: String)
    ensures
        r@ == error_text_spec(*error),
        match *error {
            TransferError::Balance(e) => r@ == "Failed to get balance: "@ + e@,
            TransferError::Insufficient { amount, needed, available } => r@ == "Insufficient balance: "@ + decimal(
                available as nat,
            ) + " lamports (need "@ + decimal(amount as nat) + " + fees)"@,
            TransferError::Blockhash(e) => r@ == "Failed to get blockhash: "@ + e@,
            TransferError::Transaction(e) => r@ == "Transaction failed: "@ + e@,
        },
{
    match error {
        TransferError::Balance(e) => String::from_str("Failed to get balance: ").concat(e.as_str()),
        TransferError::Insufficient { amount, needed: _, available } => String::from_str(
            "Insufficient balance: ",
        ).concat(decimal_text(*available).as_str()).concat(" lamports (need ").concat(
            decimal_text(*amount).as_str(),
        ).concat(" + fees)"),
        TransferError::Blockhash(e) => String::from_str("Failed to get blockhash: ").concat(e.as_str()),
        TransferError::Transaction(e) => String::from_str("Transaction failed: ").concat(e.as_str()),
    }
}

/// Whether `r` says what became of a transfer between the accounts with these texts.
pub open spec fn reported(
    source: Seq<char>,
    destination: Seq<char>,
    outcome: Result<String, TransferError>,
    duration_nanos: u128,
    r: TransferResult,
) -> bool {
    &&& r.source@ == source
    &&& r.destination@ == destination
    &&& r.duration_nanos == duration_nanos
    &&& match outcome {
        Ok(signature) => r.signature == Ok::<String, String>(signature),
        Err(e) => r.signature is Err && r.signature->Err_0@ == error_text_spec(e),
    }
}

/// Says what became of a transfer.
pub fn report(
    source: String,
    destination: String,
    outcome: Result<String, TransferError>,
    duration_nanos: u128,
) -> (r: TransferResult)
    ensures
        reported(source@, destination@, outcome, duration_nanos, r),
        r.source@ == source@,
        r.destination@ == destination@,
        r.duration_nanos == duration_nanos,
        outcome matches Ok(signature) ==> r.signature == Ok::<String, String>(signature),
        outcome matches Err(e) ==> r.signature is Err && r.signature->Err_0@ == error_text_spec(e),
{
    let signature: Result<String, String> = match outcome {
        Ok(signature) => Ok(signature),
        Err(e) => Err(error_text(&e)),
    };
    TransferResult { source, destination, signature, duration_nanos }
}

impl TransferTask {
    /// Takes the key of the source, or the failure to read it: the transfer starts, or is over
    /// with the path of the key in place of an address.
    pub fn on_keypair(
        &self,
        keypair: Result<Keypair, String>,
        amount_lamports: u64,
        elapsed_nanos: u128,
    ) -> (r: Result<(Keypair, TransferJob, Action), TransferResult>)
        ensures
            match keypair {
                Ok(pair) => {
                    &&& r is Ok
                    &&& r->Ok_0.0 == pair
                    &&& r->Ok_0.1 == (TransferJob {
                        destination: self.destination,
                        amount: amount_lamports,
                        signing: Signing::Message,
                        stage: Stage::Balance,
                    })
                    &&& r->Ok_0.2 is GetBalance
                    &&& r->Ok_0.2->GetBalance_0@ == pair@.subrange(32, 64)
                },
                Err(e) => {
                    &&& r is Err
                    &&& r->Err_0.source@ == self.keypair@
                    &&& r->Err_0.destination@ == address_text(self.destination@)
                    &&& has_label(r->Err_0.destination@)
                    &&& r->Err_0.signature is Err
                    &&& r->Err_0.signature->Err_0@ == "Failed to read keypair: "@ + e@
                    &&& r->Err_0.duration_nanos == elapsed_nanos
                },
            },
    {
        match keypair {
            Ok(pair) => {
                let started: (TransferJob, Action) = TransferJob::start(
                    &pair,
                    self.destination,
                    amount_lamports,
                    Signing::Message,
                );
                Ok((pair, started.0, started.1))
            },
            Err(e) => {
                let destination: String = pubkey_to_string(&self.destination);
                proof {
                    label_of_ascii(destination@);
                }
                Err(
                    TransferResult {
                        source: self.keypair.clone(),
                        destination,
                        signature: Err(String::from_str("Failed to read keypair: ").concat(e.as_str())),
                        duration_nanos: elapsed_nanos,
                    },
                )
            },
        }
    }

    /// Takes the outcome of the transfer.
    pub fn on_finish(
        &self,
        keypair: &Keypair,
        outcome: Result<String, TransferError>,
        elapsed_nanos: u128,
    ) -> (r: TransferResult)
        ensures
            reported(
                address_text(keypair@.subrange(32, 64)),
                address_text(self.destination@),
                outcome,
                elapsed_nanos,
                r,
            ),
            has_label(r.source@),
            has_label(r.destination@),
            r.source@ == address_text(keypair@.subrange(32, 64)),
            r.destination@ == address_text(self.destination.bytes@),
            r.duration_nanos == elapsed_nanos,
            outcome matches Ok(signature) ==> r.signature == Ok::<String, String>(signature),
            outcome matches Err(e) ==> r.signature is Err && r.signature->Err_0@ == error_text_spec(e),
    {
        let key: Pubkey = keypair.pubkey();
        let source: String = pubkey_to_string(&key);
        let destination: String = pubkey_to_string(&self.destination);
        proof {
            label_of_ascii(source@);
            label_of_ascii(destination@);
        }
        report(source, destination, outcome, elapsed_nanos)
    }
}

/// The line of a transfer, with its duration in seconds as it was written out.
pub open spec fn line(result: TransferResult, secs: Seq<char>) -> Seq<char> {
    match result.signature {
        Ok(signature) => "✅ "@ + label(result.source@) + " → "@ + label(result.destination@) + " | "@ + signature@
            + " | "@ + secs + "s"@,
        Err(e) => "❌ "@ + label(result.source@) + " → "@ + label(result.destination@) + " | ERROR: "@ + e@ + " | "@
            + secs + "s"@,
    }
}

impl TransferResult {
    /// Writes the line of the transfer; `secs` is its duration in seconds, written out.
    pub fn line_text(&self, secs: &str) -> (r: String)
        requires
            has_label(self.source@),
            has_label(self.destination@),
        ensures
            r@ == line(*self, secs@),
            self.signature matches Ok(signature) ==> r@ == "✅ "@ + label(self.source@) + " → "@ + label(
                self.destination@,
            ) + " | "@ + signature@ + " | "@ + secs@ + "s"@,
            self.signature matches Err(e) ==> r@ == "❌ "@ + label(self.source@) + " → "@ + label(self.destination@)
                + " | ERROR: "@ + e@ + " | "@ + secs@ + "s"@,
    {
        let source: &str = label_of(self.source.as_str());
        let destination: &str = label_of(self.destination.as_str());
        match &self.signature {
            Ok(signature) => String::from_str("✅ ").concat(source).concat(" → ").concat(destination).concat(
                " | ",
            ).concat(signature.as_str()).concat(" | ").concat(secs).concat("s"),
            Err(e) => String::from_str("❌ ").concat(source).concat(" → ").concat(destination).concat(
                " | ERROR: ",
            ).concat(e.as_str()).concat(" | ").concat(secs).concat("s"),
        }
    }
}

/// How many of the transfers succeeded.
pub open spec fn successes(results: Seq<TransferResult>) -> nat {
    results.filter(|r: TransferResult| r.signature is Ok).len()
}

/// The time that all transfers took together.
pub open spec fn total_nanos(results: Seq<TransferResult>) -> nat
    decreases results.len(),
{
    if results.len() == 0 {
        0
    } else {
        total_nanos(results.drop_last()) + results.last().duration_nanos as nat
    }
}

/// The time of the first transfers is part of the time of all.
proof fn total_nanos_grows(results: Seq<TransferResult>, n: int)
    requires
        0 <= n <= results.len(),
    ensures
        total_nanos(results.take(n)) <= total_nanos(results),
    decreases results.len() - n,
{
    if n == results.len() {
        assert(results.take(n) =~= results);
    } else {
        total_nanos_grows(results, n + 1);
        assert(results.take(n + 1).drop_last() =~= results.take(n));
    }
}

/// The statistics, one to a line, with the success rate in percent, the durations in seconds and
/// the sum in SOL as they were written out; the sum is left out where no transfer succeeded.
pub open spec fn statistics(
    summary: Summary,
    rate: Seq<char>,
    total_secs: Seq<char>,
    average_secs: Seq<char>,
    sol: Seq<char>,
) -> Seq<char> {
    let head = "📈 Statistics:\n  Total transfers: "@ + decimal((summary.successful + summary.failed) as nat)
        + "\n  Successful: "@ + decimal(summary.successful as nat) + " ✅\n  Failed: "@ + decimal(
        summary.failed as nat,
    ) + " ❌\n  Success rate: "@ + rate + "%\n  Total execution time: "@ + total_secs
        + "s\n  Average time per transfer: "@ + average_secs + "s"@;
    if summary.successful > 0 {
        head + "\n  Total transferred: "@ + sol + " SOL"@
    } else {
        head
    }
}

impl Summary {
    /// Writes the statistics; the rate in percent, the durations in seconds and the sum in SOL are
    /// written out by the caller.
    pub fn statistics_text(&self, rate: &str, total_secs: &str, average_secs: &str, sol: &str) -> (r: String)
        requires
            self.successful + self.failed <= usize::MAX,
        ensures
            r@ == statistics(*self, rate@, total_secs@, average_secs@, sol@),
            r@ == "📈 Statistics:\n  Total transfers: "@ + decimal((self.successful + self.failed) as nat)
                + "\n  Successful: "@ + decimal(self.successful as nat) + " ✅\n  Failed: "@ + decimal(
                self.failed as nat,
            ) + " ❌\n  Success rate: "@ + rate@ + "%\n  Total execution time: "@ + total_secs@
                + "s\n  Average time per transfer: "@ + average_secs@ + "s"@ + (if self.successful > 0 {
                "\n  Total transferred: "@ + sol@ + " SOL"@
            } else {
                Seq::empty()
            }),
    {
        let count: usize = self.successful + self.failed;
        let head: String = String::from_str("📈 Statistics:\n  Total transfers: ").concat(
            decimal_text(count as u64).as_str(),
        ).concat("\n  Successful: ").concat(decimal_text(self.successful as u64).as_str()).concat(
            " ✅\n  Failed: ",
        ).concat(decimal_text(self.failed as u64).as_str()).concat(" ❌\n  Success rate: ").concat(rate).concat(
            "%\n  Total execution time: ",
        ).concat(total_secs).concat("s\n  Average time per transfer: ").concat(average_secs).concat("s");
        if self.successful > 0 {
            head.concat("\n  Total transferred: ").concat(sol).concat(" SOL")
        } else {
            head
        }
    }
}

/// Counts the transfers by their results and adds up their durations.
pub fn summarize(results: &Vec<TransferResult>) -> (r: Summary)
    requires
        total_nanos(results@) <= MAX_DURATION_NANOS,
    ensures
        r.successful == successes(results@),
        r.failed == results@.len() - successes(results@),
        r.total_nanos == total_nanos(results@),
        r.successful + r.failed == results@.len(),
        r.successful == results@.filter(|t: TransferResult| t.signature is Ok).len(),
{
    let ghost ok = |r: TransferResult| r.signature is Ok;
    let mut summary = Summary { successful: 0, failed: 0, total_nanos: 0 };
    let mut i: usize = 0;
    proof {
        reveal(Seq::filter);
        assert(results@.take(0) =~= Seq::empty());
    }
    while i < results.len()
        invariant
            i <= results@.len(),
            total_nanos(results@) <= MAX_DURATION_NANOS,
            ok == (|r: TransferResult| r.signature is Ok),
            summary.successful == results@.take(i as int).filter(ok).len(),
            summary.successful + summary.failed == i,
            summary.total_nanos == total_nanos(results@.take(i as int)),
        decreases results@.len() - i,
    {
        proof {
            reveal(Seq::filter);
            assert(results@.take(i + 1).drop_last() =~= results@.take(i as int));
            total_nanos_grows(results@, i + 1);
        }
        match &results[i].signature {
            Ok(_) => {
                summary.successful = summary.successful + 1;
            },
            Err(_) => {
                summary.failed = summary.failed + 1;
            },
        }
        summary.total_nanos = summary.total_nanos + results[i].duration_nanos;
        i += 1;
    }
    proof {
        assert(results@.take(i as int) =~= results@);
    }
    summary
}

/// Each source pays the destination at its own place: the keys of the tasks are the sources' and the
/// destinations of the tasks are the destinations', in their order.
pub proof fn tasks_pair_by_place(sources: Seq<WalletInfo>, destinations: Seq<Seq<u8>>, tasks: Seq<TransferTask>)
    requires
        paired(sources, destinations, tasks),
    ensures
        tasks.map_values(|t: TransferTask| t.destination.bytes@) == destinations,
        tasks.map_values(|t: TransferTask| t.keypair@) == sources.map_values(|w: WalletInfo| w.keypair@),
{
    assert(tasks.map_values(|t: TransferTask| t.destination.bytes@) =~= destinations);
    assert(tasks.map_values(|t: TransferTask| t.keypair@) =~= sources.map_values(|w: WalletInfo| w.keypair@));
}

/// All destinations are taken, in their order, exactly where each of them is an address.
pub proof fn all_destinations_or_none(
    parsed: Seq<Result<Seq<u8>, ParsePubkeyError>>,
    r: Result<Vec<Pubkey>, String>,
)
    requires
        collected(parsed, r),
    ensures
        r is Ok <==> forall|i: int| 0 <= i < parsed.len() ==> (#[trigger] parsed[i]) is Ok,
        r matches Ok(keys) ==> keys@.map_values(|k: Pubkey| Ok::<Seq<u8>, ParsePubkeyError>(k.bytes@)) == parsed,
{
    if let Ok(keys) = r {
        assert forall|i: int| 0 <= i < parsed.len() implies (#[trigger] parsed[i]) is Ok by {
            assert(parsed[i] == Ok::<Seq<u8>, ParsePubkeyError>(keys@[i]@));
        }
        assert(keys@.map_values(|k: Pubkey| Ok::<Seq<u8>, ParsePubkeyError>(k.bytes@)) =~= parsed);
    }
}

/// The first destination that is no address is the one that is told.
pub proof fn first_bad_destination_is_told(
    parsed: Seq<Result<Seq<u8>, ParsePubkeyError>>,
    r: Result<Vec<Pubkey>, String>,
    first: int,
)
    requires
        collected(parsed, r),
        0 <= first < parsed.len(),
        parsed[first] is Err,
        forall|j: int| 0 <= j < first ==> (#[trigger] parsed[j]) is Ok,
    ensures
        r matches Err(text) && text@ == "Invalid destination pubkey: "@ + (if parsed[first]->Err_0
            == ParsePubkeyError::WrongSize {
            "String is the wrong size"@
        } else {
            "Invalid Base58 string"@
        }),
{
    if let Err(text) = r {
        let i = choose|i: int|
            {
                &&& 0 <= i < parsed.len()
                &&& (#[trigger] parsed[i]) is Err
                &&& forall|j: int| 0 <= j < i ==> (#[trigger] parsed[j]) is Ok
                &&& text@ == destination_failure(parsed[i]->Err_0)
            };
        assert(i == first);
    } else {
        assert(parsed[first] == Ok::<Seq<u8>, ParsePubkeyError>(r->Ok_0@[first]@));
    }
}

/// Counts that do not agree are both told.
pub proof fn counts_are_told(sources: nat, destinations: nat)
    ensures
        count_failure(sources, destinations) == "Sources count ("@ + decimal(sources)
            + ") != destinations count ("@ + decimal(destinations) + ")"@,
{
}

/// What is reported of a transfer is what became of it: the texts of its accounts, its duration, and
/// its signature or the text of its failure.
pub proof fn report_tells_the_outcome(
    source: Seq<char>,
    destination: Seq<char>,
    outcome: Result<String, TransferError>,
    duration_nanos: u128,
    r: TransferResult,
)
    requires
        reported(source, destination, outcome, duration_nanos, r),
    ensures
        r.source@ == source,
        r.destination@ == destination,
        r.duration_nanos == duration_nanos,
        r.signature is Ok <==> outcome is Ok,
        outcome matches Ok(signature) ==> r.signature->Ok_0 == signature,
        outcome matches Err(e) ==> r.signature->Err_0@ == error_text_spec(e),
{
}

/// Each failure of a transfer has its own text, which tells the failure.
pub proof fn failure_is_told(error: TransferError)
    ensures
        error matches TransferError::Balance(e) ==> error_text_spec(error) == "Failed to get balance: "@ + e@,
        error matches TransferError::Insufficient { amount, needed, available } ==> error_text_spec(error)
            == "Insufficient balance: "@ + decimal(available as nat) + " lamports (need "@ + decimal(amount as nat)
            + " + fees)"@,
        error matches TransferError::Blockhash(e) ==> error_text_spec(error) == "Failed to get blockhash: "@ + e@,
        error matches TransferError::Transaction(e) ==> error_text_spec(error) == "Transaction failed: "@ + e@,
{
}

/// Each result adds one to the successes or to the failures, by its signature, and its duration to
/// the time.
pub proof fn result_counts_once(results: Seq<TransferResult>, result: TransferResult)
    ensures
        successes(Seq::empty()) == 0,
        total_nanos(Seq::empty()) == 0,
        successes(results.push(result)) == successes(results) + (if result.signature is Ok {
            1int
        } else {
            0
        }),
        total_nanos(results.push(result)) == total_nanos(results) + result.duration_nanos,
        successes(results) <= results.len(),
    decreases results.len(),
{
    reveal(Seq::filter);
    assert(results.push(result).drop_last() =~= results);
    if results.len() > 0 {
        result_counts_once(results.drop_last(), results.last());
        assert(results.drop_last().push(results.last()) =~= results);
    }
}

/// The longest duration is that of as many whole seconds as fit 64 bits, and the nanoseconds short
/// of one more.
pub proof fn longest_duration()
    ensures
        MAX_DURATION_NANOS == u64::MAX * 1_000_000_000 + 999_999_999,
{
}

} // verus!
