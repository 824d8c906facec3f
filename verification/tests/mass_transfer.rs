use solana_sdk::signature::keypair_from_seed;
use solana_sdk::signature::Signer;
use solana_toolkit::cli::pair_wallets;
use solana_toolkit::cli::plan_transfers;
use solana_toolkit::cli::report;
use solana_toolkit::cli::summarize;
use solana_toolkit::cli::DestinationInfo;
use solana_toolkit::cli::TransferResult;
use solana_toolkit::cli::TransferTask;
use solana_toolkit::cli::WalletInfo;
use solana_toolkit::cli::Wallets;
use solana_toolkit::keypair::Keypair;
use solana_toolkit::pubkey::Pubkey;
use solana_toolkit::transfer::Action;
use solana_toolkit::transfer::Signing;
use solana_toolkit::transfer::TransferError;

const A: &str = "Fg6PaFpoGXkYsidMpWTK6W2BeZ7FEfcYkg476zPFsLnS";
const B: &str = "SysvarRent111111111111111111111111111111111";

fn wallets(sources: &[&str], destinations: &[&str]) -> Wallets {
    Wallets {
        sources: sources.iter().map(|s| WalletInfo { keypair: s.to_string() }).collect(),
        destinations: destinations.iter().map(|d| DestinationInfo { address: d.to_string() }).collect(),
    }
}

fn result(signature: Result<&str, &str>, duration_nanos: u128) -> TransferResult {
    TransferResult {
        source: "abcdefghijk".to_string(),
        destination: "12345678901".to_string(),
        signature: signature.map(|s| s.to_string()).map_err(|e| e.to_string()),
        duration_nanos,
    }
}

#[test]
fn sources_and_destinations_are_paired_by_their_place() {
    let tasks = plan_transfers(&wallets(&["one", "two"], &[A, B])).unwrap();
    assert_eq!(tasks.len(), 2);
    assert_eq!(tasks[0].keypair, "one");
    assert_eq!(tasks[1].keypair, "two");
    let b: solana_sdk::pubkey::Pubkey = B.parse().unwrap();
    assert_eq!(tasks[1].destination.bytes, b.to_bytes());
    assert_eq!(plan_transfers(&wallets(&[], &[])).unwrap().len(), 0);
}

#[test]
fn counts_that_differ_are_refused() {
    let e = plan_transfers(&wallets(&["one"], &[A, B])).unwrap_err();
    assert_eq!(e, "Sources count (1) != destinations count (2)");
    let sources: Vec<WalletInfo> = (0..11).map(|i| WalletInfo { keypair: format!("{}", i) }).collect();
    let e = pair_wallets(&sources, &vec![]).unwrap_err();
    assert_eq!(e, "Sources count (11) != destinations count (0)");
}

#[test]
fn a_bad_destination_is_reported_before_the_counts() {
    let e = plan_transfers(&wallets(&["one"], &[A, "bad"])).unwrap_err();
    assert_eq!(e, "Invalid destination pubkey: String is the wrong size");
}

#[test]
fn a_task_starts_with_its_key() {
    let b: solana_sdk::pubkey::Pubkey = B.parse().unwrap();
    let task = TransferTask { keypair: "id.json".to_string(), destination: Pubkey { bytes: b.to_bytes() } };
    let sdk = keypair_from_seed(&[6; 32]).unwrap();
    let pair = Keypair::from_bytes(sdk.to_bytes()).unwrap();
    let (pair, job, action) = task.on_keypair(Ok(pair), 12, 3).ok().unwrap();
    assert_eq!(job.amount, 12);
    assert_eq!(job.destination.bytes, b.to_bytes());
    assert_eq!(job.signing, Signing::Message);
    assert!(matches!(action, Action::GetBalance(key) if key.bytes == sdk.pubkey().to_bytes()));

    let done = task.on_finish(&pair, Ok("sig".to_string()), 8);
    assert_eq!(done.source, sdk.pubkey().to_string());
    assert_eq!(done.destination, B);
    assert_eq!(done.signature, Ok("sig".to_string()));
    assert_eq!(done.duration_nanos, 8);
    let done = task.on_finish(&pair, Err(TransferError::Blockhash("x".to_string())), 9);
    assert_eq!(done.signature, Err("Failed to get blockhash: x".to_string()));
}

#[test]
fn a_task_without_its_key_is_over() {
    let b: solana_sdk::pubkey::Pubkey = B.parse().unwrap();
    let task = TransferTask { keypair: "id.json".to_string(), destination: Pubkey { bytes: b.to_bytes() } };
    let done = task.on_keypair(Err("no file".to_string()), 12, 3).err().unwrap();
    assert_eq!(done.source, "id.json");
    assert_eq!(done.destination, B);
    assert_eq!(done.signature, Err("Failed to read keypair: no file".to_string()));
    assert_eq!(done.duration_nanos, 3);
}

#[test]
fn a_report_keeps_its_parts() {
    let r = report("s".to_string(), "d".to_string(), Err(TransferError::Transaction("t".to_string())), 1);
    assert_eq!((r.source.as_str(), r.destination.as_str(), r.duration_nanos), ("s", "d", 1));
    assert_eq!(r.signature, Err("Transaction failed: t".to_string()));
}

#[test]
fn a_line_shows_labels_outcome_and_time() {
    assert_eq!(result(Ok("sig"), 0).line_text("1.25"), "✅ abcdefgh → 12345678 | sig | 1.25s");
    assert_eq!(result(Err("bad"), 0).line_text("0.00"), "❌ abcdefgh → 12345678 | ERROR: bad | 0.00s");
}

#[test]
fn a_summary_counts_and_adds_up() {
    let results = vec![result(Ok("a"), 5), result(Err("b"), 7), result(Ok("c"), 1_000_000_000)];
    let summary = summarize(&results);
    assert_eq!((summary.successful, summary.failed, summary.total_nanos), (2, 1, 1_000_000_012));
    let summary = summarize(&vec![]);
    assert_eq!((summary.successful, summary.failed, summary.total_nanos), (0, 0, 0));
}

#[test]
fn the_statistics_are_written_out() {
    let summary = summarize(&vec![result(Ok("a"), 5), result(Err("b"), 7), result(Ok("c"), 9)]);
    assert_eq!(
        summary.statistics_text("66.7", "1.50", "0.50", "0.2"),
        "📈 Statistics:\n  Total transfers: 3\n  Successful: 2 ✅\n  Failed: 1 ❌\n  Success rate: 66.7%\n  \
         Total execution time: 1.50s\n  Average time per transfer: 0.50s\n  Total transferred: 0.2 SOL"
    );
    let summary = summarize(&vec![result(Err("b"), 7)]);
    assert_eq!(
        summary.statistics_text("0.0", "1.50", "1.50", "0"),
        "📈 Statistics:\n  Total transfers: 1\n  Successful: 0 ✅\n  Failed: 1 ❌\n  Success rate: 0.0%\n  \
         Total execution time: 1.50s\n  Average time per transfer: 1.50s"
    );
}

#[test]
fn a_finished_transfer_always_has_its_line() {
    for bytes in [[0u8; 32], [255; 32], [1; 32]] {
        let task = TransferTask { keypair: "k".to_string(), destination: Pubkey { bytes } };
        let text = solana_sdk::pubkey::Pubkey::from(bytes).to_string();
        assert!(text.is_ascii() && text.len() >= 32);
        let pair = keypair_from_seed(&[1; 32]).unwrap();
        let source = pair.pubkey().to_string();
        let keypair = Keypair::from_bytes(pair.to_bytes()).unwrap();
        let line = task.on_finish(&keypair, Ok("sig".to_string()), 0).line_text("0.00");
        assert_eq!(line, format!("✅ {} → {} | sig | 0.00s", &source[..8], &text[..8]));
    }
}
