use solana_sdk::signature::keypair_from_seed;
use solana_toolkit::config;
use solana_toolkit::geyser;
use solana_toolkit::geyser::CommitmentLevel;
use solana_toolkit::geyser::ConnectAction;
use solana_toolkit::geyser::ConnectEvent;
use solana_toolkit::geyser::MonitorAction;
use solana_toolkit::geyser::MonitorEvent;
use solana_toolkit::geyser::Update;
use solana_toolkit::keypair::Keypair;
use solana_toolkit::polling;
use solana_toolkit::polling::SlotAction;
use solana_toolkit::pubkey::ParsePubkeyError;
use solana_toolkit::pubkey::Pubkey;
use solana_toolkit::session::SessionAction;
use solana_toolkit::transfer::Action;
use solana_toolkit::transfer::Plan;
use solana_toolkit::transfer::TransferConfig;
use solana_toolkit::transfer::TransferError;

const DESTINATION: &str = "Fg6PaFpoGXkYsidMpWTK6W2BeZ7FEfcYkg476zPFsLnS";

fn pair() -> Keypair {
    Keypair::from_bytes(keypair_from_seed(&[1; 32]).unwrap().to_bytes()).unwrap()
}

fn transfer(destination: &str) -> TransferConfig {
    TransferConfig {
        source_keypair: "id.json".to_string(),
        destination: destination.to_string(),
        amount_lamports: 1000,
    }
}

fn geyser_config(destination: &str) -> geyser::Config {
    geyser::Config {
        rpc_url: "http://localhost:8899".to_string(),
        geyser_endpoint: "http://localhost:10000".to_string(),
        api_key: "key".to_string(),
        transfer: transfer(destination),
        retry: geyser::RetryConfig { max_attempts: 3, delay_ms: 100 },
    }
}

fn polling_config(destination: &str) -> polling::Config {
    polling::Config {
        rpc_url: "http://localhost:8899".to_string(),
        transfer: transfer(destination),
        polling_interval_ms: 400,
        max_retries: 3,
        retry_delay_ms: 200,
    }
}

#[test]
fn the_geyser_tool_is_set_up_from_its_configuration() {
    let app = geyser::App::new(geyser_config(DESTINATION), Ok(pair())).ok().unwrap();
    let expected: solana_sdk::pubkey::Pubkey = DESTINATION.parse().unwrap();
    assert_eq!(app.plan.destination.bytes, expected.to_bytes());
    assert_eq!(app.plan.amount_lamports, 1000);
    assert_eq!(app.plan.source_keypair.to_bytes(), pair().to_bytes());
    assert_eq!(app.stats, geyser::Stats::default());
    assert_eq!(app.stats.slots_received + app.stats.last_slot + app.stats.total_transfers(), 0);
    let (session, action) = app.start_transfer();
    assert_eq!((session.retry.attempt, session.retry.last, session.delay_ms), (0, 2, 100));
    assert!(matches!(action, SessionAction::Ask(Action::GetBalance(key)) if key.bytes == pair().pubkey().bytes));
}

#[test]
fn the_geyser_tool_reports_what_is_wrong_with_its_configuration() {
    let e = geyser::App::new(geyser_config("bad"), Err("no file".to_string())).err().unwrap();
    assert_eq!(e, "Failed to read keypair: no file");
    let e = geyser::App::new(geyser_config("bad"), Ok(pair())).err().unwrap();
    assert_eq!(e, "Invalid destination: String is the wrong size");
    let e = geyser::App::new(geyser_config("0"), Ok(pair())).err().unwrap();
    assert_eq!(e, "Invalid destination: Invalid Base58 string");
}

#[test]
fn a_plan_is_assembled_from_its_parts() {
    let plan = Plan::assemble(Ok(pair()), Ok(Pubkey { bytes: [8; 32] }), 5, "k: ", "d: ").ok().unwrap();
    assert_eq!(plan.destination.bytes, [8; 32]);
    assert_eq!(plan.amount_lamports, 5);
    let e = Plan::assemble(Ok(pair()), Err(ParsePubkeyError::Invalid), 5, "k: ", "d: ").err().unwrap();
    assert_eq!(e, "d: Invalid Base58 string");
    let e = Plan::assemble(Err("x".to_string()), Err(ParsePubkeyError::Invalid), 5, "k: ", "d: ").err().unwrap();
    assert_eq!(e, "k: x");
}

#[test]
fn settled_slots_are_handed_on_and_all_are_counted() {
    let mut stats = geyser::Stats::default();
    let processed = Update::Slot { slot: 5, status: CommitmentLevel::Processed };
    let confirmed = Update::Slot { slot: 6, status: CommitmentLevel::Confirmed };
    let finalized = Update::Slot { slot: 4, status: CommitmentLevel::Finalized };
    assert_eq!(stats.on_update(processed), None);
    assert_eq!(stats.on_update(confirmed), Some(6));
    assert_eq!(stats.on_update(Update::Other), None);
    assert_eq!(stats.last_slot, 6);
    assert_eq!(stats.on_update(finalized), Some(4));
    assert_eq!(stats.slots_received, 3);
    assert_eq!(stats.last_slot, 4);
}

#[test]
fn the_geyser_tool_counts_transfers_by_their_result() {
    let mut stats = geyser::Stats::default();
    stats.record::<u8, u8>(&Ok(1));
    stats.record::<u8, u8>(&Ok(1));
    stats.record::<u8, u8>(&Err(1));
    assert_eq!((stats.transfers_successful, stats.transfers_failed), (2, 1));
    assert_eq!(stats.total_transfers(), 3);
}

#[test]
fn the_subscription_asks_for_settled_slots() {
    let filter = geyser::slot_filter();
    assert_eq!(filter.name, "client");
    assert_eq!(filter.filter_by_commitment, vec!["confirmed", "finalized"]);
}

#[test]
fn a_lost_connection_is_set_up_again() {
    assert_eq!(geyser::monitor_step(MonitorEvent::Started), MonitorAction::Connect);
    assert_eq!(geyser::monitor_step(MonitorEvent::Paused), MonitorAction::Connect);
    assert_eq!(geyser::monitor_step(MonitorEvent::Connected), MonitorAction::Subscribe);
    for event in [MonitorEvent::ConnectFailed, MonitorEvent::SubscriptionEnded, MonitorEvent::SubscriptionFailed] {
        assert_eq!(geyser::monitor_step(event), MonitorAction::Pause { secs: 5 });
    }
}

#[test]
fn an_api_key_becomes_a_metadata_value() {
    assert_eq!(geyser::api_key_value("abc 123\t~").unwrap(), b"abc 123\t~".to_vec());
    assert_eq!(geyser::api_key_value("").unwrap(), Vec::<u8>::new());
    assert_eq!(geyser::api_key_value("é").unwrap(), vec![0xc3, 0xa9]);
    for bad in ["a\nb", "\u{7f}", "\0", "a\r"] {
        assert_eq!(
            geyser::api_key_value(bad).unwrap_err(),
            "Invalid API key: failed to parse metadata value"
        );
    }
}

#[test]
fn the_polling_tool_is_set_up_in_two_steps() {
    let plan = polling::prepare(&polling_config(DESTINATION), Ok(pair())).ok().unwrap();
    let app = polling::App::new(polling_config(DESTINATION), plan, Ok(77)).ok().unwrap();
    assert_eq!(app.stats, polling::Stats::starting_at(77));
    assert_eq!(app.stats.last_slot, 77);
    assert_eq!(app.stats.slots_processed, 0);
    let (session, _) = app.start_transfer();
    assert_eq!((session.retry.attempt, session.retry.last, session.delay_ms), (0, 3, 200));

    let plan = polling::prepare(&polling_config(DESTINATION), Ok(pair())).ok().unwrap();
    let e = polling::App::new(polling_config(DESTINATION), plan, Err("down".to_string())).err().unwrap();
    assert_eq!(e, "Failed to get initial slot");
}

#[test]
fn the_polling_tool_reports_what_is_wrong_with_its_configuration() {
    let e = polling::prepare(&polling_config("bad"), Err("no file".to_string())).err().unwrap();
    assert_eq!(e, "Failed to read source keypair: no file");
    let e = polling::prepare(&polling_config("bad"), Ok(pair())).err().unwrap();
    assert_eq!(e, "Failed to get initial slot: String is the wrong size");
}

#[test]
fn only_a_new_slot_is_handed_on() {
    let mut stats = polling::Stats::starting_at(10);
    let mut out = Vec::new();
    for slot in [9, 10, 11, 11, 15, 12, 15, 16] {
        match stats.on_slot(Ok(slot)) {
            SlotAction::HandOn(slot) => out.push(slot),
            other => assert_eq!(other, SlotAction::Nothing),
        }
    }
    assert_eq!(out, vec![11, 15, 16]);
    assert_eq!(stats.slots_processed, 3);
    assert_eq!(stats.last_slot, 16);
    let before = stats;
    assert_eq!(stats.on_slot(Err("down".to_string())), SlotAction::Pause { secs: 1 });
    assert_eq!(stats, before);
}

#[test]
fn every_slot_gets_one_answer() {
    let mut stats = polling::Stats::starting_at(0);
    let mut waiting = 0;
    for slot in [1, 2, 2, 5] {
        if let SlotAction::HandOn(_) = stats.on_slot(Ok(slot)) {
            waiting += 1;
        }
    }
    stats.record::<u8, u8>(&Ok(0));
    stats.record::<u8, u8>(&Err(0));
    waiting -= 2;
    assert_eq!(stats.total_transfers() + waiting, stats.slots_processed);
    assert_eq!((stats.transfers_successful, stats.transfers_failed), (1, 1));

    let mut stats = geyser::Stats::default();
    let handed: Vec<u64> = (1..4)
        .filter_map(|slot| stats.on_update(Update::Slot { slot, status: CommitmentLevel::Confirmed }))
        .collect();
    for _ in &handed {
        stats.record::<u8, u8>(&Ok(0));
    }
    assert_eq!(stats.total_transfers(), handed.len() as u64);
}

#[test]
fn the_service_configuration_holds_its_parts() {
    let config = config::Config {
        grpc: config::GrpcConfig { endpoint: "e".to_string(), api_key: "k".to_string() },
        solana: config::SolanaConfig {
            rpc_url: "r".to_string(),
            keypair_path: "p".to_string(),
            recipient_wallet: "w".to_string(),
            transfer_amount_lamports: 1,
        },
    };
    assert_eq!(config.grpc.endpoint, "e");
    assert_eq!(config.solana.transfer_amount_lamports, 1);
}

#[test]
fn the_counters_are_reported() {
    let stats = geyser::Stats { slots_received: 12, transfers_successful: 3, transfers_failed: 1, last_slot: 990 };
    assert_eq!(
        stats.report_text("75.0"),
        "📊 Stats - Slots: 12 | Transfers: 3✅/1❌ | Success: 75.0% | Last slot: 990"
    );
    let stats = polling::Stats { slots_processed: 12, transfers_successful: 3, transfers_failed: 1, last_slot: 990 };
    assert_eq!(
        stats.report_text("75.0"),
        "\nStats: 12 slots | 3 success | 1 failed | 75.0% success rate\n"
    );
}

#[test]
fn the_transfer_for_a_slot_is_reported() {
    let sent = Ok("5ig".to_string());
    assert_eq!(
        geyser::outcome_text(42, "0.5", DESTINATION, &sent),
        "✅ Transfer sent for slot 42: 0.5 SOL → Fg6PaFpo | Signature: 5ig"
    );
    assert_eq!(polling::outcome_text(42, "0.5", DESTINATION, &sent), "Slot 42: 0.5 SOL → Fg6PaFpo | 5ig");
    let failed = Err(TransferError::Blockhash("timeout".to_string()));
    assert_eq!(
        geyser::outcome_text(42, "0.5", DESTINATION, &failed),
        "❌ Transfer failed for slot 42: Failed to get blockhash: timeout"
    );
    assert_eq!(
        polling::outcome_text(42, "0.5", DESTINATION, &failed),
        "Slot 42: Transfer failed: Failed to get blockhash"
    );
}

#[test]
fn a_tool_reports_the_transfer_to_its_destination() {
    let sent = Ok("5ig".to_string());
    let app = geyser::App::new(geyser_config(DESTINATION), Ok(pair())).ok().unwrap();
    assert_eq!(
        app.outcome_text(42, "0.5", &sent),
        "✅ Transfer sent for slot 42: 0.5 SOL → Fg6PaFpo | Signature: 5ig"
    );
    let config = polling_config(DESTINATION);
    let plan = polling::prepare(&config, Ok(pair())).ok().unwrap();
    let app = polling::App::new(config, plan, Ok(7)).ok().unwrap();
    assert_eq!(app.outcome_text(42, "0.5", &sent), "Slot 42: 0.5 SOL → Fg6PaFpo | 5ig");
}

#[test]
fn a_tool_reports_a_failed_attempt() {
    let error = TransferError::Balance("down".to_string());
    let app = geyser::App::new(geyser_config(DESTINATION), Ok(pair())).ok().unwrap();
    assert_eq!(app.retry_text(1, &error), "Transfer attempt 1/3 failed: Failed to get balance: down");
    let mut config = polling_config(DESTINATION);
    config.max_retries = u32::MAX;
    let plan = polling::prepare(&config, Ok(pair())).ok().unwrap();
    let app = polling::App::new(config, plan, Ok(7)).ok().unwrap();
    assert_eq!(app.retry_text(42, 2, &error), "Retry 2/4294967296 for slot 42: Failed to get balance");
}

#[test]
fn a_connection_is_set_up_step_by_step() {
    let step = |event| geyser::connect_step("http://localhost:10000", "key 1", event);
    assert!(matches!(step(ConnectEvent::Started), ConnectAction::Dial));
    let refused = step(ConnectEvent::Refused("transport error".to_string()));
    assert!(matches!(refused, ConnectAction::Fail(e) if e == "transport error"));
    assert!(matches!(step(ConnectEvent::Connected), ConnectAction::Ready(value) if value == b"key 1".to_vec()));
    assert_eq!(geyser::api_key_name(), "x-token");
}

#[test]
fn a_bad_endpoint_is_never_dialled() {
    for endpoint in ["", "http://a b", "http://", "localhost:1:2", "http://[::1"] {
        let expected = tonic::transport::Endpoint::from_shared(endpoint.to_string()).err().unwrap().to_string();
        let action = geyser::connect_step(endpoint, "\n", ConnectEvent::Started);
        assert!(matches!(action, ConnectAction::Fail(e) if e == expected && e == "invalid URI"));
    }
    for endpoint in ["https://example.com", "localhost:10000", "/"] {
        assert!(matches!(geyser::connect_step(endpoint, "\n", ConnectEvent::Started), ConnectAction::Dial));
    }
    assert!(matches!(geyser::connect_step_at(true, "k", ConnectEvent::Started), ConnectAction::Dial));
    let action = geyser::connect_step_at(false, "k", ConnectEvent::Started);
    assert!(matches!(action, ConnectAction::Fail(e) if e == "invalid URI"));
}

#[test]
fn a_bad_api_key_is_found_once_the_connection_stands() {
    let action = geyser::connect_step("http://localhost:10000", "a\nb", ConnectEvent::Connected);
    assert!(matches!(
        action,
        ConnectAction::Fail(e) if e == "Invalid API key: failed to parse metadata value"
    ));
}

#[test]
fn a_failed_reading_changes_nothing() {
    let mut stats = polling::Stats::starting_at(10);
    let mut out = vec![];
    for reading in [Ok(12), Err("down".to_string()), Ok(12), Err("down".to_string()), Ok(11), Ok(15)] {
        let (before, failed) = (stats, reading.is_err());
        match stats.on_slot(reading) {
            SlotAction::HandOn(slot) => out.push(slot),
            SlotAction::Pause { secs } => assert!(failed && secs == 1 && stats == before),
            SlotAction::Nothing => assert!(!failed && stats == before),
        }
    }
    assert_eq!(out, vec![12, 15]);
    assert_eq!((stats.slots_processed, stats.last_slot), (2, 15));
}
