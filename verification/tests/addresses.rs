use solana_sdk::signature::keypair_from_seed;
use solana_sdk::signature::Signer;
use solana_toolkit::balance;
use solana_toolkit::cli::collect_destinations;
use solana_toolkit::cli::parse_destinations;
use solana_toolkit::cli::DestinationInfo;
use solana_toolkit::keypair::Keypair;
use solana_toolkit::pubkey::ParsePubkeyError;
use solana_toolkit::pubkey::Pubkey;
use solana_toolkit::text::decimal_text;
use solana_toolkit::text::label_of;

const PROGRAM: &str = "Fg6PaFpoGXkYsidMpWTK6W2BeZ7FEfcYkg476zPFsLnS";

fn destination(address: &str) -> DestinationInfo {
    DestinationInfo { address: address.to_string() }
}

#[test]
fn an_address_is_read_as_its_bytes() {
    let zeros = "11111111111111111111111111111111";
    let keys = parse_destinations(&vec![destination(zeros), destination(PROGRAM)]).unwrap();
    assert_eq!(keys[0].bytes, [0u8; 32]);
    let expected: solana_sdk::pubkey::Pubkey = PROGRAM.parse().unwrap();
    assert_eq!(keys[1].bytes, expected.to_bytes());
    assert_ne!(keys[1].bytes, [0u8; 32]);
}

#[test]
fn an_address_of_the_wrong_size_is_refused() {
    let e = parse_destinations(&vec![destination("abc")]).unwrap_err();
    assert_eq!(e, "Invalid destination pubkey: String is the wrong size");
    let long = "1".repeat(45);
    let e = parse_destinations(&vec![destination(&long)]).unwrap_err();
    assert_eq!(e, "Invalid destination pubkey: String is the wrong size");
}

#[test]
fn an_address_with_other_characters_is_refused() {
    let e = parse_destinations(&vec![destination("0OIl")]).unwrap_err();
    assert_eq!(e, "Invalid destination pubkey: Invalid Base58 string");
}

#[test]
fn the_first_bad_destination_is_reported() {
    let parsed = vec![
        Ok(Pubkey { bytes: [1; 32] }),
        Err(ParsePubkeyError::Invalid),
        Err(ParsePubkeyError::WrongSize),
    ];
    assert_eq!(collect_destinations(&parsed).unwrap_err(), "Invalid destination pubkey: Invalid Base58 string");
    let parsed = vec![Ok(Pubkey { bytes: [1; 32] }), Ok(Pubkey { bytes: [2; 32] })];
    let keys = collect_destinations(&parsed).unwrap();
    assert_eq!(keys.len(), 2);
    assert_eq!(keys[1].bytes, [2; 32]);
    assert_eq!(collect_destinations(&vec![]).unwrap().len(), 0);
}

#[test]
fn addresses_are_compared_by_all_their_bytes() {
    let a = Pubkey { bytes: [7; 32] };
    let mut b = a;
    assert!(a.same(&b));
    b.bytes[31] = 8;
    assert!(!a.same(&b));
}

#[test]
fn an_address_is_written_in_base58() {
    let key: solana_sdk::pubkey::Pubkey = PROGRAM.parse().unwrap();
    let line = balance::on_balance(&Pubkey { bytes: key.to_bytes() }, &Ok(1_500_000_000), "1.5").unwrap();
    assert_eq!(line, format!("{} → 1.5 SOL (1500000000 lamports)", PROGRAM));
    let e = balance::on_balance(&Pubkey { bytes: key.to_bytes() }, &Err("down".to_string()), "0").unwrap_err();
    assert_eq!(e, format!("RPC error for {}: down", PROGRAM));
}

#[test]
fn a_wallet_reports_a_key_that_cannot_be_read() {
    let wallet = balance::WalletInfo { keypair: "id.json".to_string() };
    let e = wallet.on_keypair(Err("no such file".to_string())).err().unwrap();
    assert_eq!(e, "Can't read keypair id.json: no such file");
    let bytes = keypair_from_seed(&[9; 32]).unwrap().to_bytes();
    let pair = wallet.on_keypair(Ok(Keypair::from_bytes(bytes).unwrap())).ok().unwrap();
    assert_eq!(pair.to_bytes(), bytes);
    assert_eq!(
        balance::balance_report("key", &Err("down".to_string()), "").unwrap_err(),
        "RPC error for key: down"
    );
    assert_eq!(balance::balance_report("key", &Ok(0), "0").unwrap(), "key → 0 SOL (0 lamports)");
}

#[test]
fn a_keypair_keeps_its_bytes_and_shows_its_public_key() {
    let sdk = keypair_from_seed(&[3; 32]).unwrap();
    let pair = Keypair::from_bytes(sdk.to_bytes()).unwrap();
    assert_eq!(pair.to_bytes(), sdk.to_bytes());
    assert_eq!(pair.pubkey().bytes, sdk.pubkey().to_bytes());
    let second = pair.duplicate();
    assert_eq!(second.to_bytes(), sdk.to_bytes());
    assert_eq!(second.pubkey().bytes, sdk.pubkey().to_bytes());
}

#[test]
fn bytes_of_two_different_keypairs_are_no_keypair() {
    let one = keypair_from_seed(&[3; 32]).unwrap().to_bytes();
    let other = keypair_from_seed(&[4; 32]).unwrap().to_bytes();
    let mut mixed = one;
    mixed[32..].copy_from_slice(&other[32..]);
    assert!(Keypair::from_bytes(mixed).is_none());
}

#[test]
fn numbers_are_written_in_decimal() {
    assert_eq!(decimal_text(0), "0");
    assert_eq!(decimal_text(9), "9");
    assert_eq!(decimal_text(10), "10");
    assert_eq!(decimal_text(5000), "5000");
    assert_eq!(decimal_text(1_234_567_890), "1234567890");
    assert_eq!(decimal_text(u64::MAX), "18446744073709551615");
}

#[test]
fn a_label_is_the_first_eight_bytes() {
    assert_eq!(label_of(PROGRAM), "Fg6PaFpo");
    assert_eq!(label_of("12345678"), "12345678");
    assert_eq!(label_of("ééééé"), "éééé");
}
