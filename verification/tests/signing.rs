use solana_sdk::message::Message;
use solana_sdk::signature::keypair_from_seed;
use solana_sdk::signature::Signature;
use solana_sdk::signature::Signer;
use solana_sdk::system_instruction;
use solana_toolkit::keypair::Keypair;
use solana_toolkit::pubkey::Pubkey;
use solana_toolkit::transaction::Transaction;
use solana_toolkit::transfer::Action;
use solana_toolkit::transfer::Event;
use solana_toolkit::transfer::Signing;
use solana_toolkit::transfer::TransferJob;

const BLOCKHASH: [u8; 32] = [5; 32];

fn signed(signing: Signing, to: Pubkey, lamports: u64) -> Transaction {
    let bytes = keypair_from_seed(&[1; 32]).unwrap().to_bytes();
    let pair = Keypair::from_bytes(bytes).unwrap();
    let (mut job, _) = TransferJob::start(&pair, to, lamports, signing);
    job.step(&pair, Event::Balance(Ok(u64::MAX)));
    match job.step(&pair, Event::Blockhash(Ok(BLOCKHASH))) {
        Action::SendAndConfirm(tx) => tx,
        _ => panic!("a transaction was expected"),
    }
}

fn layout(from: &[u8], to: &[u8], lamports: u64) -> Vec<u8> {
    let mut bytes = vec![1u8, 0, 1, 3];
    bytes.extend_from_slice(from);
    bytes.extend_from_slice(to);
    bytes.extend_from_slice(&[0; 32]);
    bytes.extend_from_slice(&BLOCKHASH);
    bytes.extend_from_slice(&[1, 2, 2, 0, 1, 12, 2, 0, 0, 0]);
    bytes.extend_from_slice(&lamports.to_le_bytes());
    bytes
}

fn checked(tx: &Transaction, to: Pubkey, lamports: u64) {
    let key = keypair_from_seed(&[1; 32]).unwrap();
    let ix = system_instruction::transfer(&key.pubkey(), &to.bytes.into(), lamports);
    let message = Message::new_with_blockhash(&[ix], Some(&key.pubkey()), &solana_sdk::hash::Hash::new_from_array(BLOCKHASH));
    assert_eq!(tx.message, message.serialize());
    assert_eq!(tx.signatures.len(), 1);
    assert!(Signature::from(tx.signatures[0]).verify(&key.pubkey().to_bytes(), &tx.message));
}

#[test]
fn a_transfer_has_the_layout_of_one_instruction() {
    let key = keypair_from_seed(&[1; 32]).unwrap();
    let to = Pubkey { bytes: [8; 32] };
    for signing in [Signing::WithPayer, Signing::Message] {
        let tx = signed(signing, to, 1_000_000);
        assert_eq!(tx.message, layout(&key.pubkey().to_bytes(), &to.bytes, 1_000_000));
        checked(&tx, to, 1_000_000);
    }
}

#[test]
fn a_transfer_to_oneself_names_the_account_once() {
    let key = keypair_from_seed(&[1; 32]).unwrap();
    let to = Pubkey { bytes: key.pubkey().to_bytes() };
    for signing in [Signing::WithPayer, Signing::Message] {
        let tx = signed(signing, to, 7);
        checked(&tx, to, 7);
        assert_eq!(tx.message[..4], [1, 0, 1, 2]);
        assert_eq!(tx.message[100..106], [1, 1, 2, 0, 0, 12]);
        assert_eq!(tx.message.len(), 118);
    }
}

#[test]
fn a_transfer_to_the_system_program_names_it_once() {
    let to = Pubkey { bytes: [0; 32] };
    for signing in [Signing::WithPayer, Signing::Message] {
        let tx = signed(signing, to, 7);
        checked(&tx, to, 7);
        assert_eq!(tx.message[..4], [1, 0, 0, 2]);
        assert_eq!(tx.message[100..106], [1, 1, 2, 0, 1, 12]);
        assert_eq!(tx.message.len(), 118);
    }
}

#[test]
fn both_ways_of_signing_agree() {
    let to = Pubkey { bytes: [8; 32] };
    let one = signed(Signing::WithPayer, to, 42);
    let other = signed(Signing::Message, to, 42);
    assert_eq!(one.message, other.message);
    assert_eq!(one.signatures, other.signatures);
}

#[test]
fn another_transfer_has_another_message() {
    let to = Pubkey { bytes: [8; 32] };
    let base = signed(Signing::WithPayer, to, 42);
    assert_ne!(base.message, signed(Signing::WithPayer, to, 43).message);
    assert_ne!(base.message, signed(Signing::WithPayer, Pubkey { bytes: [9; 32] }, 42).message);
    assert_ne!(base.signatures, signed(Signing::WithPayer, to, 43).signatures);
}
