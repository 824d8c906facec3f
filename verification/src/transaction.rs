//! Signed transfer transactions.

use crate::keypair::Keypair;
use crate::pubkey::Pubkey;
use vstd::bytes::*;
use vstd::prelude::*;

verus! {

/// A transaction: the bytes of its message, and the signatures over them.
#[derive(Debug)]
pub struct Transaction {
    pub signatures: Vec<[u8; 64]>,
    pub message: Vec<u8>,
}

/// The address of the system program: 32 zero bytes.
pub open spec fn system_program() -> Seq<u8> {
    Seq::new(32, |i: int| 0u8)
}

/// The data of a system transfer: the number of the variant in four bytes, then the lamports in
/// eight, both little-endian.
pub open spec fn transfer_data(lamports: u64) -> Seq<u8> {
    seq![2u8, 0u8, 0u8, 0u8] + spec_u64_to_le_bytes(lamports)
}

/// Whether the system program takes part in the transfer as an account too.
pub open spec fn system_takes_part(from: Seq<u8>, to: Seq<u8>) -> bool {
    from == system_program() || to == system_program()
}

/// The accounts of a transfer, each once: the payer, the destination and the system program.
pub open spec fn transfer_accounts(from: Seq<u8>, to: Seq<u8>) -> Seq<u8> {
    from + (if to == from {
        Seq::empty()
    } else {
        to
    }) + (if system_takes_part(from, to) {
        Seq::empty()
    } else {
        system_program()
    })
}

/// How many accounts a transfer has.
pub open spec fn account_count(from: Seq<u8>, to: Seq<u8>) -> u8 {
    if to == from && system_takes_part(from, to) {
        1
    } else if to == from || system_takes_part(from, to) {
        2
    } else {
        3
    }
}

/// The place of the destination among the accounts.
pub open spec fn destination_index(from: Seq<u8>, to: Seq<u8>) -> u8 {
    if to == from {
        0
    } else {
        1
    }
}

/// The place of the system program among the accounts.
pub open spec fn program_index(from: Seq<u8>, to: Seq<u8>) -> u8 {
    if from == system_program() {
        0
    } else if to == system_program() || to == from {
        1
    } else {
        2
    }
}

/// The message of a transfer: one signer, who pays; no read-only signer; the system program as
/// read-only where it is no party; the accounts; the blockhash; and one instruction, which calls
/// the system program on the payer and the destination.
pub open spec fn transfer_message(from: Seq<u8>, to: Seq<u8>, lamports: u64, blockhash: Seq<u8>) -> Seq<u8> {
    let read_only: u8 = if system_takes_part(from, to) {
        0
    } else {
        1
    };
    seq![1u8, 0u8, read_only, account_count(from, to)] + transfer_accounts(from, to) + blockhash + seq![
        1u8,
        program_index(from, to),
        2u8,
        0u8,
        destination_index(from, to),
        12u8,
    ] + transfer_data(lamports)
}

/// The signature that `solana_sdk::signature::Keypair` gives the bytes of a message.
pub uninterp spec fn signature_over(keypair: Seq<u8>, message: Seq<u8>) -> Seq<u8>;

/// Whether `tx` is the transfer that `keypair` pays and signs.
pub open spec fn is_signed_transfer(
    tx: Transaction,
    keypair: Seq<u8>,
    to: Seq<u8>,
    lamports: u64,
    blockhash: Seq<u8>,
) -> bool {
    &&& tx.message@ == transfer_message(keypair.subrange(32, 64), to, lamports, blockhash)
    &&& tx.signatures@.len() == 1
    &&& tx.signatures@[0]@ == signature_over(keypair, tx.message@)
}

/// Calls `solana_sdk::transaction::Transaction::new_signed_with_payer` on the instruction of
/// `solana_sdk::system_instruction::transfer`, with the keypair's own key as source and payer.
/// The message is the encoding of that one instruction, and the only signature is the keypair's
/// over the message.
#[verifier::external_body]
pub(crate) fn sign_with_payer(keypair: &Keypair, to: &Pubkey, lamports: u64, blockhash: &[u8; 32]) -> (r: Transaction)
    ensures
        r.message@ == transfer_message(keypair@.subrange(32, 64), to@, lamports, blockhash@),
        r.signatures@.len() == 1,
        r.signatures@[0]@ == signature_over(keypair@, r.message@),
{
    let key = solana_sdk::signature::Keypair::from_bytes(&keypair.to_bytes()).unwrap();
    let from = solana_sdk::signature::Signer::pubkey(&key);
    let ix = solana_sdk::system_instruction::transfer(&from, &to.bytes.into(), lamports);
    let hash = solana_sdk::hash::Hash::new_from_array(*blockhash);
    let tx = solana_sdk::transaction::Transaction::new_signed_with_payer(&[ix], Some(&from), &[&key], hash);
    Transaction {
        signatures: tx.signatures.iter().map(|s| <[u8; 64]>::from(*s)).collect(),
        message: tx.message_data(),
    }
}

/// Calls `solana_sdk::message::Message::new` on the instruction of
/// `solana_sdk::system_instruction::transfer`, with the keypair's own key as source and payer,
/// then `solana_sdk::transaction::Transaction::new_unsigned` and `partial_sign`. The message is
/// the encoding of that one instruction with the blockhash that `partial_sign` sets, and the only
/// signature is the keypair's over the message.
#[verifier::external_body]
pub(crate) fn sign_message(keypair: &Keypair, to: &Pubkey, lamports: u64, blockhash: &[u8; 32]) -> (r: Transaction)
    ensures
        r.message@ == transfer_message(keypair@.subrange(32, 64), to@, lamports, blockhash@),
        r.signatures@.len() == 1,
        r.signatures@[0]@ == signature_over(keypair@, r.message@),
{
    let key = solana_sdk::signature::Keypair::from_bytes(&keypair.to_bytes()).unwrap();
    let from = solana_sdk::signature::Signer::pubkey(&key);
    let ix = solana_sdk::system_instruction::transfer(&from, &to.bytes.into(), lamports);
    let message = solana_sdk::message::Message::new(&[ix], Some(&from));
    let mut tx = solana_sdk::transaction::Transaction::new_unsigned(message);
    tx.partial_sign(&[&key], solana_sdk::hash::Hash::new_from_array(*blockhash));
    Transaction {
        signatures: tx.signatures.iter().map(|s| <[u8; 64]>::from(*s)).collect(),
        message: tx.message_data(),
    }
}

/// Two signed transfers of the same amount with the same keypair, destination and blockhash are
/// the same transaction, however they were put together.
pub proof fn signed_transfer_is_unique(
    one: Transaction,
    other: Transaction,
    keypair: Seq<u8>,
    to: Seq<u8>,
    lamports: u64,
    blockhash: Seq<u8>,
)
    requires
        is_signed_transfer(one, keypair, to, lamports, blockhash),
        is_signed_transfer(other, keypair, to, lamports, blockhash),
    ensures
        one.message@ == other.message@,
        one.signatures@.len() == other.signatures@.len() == 1,
        one.signatures@[0]@ == other.signatures@[0]@,
{
}

/// The message that is signed fixes the destination, the amount and the blockhash: transfers from
/// one payer that differ in any of them have different messages.
pub proof fn message_fixes_the_transfer(
    from: Seq<u8>,
    to: Seq<u8>,
    lamports: u64,
    blockhash: Seq<u8>,
    other_to: Seq<u8>,
    other_lamports: u64,
    other_blockhash: Seq<u8>,
)
    requires
        from.len() == 32,
        to.len() == 32,
        blockhash.len() == 32,
        other_to.len() == 32,
        other_blockhash.len() == 32,
        transfer_message(from, to, lamports, blockhash) == transfer_message(
            from,
            other_to,
            other_lamports,
            other_blockhash,
        ),
    ensures
        to == other_to,
        lamports == other_lamports,
        blockhash == other_blockhash,
{
    lemma_auto_spec_u64_to_from_le_bytes();
    let m = transfer_message(from, to, lamports, blockhash);
    let o = transfer_message(from, other_to, other_lamports, other_blockhash);
    let n: int = 4 + transfer_accounts(from, to).len() as int;
    assert(m[3] == account_count(from, to) && o[3] == account_count(from, other_to));
    assert(transfer_accounts(from, to).len() == 32 * account_count(from, to));
    assert(transfer_accounts(from, other_to).len() == 32 * account_count(from, other_to));
    assert(blockhash =~= m.subrange(n, n + 32));
    assert(other_blockhash =~= o.subrange(n, n + 32));
    assert(m[n + 36] == destination_index(from, to));
    assert(o[n + 36] == destination_index(from, other_to));
    assert(spec_u64_to_le_bytes(lamports) =~= m.subrange(n + 42, n + 50));
    assert(spec_u64_to_le_bytes(other_lamports) =~= o.subrange(n + 42, n + 50));
    assert(transfer_accounts(from, to) =~= m.subrange(4, n));
    assert(transfer_accounts(from, other_to) =~= o.subrange(4, n));
    if to != from {
        assert(other_to != from);
        assert(to =~= transfer_accounts(from, to).subrange(32, 64));
        assert(other_to =~= transfer_accounts(from, other_to).subrange(32, 64));
    }
}

/// Whether a message, read from its bytes, is a transfer: it names one signer and no read-only one,
/// lists its accounts with the payer first, names the blockhash, and holds one instruction, which
/// calls the account of 32 zero bytes to transfer the lamports from the first account to the
/// destination.
pub open spec fn pays(m: Seq<u8>, from: Seq<u8>, to: Seq<u8>, lamports: u64, blockhash: Seq<u8>) -> bool {
    let n = 4 + 32 * m[3] as int;
    let program = 4 + 32 * m[n + 33] as int;
    let destination = 4 + 32 * m[n + 36] as int;
    &&& m.len() == n + 50
    &&& m[0] == 1 && m[1] == 0
    &&& m[n + 33] < m[3] && m[n + 36] < m[3]
    &&& m.subrange(4, 36) == from
    &&& m.subrange(destination, destination + 32) == to
    &&& m.subrange(program, program + 32) == Seq::new(32, |i: int| 0u8)
    &&& m.subrange(n, n + 32) == blockhash
    &&& m[n + 32] == 1 && m[n + 34] == 2 && m[n + 35] == 0 && m[n + 37] == 12
    &&& m.subrange(n + 38, n + 42) == seq![2u8, 0u8, 0u8, 0u8]
    &&& spec_u64_from_le_bytes(m.subrange(n + 42, n + 50)) == lamports
}

/// The message of a transfer reads back as that transfer: payer, destination, lamports and
/// blockhash are found in its bytes.
pub proof fn message_reads_back(from: Seq<u8>, to: Seq<u8>, lamports: u64, blockhash: Seq<u8>)
    requires
        from.len() == 32,
        to.len() == 32,
        blockhash.len() == 32,
    ensures
        pays(transfer_message(from, to, lamports, blockhash), from, to, lamports, blockhash),
        ({
            let m = transfer_message(from, to, lamports, blockhash);
            let zeros = Seq::new(32, |i: int| 0u8);
            let n = 4 + 32 * m[3] as int;
            let destination = 4 + 32 * m[n + 36] as int;
            &&& m[2] == 1 <==> from != zeros && to != zeros
            &&& m[2] <= 1
            &&& m.subrange(4, 36) == from
            &&& m.subrange(destination, destination + 32) == to
            &&& m.subrange(n, n + 32) == blockhash
            &&& spec_u64_from_le_bytes(m.subrange(m.len() - 8, m.len() as int)) == lamports
        }),
{
    lemma_auto_spec_u64_to_from_le_bytes();
    let m = transfer_message(from, to, lamports, blockhash);
    let n: int = 4 + transfer_accounts(from, to).len() as int;
    let program = 4 + 32 * program_index(from, to) as int;
    let destination = 4 + 32 * destination_index(from, to) as int;
    assert(m[3] == account_count(from, to));
    assert(transfer_accounts(from, to).len() == 32 * account_count(from, to));
    assert(m[n + 33] == program_index(from, to) && m[n + 36] == destination_index(from, to));
    assert(m.subrange(4, 36) =~= from);
    assert(m.subrange(destination, destination + 32) =~= to);
    assert(m.subrange(program, program + 32) =~= Seq::new(32, |i: int| 0u8));
    assert(m.subrange(n, n + 32) =~= blockhash);
    assert(m.subrange(n + 38, n + 42) =~= seq![2u8, 0u8, 0u8, 0u8]);
    assert(m.subrange(n + 42, n + 50) =~= spec_u64_to_le_bytes(lamports));
}

/// A signed transfer pays the lamports from the keypair's own account to the destination, and its
/// one signature is the keypair's over its message.
pub proof fn signed_transfer_pays(
    tx: Transaction,
    keypair: Seq<u8>,
    to: Seq<u8>,
    lamports: u64,
    blockhash: Seq<u8>,
)
    requires
        is_signed_transfer(tx, keypair, to, lamports, blockhash),
        keypair.len() == 64,
        to.len() == 32,
        blockhash.len() == 32,
    ensures
        pays(tx.message@, keypair.subrange(32, 64), to, lamports, blockhash),
        spec_u64_from_le_bytes(tx.message@.subrange(tx.message@.len() - 8, tx.message@.len() as int)) == lamports,
        tx.message@.subrange(4, 36) == keypair.subrange(32, 64),
        tx.signatures@.len() == 1,
        tx.signatures@[0]@ == signature_over(keypair, tx.message@),
{
    message_reads_back(keypair.subrange(32, 64), to, lamports, blockhash);
}

} // verus!
