//! The tool that reports the balances of wallets.

use crate::keypair::Keypair;
use crate::pubkey::address_text;
use crate::pubkey::pubkey_to_string;
use crate::pubkey::Pubkey;
use crate::text::decimal;
use crate::text::decimal_text;
use vstd::prelude::*;
use vstd::string::StringExecFns;

verus! {

/// The configuration of the tool.
#[derive(Debug)]
pub struct Config {
    pub rpc_url: String,
    pub wallets: Wallets,
}

/// The wallets to report on.
#[derive(Debug)]
pub struct Wallets {
    pub sources: Vec<WalletInfo>,
}

/// A wallet, by the file of its key.
#[derive(Debug)]
pub struct WalletInfo {
    pub keypair: String,
}

/// The text of a key that could not be read.
pub open spec fn keypair_failure(path: Seq<char>, e: Seq<char>) -> Seq<char> {
    "Can't read keypair "@ + path + ": "@ + e
}

/// The text of a balance that could not be had.
pub open spec fn rpc_failure(key: Seq<char>, e: Seq<char>) -> Seq<char> {
    "RPC error for "@ + key + ": "@ + e
}

/// The line of a balance, with the amount in SOL as it was written out.
pub open spec fn balance_line(key: Seq<char>, sol: Seq<char>, lamports: u64) -> Seq<char> {
    key + " → "@ + sol + " SOL ("@ + decimal(lamports as nat) + " lamports)"@
}

impl WalletInfo {
    /// Takes the key of the wallet, or the failure to read it.
    pub fn on_keypair(&self, keypair: Result<Keypair, String>) -> (r: Result<Keypair, String>)
        ensures
            match keypair {
                Ok(pair) => r == Ok::<Keypair, String>(pair),
                Err(e) => r is Err && r->Err_0@ == keypair_failure(self.keypair@, e@),
            },
            keypair matches Err(e) ==> r->Err_0@ == "Can't read keypair "@ + self.keypair@ + ": "@ + e@,
    {
        match keypair {
            Ok(pair) => Ok(pair),
            Err(e) => Err(
                String::from_str("Can't read keypair ").concat(self.keypair.as_str()).concat(": ").concat(
                    e.as_str(),
                ),
            ),
        }
    }
}

/// Takes the balance of an account, named by its text, or the failure to get it.
pub fn balance_report(key: &str, balance: &Result<u64, String>, sol: &str) -> (r: Result<String, String>)
    ensures
        match *balance {
            Ok(lamports) => r is Ok && r->Ok_0@ == balance_line(key@, sol@, lamports),
            Err(e) => r is Err && r->Err_0@ == rpc_failure(key@, e@),
        },
        *balance matches Ok(lamports) ==> r->Ok_0@ == key@ + " → "@ + sol@ + " SOL ("@ + decimal(lamports as nat)
            + " lamports)"@,
        *balance matches Err(e) ==> r->Err_0@ == "RPC error for "@ + key@ + ": "@ + e@,
{
    match balance {
        Ok(lamports) => Ok(
            String::from_str(key).concat(" → ").concat(sol).concat(" SOL (").concat(
                decimal_text(*lamports).as_str(),
            ).concat(" lamports)"),
        ),
        Err(e) => Err(String::from_str("RPC error for ").concat(key).concat(": ").concat(e.as_str())),
    }
}

/// Takes the balance of an account, or the failure to get it; `sol` is the balance in SOL, written
/// out.
pub fn on_balance(key: &Pubkey, balance: &Result<u64, String>, sol: &str) -> (r: Result<String, String>)
    ensures
        match *balance {
            Ok(lamports) => r is Ok && r->Ok_0@ == balance_line(address_text(key@), sol@, lamports),
            Err(e) => r is Err && r->Err_0@ == rpc_failure(address_text(key@), e@),
        },
        *balance matches Ok(lamports) ==> r->Ok_0@ == address_text(key.bytes@) + " → "@ + sol@ + " SOL ("@ + decimal(lamports as nat)
            + " lamports)"@,
        *balance matches Err(e) ==> r->Err_0@ == "RPC error for "@ + address_text(key.bytes@) + ": "@ + e@,
{
    let text: String = pubkey_to_string(key);
    balance_report(text.as_str(), balance, sol)
}

/// The texts of the tool tell the key, the amount in SOL and in lamports, and the failure.
pub proof fn texts_tell_their_parts(key: Seq<char>, sol: Seq<char>, lamports: u64, e: Seq<char>)
    ensures
        balance_line(key, sol, lamports) == key + " → "@ + sol + " SOL ("@ + decimal(lamports as nat)
            + " lamports)"@,
        rpc_failure(key, e) == "RPC error for "@ + key + ": "@ + e,
        keypair_failure(key, e) == "Can't read keypair "@ + key + ": "@ + e,
{
}

} // verus!
