//! Signing keys.

use crate::pubkey::Pubkey;
use vstd::prelude::*;

verus! {

/// Whether `solana_sdk::signature::Keypair::from_bytes` accepts the bytes as a keypair.
pub uninterp spec fn is_keypair(bytes: Seq<u8>) -> bool;

/// Calls `solana_sdk::signature::Keypair::from_bytes` and, on the keypair, `pubkey`. Whether a
/// keypair comes back is a function of the bytes alone; its public key is the second half of the
/// bytes.
#[verifier::external_body]
fn keypair_pubkey(bytes: &[u8; 64]) -> (r: Option<Pubkey>)
    ensures
        match r {
            Some(key) => is_keypair(bytes@) && key@ == bytes@.subrange(32, 64),
            None => !is_keypair(bytes@),
        },
{
    match solana_sdk::signature::Keypair::from_bytes(bytes) {
        Ok(pair) => Some(Pubkey { bytes: solana_sdk::signature::Signer::pubkey(&pair).to_bytes() }),
        Err(_) => None,
    }
}

/// A secret key with its public key.
pub struct Keypair {
    bytes: [u8; 64],
    public: Pubkey,
}

impl View for Keypair {
    type V = Seq<u8>;

    closed spec fn view(&self) -> Seq<u8> {
        self.bytes@
    }
}

impl Keypair {
    #[verifier::type_invariant]
    closed spec fn well_formed(self) -> bool {
        is_keypair(self.bytes@) && self.public@ == self.bytes@.subrange(32, 64)
    }

    /// Takes 64 bytes, the secret key and then the public key, as a keypair.
    pub fn from_bytes(bytes: [u8; 64]) -> (r: Option<Keypair>)
        ensures
            match r {
                Some(pair) => is_keypair(bytes@) && pair@ == bytes@ && pair@.len() == 64,
                None => !is_keypair(bytes@),
            },
    {
        match keypair_pubkey(&bytes) {
            Some(public) => Some(Keypair { bytes, public }),
            None => None,
        }
    }

    /// The 64 bytes of the keypair.
    pub fn to_bytes(&self) -> (r: [u8; 64])
        ensures
            r@ == self@,
            is_keypair(r@),
    {
        proof {
            use_type_invariant(self);
        }
        self.bytes
    }

    /// A second keypair with the same bytes.
    pub fn duplicate(&self) -> (r: Keypair)
        ensures
            r@ == self@,
            r@.len() == 64,
    {
        proof {
            use_type_invariant(self);
        }
        Keypair { bytes: self.bytes, public: self.public }
    }

    /// The public key.
    pub fn pubkey(&self) -> (r: Pubkey)
        ensures
            self@.len() == 64,
            r@ == self@.subrange(32, 64),
    {
        proof {
            use_type_invariant(self);
        }
        self.public
    }
}

} // verus!
