//! Account addresses.

use core::str::FromStr;
use vstd::prelude::*;
use vstd::utf8::is_ascii_chars;

verus! {

/// The address of an account.
#[derive(Clone, Copy, Debug)]
pub struct Pubkey {
    pub bytes: [u8; 32],
}

impl View for Pubkey {
    type V = Seq<u8>;

    open spec fn view(&self) -> Seq<u8> {
        self.bytes@
    }
}

/// Why a text is not an address.
#[derive(Clone, Copy, Debug, PartialEq, Eq, Structural)]
pub enum ParsePubkeyError {
    WrongSize,
    Invalid,
}

impl ParsePubkeyError {
    /// The text of the error.
    pub open spec fn text_spec(self) -> Seq<char> {
        match self {
            ParsePubkeyError::WrongSize => "String is the wrong size"@,
            ParsePubkeyError::Invalid => "Invalid Base58 string"@,
        }
    }

    /// The text of the error.
    pub fn text(&self) -> (r: &'static str)
        ensures
            r@ == self.text_spec(),
            *self == ParsePubkeyError::WrongSize ==> r@ == "String is the wrong size"@,
            *self == ParsePubkeyError::Invalid ==> r@ == "Invalid Base58 string"@,
    {
        match self {
            ParsePubkeyError::WrongSize => "String is the wrong size",
            ParsePubkeyError::Invalid => "Invalid Base58 string",
        }
    }
}

/// What `solana_sdk::pubkey::Pubkey::from_str` makes of a text.
pub uninterp spec fn address_in(text: Seq<char>) -> Result<Seq<u8>, ParsePubkeyError>;

/// What `solana_sdk::pubkey::Pubkey` writes as the text of an address.
pub uninterp spec fn address_text(key: Seq<u8>) -> Seq<char>;

/// What `solana_sdk::pubkey::Pubkey::try_find_program_address` finds for seeds and a program.
pub uninterp spec fn program_address(seeds: Seq<Seq<u8>>, program_id: Seq<u8>) -> Option<(Seq<u8>, u8)>;

/// Calls `solana_sdk::pubkey::Pubkey::from_str`. Its result is a function of the text alone; an
/// address comes back as its 32 bytes, and each of the two errors as its namesake.
#[verifier::external_body]
pub(crate) fn pubkey_from_str(text: &str) -> (r: Result<Pubkey, ParsePubkeyError>)
    ensures
        match r {
            Ok(key) => address_in(text@) == Ok::<Seq<u8>, ParsePubkeyError>(key@),
            Err(e) => address_in(text@) == Err::<Seq<u8>, ParsePubkeyError>(e),
        },
{
    match solana_sdk::pubkey::Pubkey::from_str(text) {
        Ok(key) => Ok(Pubkey { bytes: key.to_bytes() }),
        Err(solana_sdk::pubkey::ParsePubkeyError::WrongSize) => Err(ParsePubkeyError::WrongSize),
        Err(solana_sdk::pubkey::ParsePubkeyError::Invalid) => Err(ParsePubkeyError::Invalid),
    }
}

/// Calls `to_string` of `solana_sdk::pubkey::Pubkey`. The text is a function of the 32 bytes
/// alone. It is their base-58 encoding, so it is made of ASCII letters and digits, with at least
/// one character for each byte.
#[verifier::external_body]
pub(crate) fn pubkey_to_string(key: &Pubkey) -> (r: String)
    ensures
        r@ == address_text(key@),
        is_ascii_chars(r@),
        r@.len() >= 32,
{
    solana_sdk::pubkey::Pubkey::from(key.bytes).to_string()
}

/// Calls `solana_sdk::pubkey::Pubkey::try_find_program_address` with two seeds. What it finds is a
/// function of the seeds and the program alone.
#[verifier::external_body]
pub(crate) fn find_address(first: &[u8], second: &[u8], program_id: &Pubkey) -> (r: Option<(Pubkey, u8)>)
    ensures
        match r {
            Some((key, bump)) => program_address(seq![first@, second@], program_id@) == Some((key@, bump)),
            None => program_address(seq![first@, second@], program_id@) is None,
        },
{
    let program = solana_sdk::pubkey::Pubkey::from(program_id.bytes);
    solana_sdk::pubkey::Pubkey::try_find_program_address(&[first, second], &program)
        .map(|found| (Pubkey { bytes: found.0.to_bytes() }, found.1))
}

impl Pubkey {
    /// Whether both are the same address.
    pub fn same(&self, other: &Pubkey) -> (r: bool)
        ensures
            r == (self@ == other@),
            r == (*self == *other),
    {
        let mut i: usize = 0;
        while i < 32
            invariant
                i <= 32,
                forall|j: int| 0 <= j < i ==> self.bytes@[j] == other.bytes@[j],
            decreases 32 - i,
        {
            if self.bytes[i] != other.bytes[i] {
                assert(self@[i as int] != other@[i as int]);
                return false;
            }
            i += 1;
        }
        assert(self@ =~= other@);
        assert(self.bytes =~= other.bytes);
        true
    }
}

/// An address is its 32 bytes: two addresses with the same bytes are the same.
pub proof fn address_is_its_bytes(one: Pubkey, other: Pubkey)
    ensures
        one@ == one.bytes@,
        one@.len() == 32,
        one@ == other@ <==> one == other,
{
    if one@ == other@ {
        assert(one.bytes =~= other.bytes);
    }
}

} // verus!
