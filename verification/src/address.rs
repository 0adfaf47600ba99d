//! Ledger addresses and their textual encoding.

use std::str::FromStr;
use vstd::prelude::*;

verus! {

/// A 32-byte ledger address.
#[derive(Clone, Copy, Debug, PartialEq, Eq)]
pub struct Address {
    pub bytes: [u8; 32],
}

impl View for Address {
    type V = Seq<u8>;

    open spec fn view(&self) -> Seq<u8> {
        self.bytes@
    }
}

/// The base58 text that the ledger's key type displays for 32 bytes.
pub uninterp spec fn base58_text(key: Seq<u8>) -> Seq<char>;

/// The 32 bytes that the ledger's key type parses from a text, if any.
pub uninterp spec fn base58_address(text: Seq<char>) -> Option<Seq<u8>>;

/// `Pubkey`'s `Display` through `to_string`: the result is a function of the
/// 32 bytes alone, named `base58_text`.
#[verifier::external_body]
fn encode_base58(bytes: &[u8; 32]) -> (text: String)
    ensures
        text@ == base58_text(bytes@),
{
    solana_program::pubkey::Pubkey::new_from_array(*bytes).to_string()
}

/// `Pubkey::from_str`: the result is a function of the text alone, named
/// `base58_address`; a parse error becomes `None`.
#[verifier::external_body]
fn decode_base58(text: &str) -> (key: Option<[u8; 32]>)
    ensures
        match key {
            Some(bytes) => base58_address(text@) == Some(bytes@),
            None => base58_address(text@) is None,
        },
{
    solana_program::pubkey::Pubkey::from_str(text).ok().map(|key| key.to_bytes())
}

/// Two addresses with the same bytes are the same address.
pub proof fn lemma_address_ext(a: Address, b: Address)
    ensures
        a@ == b@ <==> a == b,
{
    if a@ == b@ {
        assert(a.bytes =~= b.bytes);
    }
}

impl Address {
    pub fn new(bytes: [u8; 32]) -> (address: Address)
        ensures
            address@ == bytes@,
    {
        Address { bytes }
    }

    /// Byte-for-byte comparison over the full address.
    pub fn same_as(&self, other: &Address) -> (same: bool)
        ensures
            same == (self@ == other@),
            same == (*self == *other),
    {
        proof {
            lemma_address_ext(*self, *other);
        }
        let mut i: usize = 0;
        while i < 32
            invariant
                i <= 32,
                forall|j: int| 0 <= j < i ==> self.bytes@[j] == other.bytes@[j],
            decreases 32 - i,
        {
            if self.bytes[i] != other.bytes[i] {
                return false;
            }
            i += 1;
        }
        assert(self@ =~= other@);
        true
    }

    /// The address as base58 text.
    pub fn text(&self) -> (text: String)
        ensures
            text@ == base58_text(self@),
    {
        encode_base58(&self.bytes)
    }

    /// Reads an address from base58 text; `None` where the text does not
    /// encode exactly 32 bytes.
    pub fn parse(text: &str) -> (address: Option<Address>)
        ensures
            match address {
                Some(a) => base58_address(text@) == Some(a@),
                None => base58_address(text@) is None,
            },
    {
        match decode_base58(text) {
            Some(bytes) => Some(Address { bytes }),
            None => None,
        }
    }
}

} // verus!
