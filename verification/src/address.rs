//! Account addresses and their bech32 text form.

use vstd::prelude::*;

verus! {

/// Number of bytes in an account address.
pub const ADDRESS_LEN: usize = 32;

/// The raw bytes of an account address.
#[derive(Clone, Copy, Debug, PartialEq, Eq)]
pub struct Address {
    pub bytes: [u8; 32],
}

impl View for Address {
    type V = Seq<u8>;

    open spec fn view(&self) -> Seq<u8> {
        self.bytes@
    }
}

/// The bech32 text that the chain's tooling writes for an address, as
/// `multiversx_sc_scenario::bech32::encode` produces it.
pub uninterp spec fn erd_bech32(address: Seq<u8>) -> Seq<char>;

/// The data bytes that `bech32::decode` reads from a text, or `None` where it
/// rejects the text.
pub uninterp spec fn bech32_payload(text: Seq<char>) -> Option<Seq<u8>>;

/// The address that a text stands for: its bech32 payload, provided that the
/// text decodes and the payload has the length of an address.
pub open spec fn spec_decode(text: Seq<char>) -> Option<Seq<u8>> {
    match bech32_payload(text) {
        Some(payload) => if payload.len() == ADDRESS_LEN {
            Some(payload)
        } else {
            None
        },
        None => None,
    }
}

/// Calls `multiversx_sc_scenario::bech32::encode`, which writes the address
/// with the prefix `erd` and a bech32 checksum. Trusted: the result is the
/// named encoding of the address.
#[verifier::external_body]
fn erd_encode(address: &Address) -> (text: String)
    ensures
        text@ == erd_bech32(address@),
{
    multiversx_sc_scenario::bech32::encode(&multiversx_sc::types::Address::from(&address.bytes))
}

/// Calls `bech32::decode` and keeps the data bytes, dropping the
/// human-readable prefix. Trusted: the result is the named payload of the
/// text, `None` where the text is rejected.
#[verifier::external_body]
fn payload_of(text: &str) -> (payload: Option<Vec<u8>>)
    ensures
        match payload {
            Some(bytes) => bech32_payload(text@) == Some(bytes@),
            None => bech32_payload(text@) is None,
        },
{
    match bech32::decode(text) {
        Ok((_, bytes)) => Some(bytes),
        Err(_) => None,
    }
}

impl Address {
    /// Builds an address from a decoded payload: the payload itself where it
    /// has exactly 32 bytes, nothing otherwise.
    pub fn from_payload(payload: &Vec<u8>) -> (address: Option<Address>)
        ensures
            match address {
                Some(a) => payload@.len() == ADDRESS_LEN && a@ == payload@,
                None => payload@.len() != ADDRESS_LEN,
            },
    {
        if payload.len() != ADDRESS_LEN {
            return None;
        }
        let mut bytes = [0u8; 32];
        let mut i: usize = 0;
        while i < ADDRESS_LEN
            invariant
                i <= ADDRESS_LEN,
                payload@.len() == ADDRESS_LEN,
                forall|j: int| 0 <= j < i ==> bytes@[j] == payload@[j],
            decreases ADDRESS_LEN - i,
        {
            bytes[i] = payload[i];
            i += 1;
        }
        assert(bytes@ =~= payload@);
        Some(Address { bytes })
    }
}

/// Writes an address in bech32.
pub fn encode(address: &Address) -> (text: String)
    ensures
        text@ == erd_bech32(address@),
{
    erd_encode(address)
}

/// Reads an address from its bech32 text. Texts that do not decode, or that
/// carry anything but 32 bytes, give `None`.
pub fn decode(bech32_address: &str) -> (address: Option<Address>)
    ensures
        match address {
            Some(a) => spec_decode(bech32_address@) == Some(a@),
            None => spec_decode(bech32_address@) is None,
        },
{
    match payload_of(bech32_address) {
        Some(payload) => Address::from_payload(&payload),
        None => None,
    }
}

/// An address kept together with its bech32 text, so that neither has to be
/// computed again. The text always decodes to the address.
#[derive(Debug)]
pub struct Bech32Address {
    address: Address,
    bech32: String,
}

impl View for Bech32Address {
    type V = Seq<char>;

    /// The bech32 text.
    closed spec fn view(&self) -> Seq<char> {
        self.bech32@
    }
}

impl Bech32Address {
    #[verifier::type_invariant]
    spec fn coherent(&self) -> bool {
        spec_decode(self.bech32@) == Some(self.address@)
    }

    /// The bytes of the address.
    pub closed spec fn spec_address(&self) -> Seq<u8> {
        self.address@
    }

    /// Decodes a bech32 text and keeps it beside the address it stands for.
    /// Returns `None` exactly when the text does not decode to an address.
    pub fn from_bech32_string(bech32: String) -> (result: Option<Self>)
        ensures
            match result {
                Some(b) => b@ == bech32@ && spec_decode(bech32@) == Some(b.spec_address()),
                None => spec_decode(bech32@) is None,
            },
    {
        match decode(bech32.as_str()) {
            Some(address) => Some(Bech32Address { address, bech32 }),
            None => None,
        }
    }

    /// The bech32 text.
    pub fn to_bech32_str(&self) -> (text: &str)
        ensures
            text@ == self@,
    {
        self.bech32.as_str()
    }

    /// The address.
    pub fn as_address(&self) -> (address: &Address)
        ensures
            address@ == self.spec_address(),
            spec_decode(self@) == Some(address@),
    {
        proof {
            use_type_invariant(self);
        }
        &self.address
    }
}

} // verus!
