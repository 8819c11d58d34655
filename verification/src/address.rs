//! Account addresses and the fixed-width encodings bound into a proof.

use std::str::FromStr;
use vstd::prelude::*;

verus! {

/// Number of bytes in an account address.
pub const ADDRESS_LEN: usize = 20;

/// Number of bytes in the big-endian word that carries a chain id.
pub const WORD_LEN: usize = 32;

/// The value of one hexadecimal digit, in either case.
pub open spec fn hex_value(c: char) -> Option<u8> {
    if '0' <= c <= '9' {
        Some((c as u32 - '0' as u32) as u8)
    } else if 'a' <= c <= 'f' {
        Some((c as u32 - 'a' as u32 + 10) as u8)
    } else if 'A' <= c <= 'F' {
        Some((c as u32 - 'A' as u32 + 10) as u8)
    } else {
        None
    }
}

/// The text without a leading `0x` or `0X`.
pub open spec fn strip_hex_prefix(text: Seq<char>) -> Seq<char> {
    if text.len() >= 2 && text[0] == '0' && (text[1] == 'x' || text[1] == 'X') {
        text.skip(2)
    } else {
        text
    }
}

/// The address that a text denotes: exactly forty hexadecimal digits after
/// an optional prefix, two digits to the byte, high digit first. Any other
/// text denotes no address.
pub open spec fn spec_parse_address(text: Seq<char>) -> Option<Seq<u8>> {
    let digits = strip_hex_prefix(text);
    if digits.len() == 2 * ADDRESS_LEN && forall|i: int|
        0 <= i < digits.len() ==> hex_value(#[trigger] digits[i]) is Some {
        Some(
            Seq::new(
                ADDRESS_LEN as nat,
                |i: int|
                    (hex_value(digits[2 * i])->0 * 16 + hex_value(digits[2 * i + 1])->0) as u8,
            ),
        )
    } else {
        None
    }
}

/// The 32-byte big-endian word of a chain id that fits in 32 bits.
pub open spec fn spec_chain_id_word(chain_id: int) -> Seq<u8> {
    Seq::new(
        WORD_LEN as nat,
        |i: int|
            if i == 28 {
                (chain_id / 0x100_0000 % 256) as u8
            } else if i == 29 {
                (chain_id / 0x1_0000 % 256) as u8
            } else if i == 30 {
                (chain_id / 0x100 % 256) as u8
            } else if i == 31 {
                (chain_id % 256) as u8
            } else {
                0u8
            },
    )
}

/// Parses an address with `alloy_primitives::Address::from_str`.
///
/// Trusted: the parser accepts exactly the texts that `spec_parse_address`
/// accepts and decodes them to the same twenty bytes; it checks no checksum.
#[verifier::external_body]
fn parse_address_bytes(text: &str) -> (parsed: Option<[u8; 20]>)
    ensures
        match parsed {
            Some(bytes) => spec_parse_address(text@) == Some(bytes@),
            None => spec_parse_address(text@) is None,
        },
{
    match alloy_primitives::Address::from_str(text) {
        Ok(address) => Some(address.into_array()),
        Err(_) => None,
    }
}

/// Encodes a chain id with `alloy_primitives::U256::from` and `to_be_bytes`.
///
/// Trusted: the result is the 256-bit big-endian encoding of the number. The
/// conversion panics on a negative number, which `requires` leaves out.
#[verifier::external_body]
pub(crate) fn chain_id_word_bytes(chain_id: i32) -> (word: [u8; 32])
    requires
        chain_id >= 0,
    ensures
        word@ == spec_chain_id_word(chain_id as int),
{
    alloy_primitives::U256::from(chain_id).to_be_bytes::<32>()
}

/// A twenty-byte account address.
#[derive(Clone, Copy, Debug)]
pub struct Address {
    bytes: [u8; 20],
}

impl View for Address {
    type V = Seq<u8>;

    closed spec fn view(&self) -> Seq<u8> {
        self.bytes@
    }
}

impl Address {
    /// Every address has twenty bytes.
    pub proof fn lemma_len(&self)
        ensures
            self@.len() == ADDRESS_LEN,
    {
    }

    /// The address with the given bytes.
    pub fn from_bytes(bytes: [u8; 20]) -> (address: Address)
        ensures
            address@ == bytes@,
    {
        Address { bytes }
    }

    /// Reads an address from text: forty hexadecimal digits, optionally
    /// prefixed by `0x`. Returns `None` for any other text.
    pub fn parse(text: &str) -> (parsed: Option<Address>)
        ensures
            match parsed {
                Some(address) => spec_parse_address(text@) == Some(address@),
                None => spec_parse_address(text@) is None,
            },
    {
        match parse_address_bytes(text) {
            Some(bytes) => Some(Address { bytes }),
            None => None,
        }
    }

    /// The bytes of the address.
    pub fn to_bytes(&self) -> (bytes: [u8; 20])
        ensures
            bytes@ == self@,
    {
        self.bytes
    }

    /// Whether two addresses hold the same bytes.
    pub fn same_as(&self, other: &Address) -> (same: bool)
        ensures
            same == (self@ == other@),
    {
        let mut i: usize = 0;
        while i < 20
            invariant
                i <= 20,
                forall|j: int| 0 <= j < i ==> self.bytes@[j] == other.bytes@[j],
            decreases 20 - i,
        {
            if self.bytes[i] != other.bytes[i] {
                return false;
            }
            i += 1;
        }
        assert(self.bytes@ =~= other.bytes@);
        true
    }
}

/// The big-endian word of a chain id, or `None` for a negative one.
pub fn chain_id_word(chain_id: i32) -> (word: Option<[u8; 32]>)
    ensures
        match word {
            Some(bytes) => chain_id >= 0 && bytes@ == spec_chain_id_word(chain_id as int),
            None => chain_id < 0,
        },
{
    if chain_id < 0 {
        None
    } else {
        Some(chain_id_word_bytes(chain_id))
    }
}

/// Two chain ids with the same word are the same chain id.
pub proof fn lemma_chain_id_word_injective(a: int, b: int)
    requires
        0 <= a < 0x1_0000_0000,
        0 <= b < 0x1_0000_0000,
        spec_chain_id_word(a) == spec_chain_id_word(b),
    ensures
        a == b,
{
    let wa = spec_chain_id_word(a);
    let wb = spec_chain_id_word(b);
    assert(wa[28] == wb[28] && wa[29] == wb[29] && wa[30] == wb[30] && wa[31] == wb[31]);
}

} // verus!
