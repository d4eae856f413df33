//! Account and contract addresses, and how they are written.

use ethers::types::H160;
use hex::FromHexError;
use vstd::prelude::*;

verus! {

/// A 20-byte account or contract address.
#[derive(Clone, Copy, Debug, PartialEq, Eq)]
pub struct Address {
    pub bytes: [u8; 20],
}

/// Why a text is not an address.
#[derive(Clone, Copy, Debug, PartialEq, Eq, Structural)]
pub enum AddressError {
    /// The text, without its `0x` prefix, is not an even number of
    /// hexadecimal digits.
    InvalidHex,
    /// The digits stand for more or fewer than 20 bytes.
    WrongLength,
}

/// The error of `hex::decode`. It is carried through unread: every such
/// error means that the text is no hexadecimal text.
#[verifier::external_type_specification]
#[verifier::external_body]
pub struct ExFromHexError(FromHexError);

/// Whether `c` is a hexadecimal digit, in either case.
pub open spec fn is_hex_digit(c: char) -> bool {
    ('0' <= c && c <= '9') || ('a' <= c && c <= 'f') || ('A' <= c && c <= 'F')
}

/// The value of a hexadecimal digit.
pub open spec fn hex_digit_value(c: char) -> nat
    recommends
        is_hex_digit(c),
{
    if '0' <= c && c <= '9' {
        (c as u32 - '0' as u32) as nat
    } else if 'a' <= c && c <= 'f' {
        (c as u32 - 'a' as u32 + 10) as nat
    } else {
        (c as u32 - 'A' as u32 + 10) as nat
    }
}

/// Whether `s` is an even number of hexadecimal digits and nothing else.
pub open spec fn is_hex_text(s: Seq<char>) -> bool {
    s.len() % 2 == 0 && forall|i: int| 0 <= i < s.len() ==> is_hex_digit(#[trigger] s[i])
}

/// The bytes that a hexadecimal text stands for: each pair of digits is one
/// byte, the first digit of the pair the high half.
pub open spec fn hex_bytes(s: Seq<char>) -> Seq<u8>
    recommends
        is_hex_text(s),
{
    Seq::new(
        s.len() / 2,
        |i: int| (hex_digit_value(s[2 * i]) * 16 + hex_digit_value(s[2 * i + 1])) as u8,
    )
}

/// `s` without its leading `0x`, however often that prefix is repeated.
pub open spec fn strip_0x(s: Seq<char>) -> Seq<char>
    decreases s.len(),
{
    if s.len() >= 2 && s[0] == '0' && s[1] == 'x' {
        strip_0x(s.subrange(2, s.len() as int))
    } else {
        s
    }
}

/// What a text means as an address: its bytes, or why it has none.
pub open spec fn parsed_address(s: Seq<char>) -> Result<Seq<u8>, AddressError> {
    let body = strip_0x(s);
    if !is_hex_text(body) {
        Err(AddressError::InvalidHex)
    } else if body.len() != 40 {
        Err(AddressError::WrongLength)
    } else {
        Ok(hex_bytes(body))
    }
}

/// `hex::decode` on a string. It succeeds exactly on an even number of
/// hexadecimal digits, upper or lower case, and then returns one byte for
/// each pair of digits, the first digit being the high half of the byte.
#[verifier::external_body]
fn hex_decode(text: &str) -> (r: Result<Vec<u8>, FromHexError>)
    ensures
        r is Ok <==> is_hex_text(text@),
        r matches Ok(bytes) ==> bytes@ == hex_bytes(text@),
{
    hex::decode(text)
}

/// The part of `s` behind its leading `0x` prefixes.
fn strip_0x_prefix(s: &str) -> (r: &str)
    ensures
        r@ == strip_0x(s@),
{
    let len = s.unicode_len();
    let mut start: usize = 0;
    assert(s@.subrange(0, len as int) =~= s@);
    while len - start >= 2 && s.get_char(start) == '0' && s.get_char(start + 1) == 'x'
        invariant
            start <= len,
            len == s@.len(),
            strip_0x(s@.subrange(start as int, len as int)) == strip_0x(s@),
        decreases len - start,
    {
        proof {
            let rest = s@.subrange(start as int, len as int);
            assert(rest.subrange(2, rest.len() as int) =~= s@.subrange(start + 2, len as int));
        }
        start = start + 2;
    }
    s.substring_char(start, len)
}

/// The lower-case character for a hexadecimal digit.
pub open spec fn hex_digit_char(v: nat) -> char
    recommends
        v < 16,
{
    if v < 10 {
        (('0' as u8) + v) as char
    } else {
        (('a' as u8) + (v - 10)) as char
    }
}

/// Two lower-case hexadecimal digits for each byte, high half first.
pub open spec fn hex_text(bytes: Seq<u8>) -> Seq<char> {
    Seq::new(
        2 * bytes.len(),
        |i: int|
            hex_digit_char(
                if i % 2 == 0 {
                    (bytes[i / 2] / 16) as nat
                } else {
                    (bytes[i / 2] % 16) as nat
                },
            ),
    )
}

/// An address as it is written: `0x` and its bytes in hexadecimal.
pub open spec fn address_text(bytes: Seq<u8>) -> Seq<char> {
    seq!['0', 'x'] + hex_text(bytes)
}

/// The `Debug` form of an `H160`: `0x`, then every byte as two lower-case
/// hexadecimal digits, none left out.
#[verifier::external_body]
pub(crate) fn h160_debug(address: &Address) -> (r: String)
    ensures
        r@ == address_text(address.bytes@),
{
    format!("{:?}", H160(address.bytes))
}

impl Address {
    /// Reads an address from hexadecimal text, with or without a `0x` prefix.
    pub fn parse(text: &str) -> (r: Result<Address, AddressError>)
        ensures
            match parsed_address(text@) {
                Ok(bytes) => r is Ok && r->Ok_0.bytes@ == bytes,
                Err(e) => r == Err::<Address, AddressError>(e),
            },
    {
        let body = strip_0x_prefix(text);
        match hex_decode(body) {
            Err(_) => Err(AddressError::InvalidHex),
            Ok(decoded) => {
                if decoded.len() != 20 {
                    return Err(AddressError::WrongLength);
                }
                let mut bytes = [0u8; 20];
                let mut i: usize = 0;
                while i < 20
                    invariant
                        i <= 20,
                        decoded@.len() == 20,
                        forall|j: int| 0 <= j < i ==> bytes@[j] == decoded@[j],
                    decreases 20 - i,
                {
                    bytes[i] = decoded[i];
                    i = i + 1;
                }
                assert(bytes@ =~= decoded@);
                Ok(Address { bytes })
            },
        }
    }
}

/// A hexadecimal digit character is a hexadecimal digit with the value it
/// was made from, and is not the letter of the prefix.
proof fn lemma_hex_digit_char(v: nat)
    requires
        v < 16,
    ensures
        is_hex_digit(hex_digit_char(v)),
        hex_digit_value(hex_digit_char(v)) == v,
        hex_digit_char(v) != 'x',
{
}

/// An address is read back from its own text.
pub proof fn lemma_address_text_parses(bytes: Seq<u8>)
    requires
        bytes.len() == 20,
    ensures
        parsed_address(address_text(bytes)) == Ok::<Seq<u8>, AddressError>(bytes),
{
    let hex = hex_text(bytes);
    let text = address_text(bytes);
    assert forall|i: int| 0 <= i < hex.len() implies is_hex_digit(#[trigger] hex[i]) && hex[i]
        != 'x' by {
        lemma_hex_digit_char((bytes[i / 2] / 16) as nat);
        lemma_hex_digit_char((bytes[i / 2] % 16) as nat);
    }
    assert(hex[1] != 'x');
    assert(strip_0x(hex) == hex);
    assert(text.subrange(2, text.len() as int) =~= hex);
    assert(strip_0x(text) == hex);
    assert forall|i: int| 0 <= i < bytes.len() implies hex_bytes(hex)[i] == bytes[i] by {
        lemma_hex_digit_char((bytes[i] / 16) as nat);
        lemma_hex_digit_char((bytes[i] % 16) as nat);
        assert(hex[2 * i] == hex_digit_char((bytes[i] / 16) as nat));
        assert(hex[2 * i + 1] == hex_digit_char((bytes[i] % 16) as nat));
    }
    assert(hex_bytes(hex) =~= bytes);
}

} // verus!
