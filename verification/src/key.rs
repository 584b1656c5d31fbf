use vstd::prelude::*;
use crate::error::TransferError;

verus! {

/// The length of a secret key in bytes (256 bits).
pub const KEY_LEN: usize = 32;

/// Whether `c` is one of `0-9`, `a-f`, `A-F`.
pub open spec fn is_hex_digit(c: char) -> bool {
    ('0' <= c && c <= '9') || ('a' <= c && c <= 'f') || ('A' <= c && c <= 'F')
}

/// The number that a hexadecimal digit stands for.
pub open spec fn hex_value(c: char) -> int {
    if '0' <= c && c <= '9' {
        c as int - '0' as int
    } else if 'a' <= c && c <= 'f' {
        c as int - 'a' as int + 10
    } else {
        c as int - 'A' as int + 10
    }
}

/// Whether `text` is an even number of hexadecimal digits.
pub open spec fn is_hex_text(text: Seq<char>) -> bool {
    text.len() % 2 == 0 && forall|i: int| 0 <= i < text.len() ==> is_hex_digit(#[trigger] text[i])
}

/// The bytes that hexadecimal text stands for: two digits a byte, the high
/// digit first.
pub open spec fn hex_bytes(text: Seq<char>) -> Seq<u8> {
    Seq::new(
        text.len() / 2,
        |i: int| (hex_value(text[2 * i]) * 16 + hex_value(text[2 * i + 1])) as u8,
    )
}

/// What a key on the wire parses to: its 32 bytes, or why it is refused.
pub open spec fn parse_key(text: Seq<char>) -> Result<Seq<u8>, TransferError> {
    if text.len() == 0 || !is_hex_text(text) {
        Err(TransferError::InvalidInput)
    } else if text.len() != 2 * KEY_LEN {
        Err(TransferError::InvalidKeyLength)
    } else {
        Ok(hex_bytes(text))
    }
}

/// The error of `hex::decode`. Nothing is read from it: that there is one
/// is all that matters here.
#[verifier::external_type_specification]
#[verifier::external_body]
pub struct ExFromHexError(hex::FromHexError);

/// `hex::decode` on a string. It succeeds exactly on an even number of
/// hexadecimal digits of either case, and then returns one byte for each pair
/// of digits, the first digit of a pair in the high four bits. (It reads the
/// string's bytes; any character outside ASCII holds a byte that is no digit.)
#[verifier::external_body]
fn hex_decode(text: &str) -> (decoded: Result<Vec<u8>, hex::FromHexError>)
    ensures
        decoded is Ok <==> is_hex_text(text@),
        decoded is Ok ==> decoded->Ok_0@ == hex_bytes(text@),
{
    hex::decode(text)
}

/// A 256-bit symmetric key. It lives for one request and is never stored.
pub struct SecretKey {
    bytes: Vec<u8>,
}

impl SecretKey {
    #[verifier::type_invariant]
    spec fn well_formed(&self) -> bool {
        self.bytes@.len() == KEY_LEN
    }

    /// The 32 bytes of the key.
    pub closed spec fn view(&self) -> Seq<u8> {
        self.bytes@
    }

    /// A key from its bytes: `InvalidKeyLength` unless there are 32 of them.
    pub fn from_bytes(bytes: Vec<u8>) -> (key: Result<SecretKey, TransferError>)
        ensures
            bytes@.len() == KEY_LEN ==> key is Ok && key->Ok_0@ == bytes@,
            bytes@.len() != KEY_LEN ==> key == Err::<SecretKey, TransferError>(
                TransferError::InvalidKeyLength,
            ),
    {
        if bytes.len() == KEY_LEN {
            Ok(SecretKey { bytes })
        } else {
            Err(TransferError::InvalidKeyLength)
        }
    }

    /// A key from its form on the wire, 64 hexadecimal digits. Empty text and
    /// text that is not hexadecimal are `InvalidInput`; hexadecimal text of
    /// another length is `InvalidKeyLength`.
    pub fn from_hex(text: &str) -> (key: Result<SecretKey, TransferError>)
        ensures
            match parse_key(text@) {
                Ok(bytes) => key is Ok && key->Ok_0@ == bytes,
                Err(reason) => key == Err::<SecretKey, TransferError>(reason),
            },
    {
        if text.is_empty() {
            return Err(TransferError::InvalidInput);
        }
        match hex_decode(text) {
            Err(_) => Err(TransferError::InvalidInput),
            Ok(bytes) => {
                if bytes.len() == KEY_LEN {
                    Ok(SecretKey { bytes })
                } else {
                    Err(TransferError::InvalidKeyLength)
                }
            },
        }
    }

    /// The key's bytes.
    pub fn as_bytes(&self) -> (bytes: &Vec<u8>)
        ensures
            bytes@ == self@,
            bytes@.len() == KEY_LEN,
    {
        proof {
            use_type_invariant(self);
        }
        &self.bytes
    }
}

} // verus!
