//! The signer: a keyed SHA-256 message authentication code, rendered as
//! lowercase hexadecimal.

use vstd::prelude::*;
use vstd::string::*;
use crate::error::Error;
use hmac::Hmac;
use hmac::Mac;
use sha2::Sha256;

verus! {

/// The HMAC-SHA256 code of `message` under `key`.
pub uninterp spec fn hmac_sha256(key: Seq<u8>, message: Seq<u8>) -> Seq<u8>;

/// The number of bytes in a code.
pub const CODE_LEN: usize = 32;

/// The number of characters in a signature.
pub const SIGNATURE_LEN: usize = 64;

/// The character for a value below sixteen: a digit, or a lowercase letter
/// from `a` to `f`.
pub open spec fn hex_char(n: int) -> char {
    if n == 0 {
        '0'
    } else if n == 1 {
        '1'
    } else if n == 2 {
        '2'
    } else if n == 3 {
        '3'
    } else if n == 4 {
        '4'
    } else if n == 5 {
        '5'
    } else if n == 6 {
        '6'
    } else if n == 7 {
        '7'
    } else if n == 8 {
        '8'
    } else if n == 9 {
        '9'
    } else if n == 10 {
        'a'
    } else if n == 11 {
        'b'
    } else if n == 12 {
        'c'
    } else if n == 13 {
        'd'
    } else if n == 14 {
        'e'
    } else {
        'f'
    }
}

/// Whether `c` is a digit or a lowercase letter from `a` to `f`.
pub open spec fn is_lower_hex(c: char) -> bool {
    exists|n: int| 0 <= n < 16 && c == #[trigger] hex_char(n)
}

/// Two characters for each byte, the high half first.
pub open spec fn hex_lower(bytes: Seq<u8>) -> Seq<char> {
    Seq::new(
        2 * bytes.len(),
        |i: int| if i % 2 == 0 {
            hex_char(bytes[i / 2] as int / 16)
        } else {
            hex_char(bytes[i / 2] as int % 16)
        },
    )
}

/// What `sign` returns for a secret and a message, both as bytes.
pub open spec fn signature(secret: Seq<u8>, message: Seq<u8>) -> Seq<char> {
    hex_lower(hmac_sha256(secret, message))
}

/// The hexadecimal text of a byte sequence has twice its length and holds
/// lowercase hexadecimal characters only.
pub proof fn lemma_hex_lower_shape(bytes: Seq<u8>)
    ensures
        hex_lower(bytes).len() == 2 * bytes.len(),
        forall|i: int| 0 <= i < hex_lower(bytes).len() ==> is_lower_hex(#[trigger] hex_lower(bytes)[i]),
{
    assert forall|i: int| 0 <= i < hex_lower(bytes).len() implies is_lower_hex(
        #[trigger] hex_lower(bytes)[i],
    ) by {
        let b = bytes[i / 2] as int;
        if i % 2 == 0 {
            assert(hex_lower(bytes)[i] == hex_char(b / 16));
        } else {
            assert(hex_lower(bytes)[i] == hex_char(b % 16));
        }
    }
}

/// Two texts with the same bytes are the same text: messages that differ
/// are signed as bytes that differ.
pub proof fn lemma_bytes_bind_text(a: Seq<char>, b: Seq<char>)
    requires
        vstd::utf8::encode_utf8(a) == vstd::utf8::encode_utf8(b),
    ensures
        a == b,
{
    vstd::utf8::encode_utf8_decode_utf8(a);
    vstd::utf8::encode_utf8_decode_utf8(b);
}

/// A hexadecimal text holds visible ASCII characters only.
pub proof fn lemma_hex_lower_visible(bytes: Seq<u8>)
    ensures
        forall|i: int| 0 <= i < hex_lower(bytes).len() ==> ' ' <= #[trigger] hex_lower(bytes)[i] <= '~',
{
}

/// Hexadecimal rendering loses nothing: equal texts come from equal bytes.
pub proof fn lemma_hex_lower_injective(a: Seq<u8>, b: Seq<u8>)
    requires
        hex_lower(a) == hex_lower(b),
    ensures
        a == b,
{
    assert(hex_lower(a).len() == 2 * a.len());
    assert(hex_lower(b).len() == 2 * b.len());
    assert forall|k: int| 0 <= k < a.len() implies a[k] == b[k] by {
        let x = a[k] as int;
        let y = b[k] as int;
        assert(hex_lower(a)[2 * k] == hex_char(x / 16));
        assert(hex_lower(b)[2 * k] == hex_char(y / 16));
        assert(hex_lower(a)[2 * k + 1] == hex_char(x % 16));
        assert(hex_lower(b)[2 * k + 1] == hex_char(y % 16));
        assert(0 <= x / 16 < 16 && 0 <= y / 16 < 16);
        assert(0 <= x % 16 < 16 && 0 <= y % 16 < 16);
        assert(x / 16 == y / 16);
        assert(x % 16 == y % 16);
    }
    assert(a =~= b);
}

fn hex_text(n: u8) -> (text: &'static str)
    requires
        n < 16,
    ensures
        text@ == seq![hex_char(n as int)],
{
    proof {
        reveal_strlit("0");
        reveal_strlit("1");
        reveal_strlit("2");
        reveal_strlit("3");
        reveal_strlit("4");
        reveal_strlit("5");
        reveal_strlit("6");
        reveal_strlit("7");
        reveal_strlit("8");
        reveal_strlit("9");
        reveal_strlit("a");
        reveal_strlit("b");
        reveal_strlit("c");
        reveal_strlit("d");
        reveal_strlit("e");
        reveal_strlit("f");
    }
    let text = if n == 0 {
        "0"
    } else if n == 1 {
        "1"
    } else if n == 2 {
        "2"
    } else if n == 3 {
        "3"
    } else if n == 4 {
        "4"
    } else if n == 5 {
        "5"
    } else if n == 6 {
        "6"
    } else if n == 7 {
        "7"
    } else if n == 8 {
        "8"
    } else if n == 9 {
        "9"
    } else if n == 10 {
        "a"
    } else if n == 11 {
        "b"
    } else if n == 12 {
        "c"
    } else if n == 13 {
        "d"
    } else if n == 14 {
        "e"
    } else {
        "f"
    };
    assert(text@ =~= seq![hex_char(n as int)]);
    text
}

/// Renders bytes as lowercase hexadecimal.
pub fn to_hex(bytes: &[u8]) -> (text: String)
    ensures
        text@ == hex_lower(bytes@),
{
    let mut text = String::new();
    let mut i: usize = 0;
    while i < bytes.len()
        invariant
            0 <= i <= bytes.len(),
            text@ == hex_lower(bytes@.subrange(0, i as int)),
        decreases bytes.len() - i,
    {
        let byte: u8 = bytes[i];
        let ghost before = text@;
        text.append(hex_text(byte / 16));
        text.append(hex_text(byte % 16));
        proof {
            let shorter = bytes@.subrange(0, i as int);
            let longer = bytes@.subrange(0, i + 1);
            assert(before == hex_lower(shorter));
            assert forall|k: int| 0 <= k < 2 * (i + 1) implies text@[k] == hex_lower(longer)[k] by {
                if k < 2 * i {
                    assert(text@[k] == hex_lower(shorter)[k]);
                    assert(shorter[k / 2] == longer[k / 2]);
                }
            }
            assert(text@ =~= hex_lower(longer));
        }
        i += 1;
    }
    assert(bytes@.subrange(0, i as int) =~= bytes@);
    text
}

/// Computes a code with `Hmac::<Sha256>::new_varkey`, `input`, `result` and
/// `code` of the `hmac` crate. The contract claims that the code is the
/// HMAC-SHA256 of the message under the key, that it has thirty-two bytes,
/// and that a key of any length is taken: `new_varkey` pads a short key and
/// hashes a long one, and has no failing path.
#[verifier::external_body]
fn keyed_code(key: &[u8], message: &[u8]) -> (r: Result<Vec<u8>, crypto_mac::InvalidKeyLength>)
    ensures
        r is Ok,
        r matches Ok(code) ==> code@ == hmac_sha256(key@, message@) && code@.len() == CODE_LEN,
{
    let mut mac = Hmac::<Sha256>::new_varkey(key)?;
    mac.input(message);
    Ok(mac.result().code().to_vec())
}

/// Signs `message` with `secret`: the code of the message's UTF-8 bytes
/// under the secret, as sixty-four lowercase hexadecimal characters. The
/// same secret and message always give the same signature.
pub fn sign(secret: &[u8], message: &str) -> (r: Result<String, Error>)
    ensures
        r matches Ok(text) && text@ == signature(secret@, message.spec_bytes()),
        r matches Ok(text) && text@.len() == SIGNATURE_LEN,
        r matches Ok(text) && forall|i: int| 0 <= i < text@.len() ==> is_lower_hex(#[trigger] text@[i]),
{
    match keyed_code(secret, message.as_bytes()) {
        Ok(code) => {
            let text = to_hex(code.as_slice());
            proof {
                lemma_hex_lower_shape(code@);
            }
            Ok(text)
        },
        Err(other) => Err(Error::from(other)),
    }
}

} // verus!
