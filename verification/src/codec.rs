//! Byte encodings and authenticated encryption, from their crates.

use vstd::prelude::*;
use aes_gcm::aead::{Aead, KeyInit};
use base64::Engine;

verus! {

/// Largest plaintext AES-GCM accepts, in bytes.
pub const AES_GCM_P_MAX: u64 = 0x10_0000_0000;

/// Standard (padded) base64 text of `bytes`.
pub uninterp spec fn spec_b64_encode(bytes: Seq<u8>) -> Seq<char>;

/// The bytes that standard base64 text decodes to, `None` when it is not valid.
pub uninterp spec fn spec_b64_decode(text: Seq<char>) -> Option<Seq<u8>>;

/// The value of a hexadecimal digit of either case.
pub open spec fn hex_digit_value(c: char) -> Option<int> {
    if '0' <= c && c <= '9' {
        Some(c as int - '0' as int)
    } else if 'a' <= c && c <= 'f' {
        Some(c as int - 'a' as int + 10)
    } else if 'A' <= c && c <= 'F' {
        Some(c as int - 'A' as int + 10)
    } else {
        None
    }
}

/// The bytes that hexadecimal text decodes to, two digits of either case
/// per byte, high digit first; `None` for an odd length or a character
/// that is not a hexadecimal digit.
pub open spec fn spec_hex_decode(text: Seq<char>) -> Option<Seq<u8>>
    decreases text.len(),
{
    if text.len() == 0 {
        Some(Seq::empty())
    } else if text.len() == 1 {
        None
    } else {
        match (hex_digit_value(text[0]), hex_digit_value(text[1])) {
            (Some(h), Some(l)) => match spec_hex_decode(text.skip(2)) {
                Some(rest) => Some(seq![(h * 16 + l) as u8] + rest),
                None => None,
            },
            _ => None,
        }
    }
}

/// AES-256-GCM ciphertext (with its 16-byte tag appended) of `plaintext`.
pub uninterp spec fn spec_aes_gcm_seal(key: Seq<u8>, nonce: Seq<u8>, plaintext: Seq<u8>) -> Seq<u8>;

/// The plaintext of AES-256-GCM `ciphertext`, `None` when it does not authenticate.
pub uninterp spec fn spec_aes_gcm_open(key: Seq<u8>, nonce: Seq<u8>, ciphertext: Seq<u8>) -> Option<Seq<u8>>;

/// A character of the standard base64 alphabet, or its padding `=`.
pub open spec fn is_b64_char(c: char) -> bool {
    ('A' <= c && c <= 'Z') || ('a' <= c && c <= 'z') || ('0' <= c && c <= '9') || c == '+' || c == '/' || c == '='
}

/// The length of the padded base64 text of `n` bytes: four characters per
/// started group of three bytes.
pub open spec fn b64_len(n: nat) -> nat {
    4 * ((n + 2) / 3)
}

/// `base64::engine::general_purpose::STANDARD.encode`: padded text of the
/// standard alphabet, four characters per started group of three bytes
/// (the encoder panics when that length overflows `usize`).
#[verifier::external_body]
pub(crate) fn b64_encode(bytes: &[u8]) -> (r: String)
    requires
        b64_len(bytes@.len()) <= usize::MAX,
    ensures
        r@ == spec_b64_encode(bytes@),
        r@.len() == b64_len(bytes@.len()),
        forall|i: int| 0 <= i < r@.len() ==> is_b64_char(#[trigger] r@[i]),
{
    base64::engine::general_purpose::STANDARD.encode(bytes)
}

/// `base64::engine::general_purpose::STANDARD.decode`; text that `encode`
/// produced decodes to the bytes it was produced from. The engine rejects
/// any byte outside the standard alphabet and its padding, and (requiring
/// canonical padding) any text whose length is not a multiple of four.
#[verifier::external_body]
pub(crate) fn b64_decode(text: &str) -> (r: Option<Vec<u8>>)
    ensures
        r is Some <==> spec_b64_decode(text@) is Some,
        (exists|i: int| 0 <= i < text@.len() && !is_b64_char(#[trigger] text@[i])) ==> r is None,
        text@.len() % 4 != 0 ==> r is None,
        r matches Some(b) ==> spec_b64_decode(text@) == Some(b@),
        r is None ==> forall|b: Seq<u8>| text@ != #[trigger] spec_b64_encode(b),
        r matches Some(x) ==> forall|b: Seq<u8>| text@ == #[trigger] spec_b64_encode(b) ==> x@ == b,
{
    match base64::engine::general_purpose::STANDARD.decode(text) {
        Ok(b) => Some(b),
        Err(_) => None,
    }
}

/// `hex::decode`: pairs of digits of either case, each pair one byte;
/// an odd length or any other character is an error.
#[verifier::external_body]
pub(crate) fn hex_decode(text: &str) -> (r: Option<Vec<u8>>)
    ensures
        r is Some <==> spec_hex_decode(text@) is Some,
        r matches Some(b) ==> spec_hex_decode(text@) == Some(b@),
{
    match hex::decode(text) {
        Ok(b) => Some(b),
        Err(_) => None,
    }
}

/// `Aes256Gcm::new_from_slice(key)` and `encrypt(nonce, plaintext)`: fails
/// only for a plaintext over 2^36 bytes; the ciphertext is 16 bytes longer.
#[verifier::external_body]
pub(crate) fn aes_gcm_seal(key: &[u8], nonce: &[u8], plaintext: &[u8]) -> (r: Option<Vec<u8>>)
    requires
        key@.len() == 32,
        nonce@.len() == 12,
    ensures
        r is Some <==> plaintext@.len() <= AES_GCM_P_MAX,
        r matches Some(c) ==> c@ == spec_aes_gcm_seal(key@, nonce@, plaintext@) && c@.len() == plaintext@.len() + 16,
{
    match aes_gcm::Aes256Gcm::new_from_slice(key) {
        Ok(cipher) => match cipher.encrypt(aes_gcm::Nonce::from_slice(nonce), plaintext) {
            Ok(c) => Some(c),
            Err(_) => None,
        },
        Err(_) => None,
    }
}

/// `Aes256Gcm::new_from_slice(key)` and `decrypt(nonce, ciphertext)`; a
/// ciphertext sealed under the same key and nonce opens to its plaintext.
#[verifier::external_body]
pub(crate) fn aes_gcm_open(key: &[u8], nonce: &[u8], ciphertext: &[u8]) -> (r: Option<Vec<u8>>)
    requires
        key@.len() == 32,
        nonce@.len() == 12,
    ensures
        r is Some <==> spec_aes_gcm_open(key@, nonce@, ciphertext@) is Some,
        r matches Some(p) ==> spec_aes_gcm_open(key@, nonce@, ciphertext@) == Some(p@),
        r is None ==> forall|p: Seq<u8>|
            p.len() <= AES_GCM_P_MAX ==> ciphertext@ != #[trigger] spec_aes_gcm_seal(key@, nonce@, p),
        r matches Some(x) ==> forall|p: Seq<u8>|
            p.len() <= AES_GCM_P_MAX && ciphertext@ == #[trigger] spec_aes_gcm_seal(key@, nonce@, p)
                ==> x@ == p,
{
    match aes_gcm::Aes256Gcm::new_from_slice(key) {
        Ok(cipher) => match cipher.decrypt(aes_gcm::Nonce::from_slice(nonce), ciphertext) {
            Ok(p) => Some(p),
            Err(_) => None,
        },
        Err(_) => None,
    }
}

/// `rand::random::<[u8; 12]>()`: a fresh random nonce.
#[verifier::external_body]
pub(crate) fn random_nonce() -> (r: [u8; 12]) {
    rand::random::<[u8; 12]>()
}

} // verus!
