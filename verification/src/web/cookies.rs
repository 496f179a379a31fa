//! Encrypted session cookies: AES-256-GCM under a 32-byte key, with a fresh
//! 12-byte nonce in front of the ciphertext, the whole in standard base64.

use vstd::prelude::*;
use crate::clock::now_timestamp;
use crate::codec::{b64_len, is_b64_char, spec_b64_encode, spec_b64_decode, spec_hex_decode, spec_aes_gcm_seal, spec_aes_gcm_open, b64_encode, b64_decode, hex_decode, aes_gcm_seal, aes_gcm_open, random_nonce, AES_GCM_P_MAX};


verus! {

/// Name of the session cookie.
pub open spec fn session_cookie_name() -> Seq<char> {
    "thunderbot_session"@
}

/// Attributes appended to the cookie value when it is set.
pub open spec fn session_cookie_attributes() -> Seq<char> {
    "; HttpOnly; Secure; SameSite=Strict; Max-Age=28800"@
}

/// A signed-in dashboard user.
#[derive(Clone, Debug)]
pub struct UserSession {
    pub did: String,
    pub handle: String,
    pub access_jwt: String,
    pub refresh_jwt: String,
    /// Unix time (seconds) at which the access token expires.
    pub exp: i64,
}

/// `true` when a session expiring at `exp` has expired at `now`.
pub open spec fn expired_at(exp: i64, now: i64) -> bool {
    now >= exp
}

impl UserSession {
    /// `true` once `now` has reached the expiry time.
    pub fn is_expired_at(&self, now: i64) -> (r: bool)
        ensures
            r == expired_at(self.exp, now),
    {
        now >= self.exp
    }

    /// `true` once the current time has reached the expiry time.
    pub fn is_expired(&self) -> (r: bool)
        ensures
            exists|now: i64| r == #[trigger] expired_at(self.exp, now),
    {
        self.is_expired_at(now_timestamp())
    }
}

/// Why a cookie could not be made or read.
#[derive(Clone, Copy, Debug, PartialEq, Eq)]
pub enum CookieError {
    /// No key was configured.
    MissingKey,
    /// The key is not hexadecimal.
    InvalidKeyHex,
    /// The key decodes to this many bytes instead of 32.
    WrongKeyLength(usize),
    /// The plaintext is too long to encrypt.
    EncryptFailed,
    /// The cookie value is not base64.
    InvalidBase64,
    /// The decoded cookie is shorter than a nonce.
    TooShort,
    /// The ciphertext does not authenticate under the key.
    DecryptFailed,
}

/// Non-empty text of the base64 alphabet: what a sealed cookie looks like.
pub open spec fn is_b64_text(t: Seq<char>) -> bool {
    t.len() > 0 && forall|i: int| 0 <= i < t.len() ==> is_b64_char(#[trigger] t[i])
}

/// The cookie value that sealing `plaintext` under `key` with `nonce` gives.
pub open spec fn sealed_cookie(key: Seq<u8>, nonce: Seq<u8>, plaintext: Seq<u8>) -> Seq<char> {
    spec_b64_encode(nonce + spec_aes_gcm_seal(key, nonce, plaintext))
}

/// What reading the cookie value `text` under `key` gives.
pub open spec fn opened_cookie(key: Seq<u8>, text: Seq<char>) -> Result<Seq<u8>, CookieError> {
    match spec_b64_decode(text) {
        None => Err(CookieError::InvalidBase64),
        Some(c) => if c.len() < 12 {
            Err(CookieError::TooShort)
        } else {
            match spec_aes_gcm_open(key, c.take(12), c.skip(12)) {
                None => Err(CookieError::DecryptFailed),
                Some(p) => Ok(p),
            }
        },
    }
}

/// The result of building a cookie manager from hexadecimal key text.
pub open spec fn key_from_hex(key_hex: Seq<char>) -> Result<Seq<u8>, CookieError> {
    match spec_hex_decode(key_hex) {
        None => Err(CookieError::InvalidKeyHex),
        Some(k) => if k.len() == 32 {
            Ok(k)
        } else {
            Err(CookieError::WrongKeyLength(k.len() as usize))
        },
    }
}

/// Seals and opens session cookies under one 32-byte key.
pub struct SessionCookie {
    encryption_key: Vec<u8>,
}

impl SessionCookie {
    #[verifier::type_invariant]
    spec fn key_is_32_bytes(self) -> bool {
        self.encryption_key@.len() == 32
    }

    /// The key.
    pub closed spec fn key(self) -> Seq<u8> {
        self.encryption_key@
    }

    /// A manager for the key written as 64 hexadecimal digits.
    pub fn new(key_hex: &str) -> (r: Result<SessionCookie, CookieError>)
        ensures
            r is Ok <==> key_from_hex(key_hex@) is Ok,
            r matches Ok(c) ==> key_from_hex(key_hex@) == Ok::<Seq<u8>, CookieError>(c.key())
                && c.key().len() == 32,
            r matches Err(e) ==> key_from_hex(key_hex@) == Err::<Seq<u8>, CookieError>(e),
    {
        match hex_decode(key_hex) {
            None => Err(CookieError::InvalidKeyHex),
            Some(k) => {
                if k.len() == 32 {
                    Ok(SessionCookie { encryption_key: k })
                } else {
                    Err(CookieError::WrongKeyLength(k.len()))
                }
            },
        }
    }

    /// Seals `plaintext` with the given 12-byte nonce.
    pub fn encrypt_session_with_nonce(&self, plaintext: &[u8], nonce: &[u8]) -> (r: Result<String, CookieError>)
        requires
            nonce@.len() == 12,
            b64_len(plaintext@.len() + 28) <= usize::MAX,
        ensures
            r is Ok <==> plaintext@.len() <= AES_GCM_P_MAX,
            r matches Ok(s) ==> s@ == sealed_cookie(self.key(), nonce@, plaintext@) && is_b64_text(s@),
            r matches Err(e) ==> e == CookieError::EncryptFailed,
    {
        proof {
            use_type_invariant(self);
        }
        match aes_gcm_seal(self.encryption_key.as_slice(), nonce, plaintext) {
            None => Err(CookieError::EncryptFailed),
            Some(ciphertext) => {
                let mut combined: Vec<u8> = Vec::new();
                let mut i: usize = 0;
                while i < nonce.len()
                    invariant
                        i <= nonce@.len(),
                        combined@ == nonce@.take(i as int),
                    decreases nonce@.len() - i,
                {
                    combined.push(nonce[i]);
                    proof {
                        assert(combined@ =~= nonce@.take(i + 1));
                    }
                    i = i + 1;
                }
                let mut j: usize = 0;
                while j < ciphertext.len()
                    invariant
                        j <= ciphertext@.len(),
                        combined@ == nonce@ + ciphertext@.take(j as int),
                    decreases ciphertext@.len() - j,
                {
                    combined.push(ciphertext[j]);
                    proof {
                        assert(combined@ =~= nonce@ + ciphertext@.take(j + 1));
                    }
                    j = j + 1;
                }
                proof {
                    assert(nonce@.take(12) =~= nonce@);
                    assert(ciphertext@.take(ciphertext@.len() as int) =~= ciphertext@);
                }
                Ok(b64_encode(combined.as_slice()))
            },
        }
    }

    /// Seals `plaintext` with a fresh random nonce.
    pub fn encrypt_session(&self, plaintext: &[u8]) -> (r: Result<String, CookieError>)
        requires
            b64_len(plaintext@.len() + 28) <= usize::MAX,
        ensures
            r is Ok <==> plaintext@.len() <= AES_GCM_P_MAX,
            r matches Ok(s) ==> is_b64_text(s@) && exists|nonce: Seq<u8>|
                nonce.len() == 12 && s@ == #[trigger] sealed_cookie(self.key(), nonce, plaintext@),
            r matches Err(e) ==> e == CookieError::EncryptFailed,
    {
        let nonce = random_nonce();
        self.encrypt_session_with_nonce(plaintext, nonce.as_slice())
    }

    /// Opens a cookie value; a value that sealing some plaintext under this
    /// key gave opens to that plaintext, and text that is not base64 of the
    /// standard alphabet, with canonical padding, is refused as such.
    pub fn decrypt_session(&self, encrypted: &str) -> (r: Result<Vec<u8>, CookieError>)
        ensures
            (exists|i: int| 0 <= i < encrypted@.len() && !is_b64_char(#[trigger] encrypted@[i]))
                ==> r == Err::<Vec<u8>, CookieError>(CookieError::InvalidBase64),
            encrypted@.len() % 4 != 0 ==> r == Err::<Vec<u8>, CookieError>(CookieError::InvalidBase64),
            r matches Ok(p) ==> opened_cookie(self.key(), encrypted@) == Ok::<Seq<u8>, CookieError>(p@),
            r matches Err(e) ==> opened_cookie(self.key(), encrypted@) == Err::<Seq<u8>, CookieError>(e),
            forall|nonce: Seq<u8>, p: Seq<u8>|
                nonce.len() == 12 && p.len() <= AES_GCM_P_MAX
                    && encrypted@ == #[trigger] sealed_cookie(self.key(), nonce, p)
                    ==> (r matches Ok(q) && q@ == p),
    {
        proof {
            use_type_invariant(self);
        }
        let combined = match b64_decode(encrypted) {
            None => {
                return Err(CookieError::InvalidBase64);
            },
            Some(c) => c,
        };
        if combined.len() < 12 {
            proof {
                assert forall|nonce: Seq<u8>, p: Seq<u8>|
                    nonce.len() == 12 && encrypted@ == #[trigger] sealed_cookie(self.key(), nonce, p)
                    implies false by {
                    assert((nonce + spec_aes_gcm_seal(self.key(), nonce, p)).len() >= 12);
                }
            }
            return Err(CookieError::TooShort);
        }
        let (nonce, ciphertext) = combined.as_slice().split_at(12);
        proof {
            assert(nonce@ == combined@.take(12));
            assert(ciphertext@ == combined@.skip(12));
            assert forall|n: Seq<u8>, p: Seq<u8>|
                n.len() == 12 && encrypted@ == #[trigger] sealed_cookie(self.key(), n, p)
                implies nonce@ == n && ciphertext@ == spec_aes_gcm_seal(self.key(), n, p) by {
                let whole = n + spec_aes_gcm_seal(self.key(), n, p);
                assert(combined@ == whole);
                assert(whole.take(12) =~= n);
                assert(whole.skip(12) =~= spec_aes_gcm_seal(self.key(), n, p));
            }
        }
        match aes_gcm_open(self.encryption_key.as_slice(), nonce, ciphertext) {
            None => Err(CookieError::DecryptFailed),
            Some(p) => Ok(p),
        }
    }
}

/// What setting the session cookie gives, from the configured key text and
/// the plaintext's length.
pub open spec fn cookie_setting(key_hex: Option<Seq<char>>, len: nat) -> Result<(), CookieError> {
    match key_hex {
        None => Err(CookieError::MissingKey),
        Some(h) => match key_from_hex(h) {
            Err(e) => Err(e),
            Ok(_) => if len <= AES_GCM_P_MAX {
                Ok(())
            } else {
                Err(CookieError::EncryptFailed)
            },
        },
    }
}

/// Appends the session cookie, sealed under the key written in `key_hex`,
/// to `cookies`.
pub fn set_session_cookie(cookies: &mut Vec<(String, String)>, key_hex: Option<&str>, plaintext: &[u8]) -> (r: Result<(), CookieError>)
    requires
        b64_len(plaintext@.len() + 28) <= usize::MAX,
    ensures
        r == cookie_setting(match key_hex { Some(h) => Some(h@), None => None }, plaintext@.len()),
        r is Err ==> final(cookies)@ == old(cookies)@,
        r is Ok ==> final(cookies)@.len() == old(cookies)@.len() + 1
            && final(cookies)@.take(old(cookies)@.len() as int) == old(cookies)@
            && final(cookies)@.last().0@ == session_cookie_name(),
        r is Ok ==> exists|nonce: Seq<u8>|
            nonce.len() == 12 && final(cookies)@.last().1@ == #[trigger] sealed_cookie(
                key_from_hex(key_hex.unwrap()@)->Ok_0,
                nonce,
                plaintext@,
            ) + session_cookie_attributes(),
{
    let hex = match key_hex {
        None => {
            return Err(CookieError::MissingKey);
        },
        Some(h) => h,
    };
    let mgr = match SessionCookie::new(hex) {
        Err(e) => {
            return Err(e);
        },
        Ok(m) => m,
    };
    let mut value = match mgr.encrypt_session(plaintext) {
        Err(e) => {
            return Err(e);
        },
        Ok(v) => v,
    };
    let ghost sealed = value@;
    value.push_str("; HttpOnly; Secure; SameSite=Strict; Max-Age=28800");
    let ghost before = cookies@;
    cookies.push(("thunderbot_session".to_owned(), value));
    proof {
        assert(cookies@.take(before.len() as int) =~= before);
        let nonce = choose|nonce: Seq<u8>|
            nonce.len() == 12 && sealed == #[trigger] sealed_cookie(mgr.key(), nonce, plaintext@);
        assert(cookies@.last().1@ == sealed_cookie(mgr.key(), nonce, plaintext@) + session_cookie_attributes());
        assert(key_from_hex(hex@)->Ok_0 == mgr.key());
        assert(key_hex.unwrap() == hex);
    }
    Ok(())
}

/// Appends an empty session cookie to `cookies`.
pub fn clear_session_cookie(cookies: &mut Vec<(String, String)>)
    ensures
        final(cookies)@.len() == old(cookies)@.len() + 1,
        final(cookies)@.take(old(cookies)@.len() as int) == old(cookies)@,
        final(cookies)@.last().0@ == session_cookie_name(),
        final(cookies)@.last().1@ == Seq::<char>::empty(),
{
    let ghost before = cookies@;
    cookies.push(("thunderbot_session".to_owned(), String::new()));
    proof {
        assert(cookies@.take(before.len() as int) =~= before);
    }
}

} // verus!
