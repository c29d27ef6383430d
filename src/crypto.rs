//! Encryption of stored secrets with AES-256-GCM. A secret is sealed under a
//! fresh twelve-byte nonce, and the nonce followed by the sealed bytes is
//! written in standard base64.

use vstd::prelude::*;
use vstd::utf8::{decode_utf8, encode_utf8_decode_utf8, encode_utf8_valid_utf8, valid_utf8};
use vstd::string::StringSliceAdditionalSpecFns;
use aes_gcm::aead::rand_core::RngCore;
use aes_gcm::aead::{Aead, KeyInit, OsRng};
use aes_gcm::{Aes256Gcm, Key, Nonce};
use base64::Engine;

verus! {

#[verifier::external_type_specification]
#[verifier::external_body]
pub struct ExAeadError(aes_gcm::Error);

#[verifier::external_type_specification]
#[verifier::external_body]
pub struct ExDecodeError(base64::DecodeError);

/// Bytes in a key.
pub const KEY_LEN: usize = 32;

/// Bytes in a nonce.
pub const NONCE_LEN: usize = 12;

/// The longest plaintext that AES-GCM seals.
pub const MAX_PLAINTEXT: u64 = 0x10_0000_0000;

/// What AES-256-GCM makes of a plaintext under a key and a nonce: the
/// ciphertext followed by the tag.
pub uninterp spec fn gcm_sealed(key: Seq<u8>, nonce: Seq<u8>, plaintext: Seq<u8>) -> Seq<u8>;

/// What AES-256-GCM recovers from sealed bytes under a key and a nonce, or
/// nothing when they do not authenticate.
pub uninterp spec fn gcm_opened(key: Seq<u8>, nonce: Seq<u8>, sealed: Seq<u8>) -> Option<Seq<u8>>;

/// The standard base64 text of some bytes.
pub uninterp spec fn base64_of(bytes: Seq<u8>) -> Seq<char>;

/// The bytes that a standard base64 text stands for, or nothing when it is
/// not valid.
pub uninterp spec fn base64_decoded(text: Seq<char>) -> Option<Seq<u8>>;

/// Relies on `aes_gcm::Aes256Gcm` (`KeyInit::new`, then `Aead::encrypt`): the
/// result depends on key, nonce and plaintext alone; it fails exactly when the
/// plaintext is longer than `P_MAX`, and otherwise is the plaintext's length
/// plus a sixteen-byte tag. What it returns opens again, under the same key
/// and nonce, to the plaintext.
#[verifier::external_body]
fn seal(key: &[u8], nonce: &[u8], plaintext: &[u8]) -> (r: Result<Vec<u8>, aes_gcm::Error>)
    requires
        key@.len() == KEY_LEN,
        nonce@.len() == NONCE_LEN,
    ensures
        r is Ok <==> plaintext@.len() <= MAX_PLAINTEXT,
        r matches Ok(c) ==> c@ == gcm_sealed(key@, nonce@, plaintext@) && c@.len() == plaintext@.len() + 16,
        r matches Ok(c) ==> gcm_opened(key@, nonce@, c@) == Some(plaintext@),
{
    let cipher = Aes256Gcm::new(Key::<Aes256Gcm>::from_slice(key));
    cipher.encrypt(Nonce::from_slice(nonce), plaintext)
}

/// Relies on `aes_gcm::Aes256Gcm` (`KeyInit::new`, then `Aead::decrypt`): the
/// result depends on key, nonce and input alone.
#[verifier::external_body]
fn open(key: &[u8], nonce: &[u8], sealed: &[u8]) -> (r: Result<Vec<u8>, aes_gcm::Error>)
    requires
        key@.len() == KEY_LEN,
        nonce@.len() == NONCE_LEN,
    ensures
        r matches Ok(p) ==> gcm_opened(key@, nonce@, sealed@) == Some(p@),
        r is Err ==> gcm_opened(key@, nonce@, sealed@) is None,
{
    let cipher = Aes256Gcm::new(Key::<Aes256Gcm>::from_slice(key));
    cipher.decrypt(Nonce::from_slice(nonce), sealed)
}

/// Relies on `RngCore::try_fill_bytes` of the operating system's generator
/// (`OsRng`): twelve random bytes, or nothing when the generator fails.
#[verifier::external_body]
fn random_nonce() -> (r: Option<Vec<u8>>)
    ensures
        r matches Some(v) ==> v@.len() == NONCE_LEN,
{
    let mut nonce = vec![0u8; NONCE_LEN];
    OsRng.try_fill_bytes(&mut nonce).ok().map(|_| nonce)
}

/// Relies on `base64::engine::general_purpose::STANDARD.encode`: padded
/// standard base64, four characters for every three bytes begun, which
/// `STANDARD.decode` turns back into the bytes.
#[verifier::external_body]
fn encode_base64(bytes: &[u8]) -> (r: String)
    ensures
        r@ == base64_of(bytes@),
        r@.len() == 4 * ((bytes@.len() + 2) / 3),
        base64_decoded(r@) == Some(bytes@),
{
    base64::engine::general_purpose::STANDARD.encode(bytes)
}

/// Relies on `base64::engine::general_purpose::STANDARD.decode`.
#[verifier::external_body]
fn decode_base64(text: &str) -> (r: Result<Vec<u8>, base64::DecodeError>)
    ensures
        r matches Ok(b) ==> base64_decoded(text@) == Some(b@),
        r is Err ==> base64_decoded(text@) is None,
{
    base64::engine::general_purpose::STANDARD.decode(text)
}

/// Relies on `String::from_utf8`: it accepts exactly the valid UTF-8 byte
/// sequences.
#[verifier::external_body]
fn utf8_string(bytes: Vec<u8>) -> (r: Option<String>)
    ensures
        r is Some <==> valid_utf8(bytes@),
        r matches Some(s) ==> s@ == decode_utf8(bytes@),
{
    String::from_utf8(bytes).ok()
}

/// Why a secret could not be sealed or opened.
#[derive(Clone, Copy, Debug, PartialEq, Eq, Structural)]
pub enum CryptoError {
    /// The key is not thirty-two bytes long.
    BadKeyLength,
    /// The nonce is not twelve bytes long.
    BadNonceLength,
    /// The plaintext is too long to seal.
    Encryption,
    /// The operating system's random generator failed.
    NoRandomness,
    /// The text is not standard base64.
    InvalidBase64,
    /// The decoded bytes are shorter than a nonce.
    TooShort,
    /// The sealed bytes do not authenticate under the key.
    Decryption,
    /// The opened bytes are not UTF-8.
    InvalidUtf8,
}

/// The text that opening `data` (a nonce, then sealed bytes) gives under `key`.
pub open spec fn opened_text(key: Seq<u8>, data: Seq<u8>) -> Result<Seq<char>, CryptoError> {
    if data.len() < NONCE_LEN {
        Err(CryptoError::TooShort)
    } else {
        match gcm_opened(key, data.take(NONCE_LEN as int), data.skip(NONCE_LEN as int)) {
            None => Err(CryptoError::Decryption),
            Some(p) => if valid_utf8(p) {
                Ok(decode_utf8(p))
            } else {
                Err(CryptoError::InvalidUtf8)
            },
        }
    }
}

/// The text that decrypting `encrypted` gives under `key`.
pub open spec fn decrypted_text(key: Seq<u8>, encrypted: Seq<char>) -> Result<Seq<char>, CryptoError> {
    match base64_decoded(encrypted) {
        None => Err(CryptoError::InvalidBase64),
        Some(d) => opened_text(key, d),
    }
}

/// The views of a result of text.
pub open spec fn text_result(r: Result<String, CryptoError>) -> Result<Seq<char>, CryptoError> {
    match r {
        Ok(s) => Ok(s@),
        Err(e) => Err(e),
    }
}

/// Seals and opens secrets under one key.
pub struct CryptoManager {
    key: Vec<u8>,
}

impl CryptoManager {
    /// The key.
    pub closed spec fn key(&self) -> Seq<u8> {
        self.key@
    }

    #[verifier::type_invariant]
    spec fn key_fits(&self) -> bool {
        self.key@.len() == KEY_LEN
    }

    /// A manager for a key of thirty-two bytes.
    pub fn from_key(key: Vec<u8>) -> (r: Result<CryptoManager, CryptoError>)
        ensures
            r is Err <==> key@.len() != KEY_LEN,
            r matches Err(e) ==> e == CryptoError::BadKeyLength,
            r matches Ok(m) ==> m.key() == key@,
    {
        if key.len() != KEY_LEN {
            Err(CryptoError::BadKeyLength)
        } else {
            Ok(CryptoManager { key })
        }
    }

    /// Seals `text` under `nonce` and writes the nonce and the sealed bytes in
    /// base64.
    pub fn encrypt_with_nonce(&self, nonce: &[u8], text: &str) -> (r: Result<String, CryptoError>)
        ensures
            nonce@.len() != NONCE_LEN ==> r == Err::<String, CryptoError>(CryptoError::BadNonceLength),
            nonce@.len() == NONCE_LEN && text.spec_bytes().len() > MAX_PLAINTEXT ==> r == Err::<
                String,
                CryptoError,
            >(CryptoError::Encryption),
            nonce@.len() == NONCE_LEN && text.spec_bytes().len() <= MAX_PLAINTEXT ==> (r matches Ok(
                s,
            ) && s@ == base64_of(nonce@ + gcm_sealed(self.key(), nonce@, text.spec_bytes()))),
            r matches Ok(s) ==> decrypted_text(self.key(), s@) == Ok::<Seq<char>, CryptoError>(text@),
    {
        proof {
            use_type_invariant(self);
        }
        if nonce.len() != NONCE_LEN {
            return Err(CryptoError::BadNonceLength);
        }
        let sealed = match seal(self.key.as_slice(), nonce, text.as_bytes()) {
            Ok(c) => c,
            Err(_) => {
                return Err(CryptoError::Encryption);
            },
        };
        let mut framed: Vec<u8> = Vec::new();
        let n = nonce.len();
        let mut i: usize = 0;
        while i < n
            invariant
                n == nonce@.len(),
                i <= n,
                framed@ == nonce@.take(i as int),
            decreases n - i,
        {
            framed.push(nonce[i]);
            assert(framed@ =~= nonce@.take(i + 1));
            i = i + 1;
        }
        let m = sealed.len();
        let mut j: usize = 0;
        while j < m
            invariant
                m == sealed@.len(),
                j <= m,
                framed@ == nonce@ + sealed@.take(j as int),
            decreases m - j,
        {
            framed.push(sealed[j]);
            assert(framed@ =~= nonce@ + sealed@.take(j + 1));
            j = j + 1;
        }
        assert(sealed@.take(m as int) =~= sealed@);
        assert(nonce@.take(n as int) =~= nonce@);
        let s = encode_base64(framed.as_slice());
        proof {
            assert(framed@.take(NONCE_LEN as int) =~= nonce@);
            assert(framed@.skip(NONCE_LEN as int) =~= sealed@);
            encode_utf8_valid_utf8(text@);
            encode_utf8_decode_utf8(text@);
        }
        Ok(s)
    }

    /// Seals `text` under a fresh random nonce; fails when the generator
    /// gives none or the text is too long. What it writes decrypts to `text`.
    pub fn encrypt(&self, text: &str) -> (r: Result<String, CryptoError>)
        ensures
            r matches Err(e) ==> e == CryptoError::NoRandomness || (e == CryptoError::Encryption
                && text.spec_bytes().len() > MAX_PLAINTEXT),
            text.spec_bytes().len() > MAX_PLAINTEXT ==> r is Err,
            r matches Ok(s) ==> exists|n: Seq<u8>|
                n.len() == NONCE_LEN && s@ == base64_of(
                    #[trigger] (n + gcm_sealed(self.key(), n, text.spec_bytes())),
                ),
            r matches Ok(s) ==> decrypted_text(self.key(), s@) == Ok::<Seq<char>, CryptoError>(text@),
    {
        match random_nonce() {
            None => Err(CryptoError::NoRandomness),
            Some(nonce) => self.encrypt_with_nonce(nonce.as_slice(), text),
        }
    }

    /// Opens decoded bytes: a nonce, then the sealed bytes.
    pub fn decrypt_bytes(&self, data: &[u8]) -> (r: Result<String, CryptoError>)
        ensures
            text_result(r) == opened_text(self.key(), data@),
    {
        proof {
            use_type_invariant(self);
        }
        if data.len() < NONCE_LEN {
            return Err(CryptoError::TooShort);
        }
        let (nonce, sealed) = data.split_at(NONCE_LEN);
        assert(nonce@ =~= data@.take(NONCE_LEN as int));
        assert(sealed@ =~= data@.skip(NONCE_LEN as int));
        match open(self.key.as_slice(), nonce, sealed) {
            Err(_) => Err(CryptoError::Decryption),
            Ok(p) => match utf8_string(p) {
                Some(s) => Ok(s),
                None => Err(CryptoError::InvalidUtf8),
            },
        }
    }

    /// Decrypts what `encrypt` wrote.
    pub fn decrypt(&self, encrypted: &str) -> (r: Result<String, CryptoError>)
        ensures
            text_result(r) == decrypted_text(self.key(), encrypted@),
    {
        match decode_base64(encrypted) {
            Err(_) => Err(CryptoError::InvalidBase64),
            Ok(data) => self.decrypt_bytes(data.as_slice()),
        }
    }
}

} // verus!
