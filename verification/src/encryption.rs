//! Encryption of sensitive profile data.
//!
//! A message is sealed with AES-256-GCM under a key that Argon2id derives
//! from the stored key material and a salt of its own. What is stored is the
//! base64 text of salt, nonce and ciphertext in a row. The ciphers, the key
//! derivation, the hash and base64 are the work of outside crates, behind
//! the contracts given here; how a message is framed and which formats are
//! tried, in which order, is decided in this module.

use vstd::prelude::*;
use vstd::slice::{slice_subrange, slice_to_vec};
use vstd::string::*;
use vstd::utf8::{decode_utf8, encode_utf8, valid_utf8};

verus! {

/// Length of the salt of a message, in bytes.
pub const SALT_LEN: usize = 16;

/// Length of the nonce of a message, in bytes.
pub const NONCE_LEN: usize = 12;

/// What can go wrong when data is encrypted or decrypted.
#[derive(Clone, Debug, PartialEq, Eq)]
pub enum EncryptionError {
    /// No key has been set.
    NoKeySet,
    /// The message could not be encrypted.
    EncryptionFailed(String),
    /// The message could not be decrypted: the key is wrong or the data damaged.
    DecryptionFailed,
    /// The data is not well formed.
    InvalidData(String),
    /// A value could not be written or read as JSON.
    SerializationFailed(String),
}

/// An error of encryption with its message as plain text.
pub enum Failure {
    NoKeySet,
    EncryptionFailed(Seq<char>),
    DecryptionFailed,
    InvalidData(Seq<char>),
    SerializationFailed(Seq<char>),
}

impl View for EncryptionError {
    type V = Failure;

    open spec fn view(&self) -> Failure {
        match self {
            EncryptionError::NoKeySet => Failure::NoKeySet,
            EncryptionError::EncryptionFailed(m) => Failure::EncryptionFailed(m@),
            EncryptionError::DecryptionFailed => Failure::DecryptionFailed,
            EncryptionError::InvalidData(m) => Failure::InvalidData(m@),
            EncryptionError::SerializationFailed(m) => Failure::SerializationFailed(m@),
        }
    }
}

/// A result of encryption or decryption as plain values.
pub open spec fn outcome(r: Result<String, EncryptionError>) -> Result<Seq<char>, Failure> {
    match r {
        Ok(text) => Ok(text@),
        Err(e) => Err(e@),
    }
}

/// The key that Argon2id, with its default parameters, derives from a
/// secret and a salt: 32 bytes, or the message of the error.
pub uninterp spec fn argon2_key(secret: Seq<u8>, salt: Seq<u8>) -> Result<Seq<u8>, Seq<char>>;

/// The ciphertext, tag included, that AES-256-GCM makes of a plaintext under
/// a key and a nonce, or the message of the error.
pub uninterp spec fn aes_sealed(key: Seq<u8>, nonce: Seq<u8>, plaintext: Seq<u8>) -> Result<
    Seq<u8>,
    Seq<char>,
>;

/// The plaintext that AES-256-GCM finds in a ciphertext under a key and a
/// nonce; `None` where the key has the wrong length or the tag does not fit.
pub uninterp spec fn aes_opened(key: Seq<u8>, nonce: Seq<u8>, ciphertext: Seq<u8>) -> Option<
    Seq<u8>,
>;

/// The SHA-256 digest of the data.
pub uninterp spec fn sha256_digest(data: Seq<u8>) -> Seq<u8>;

/// The data in base64, standard alphabet, padded.
pub uninterp spec fn base64_text(data: Seq<u8>) -> Seq<char>;

/// The data that a base64 text stands for, or the message of the error.
pub uninterp spec fn base64_bytes(text: Seq<char>) -> Result<Seq<u8>, Seq<char>>;

/// What is said of bytes that are no UTF-8.
pub uninterp spec fn utf8_error(bytes: Seq<u8>) -> Seq<char>;

/// Fills a buffer of `len` bytes from the random source of the operating
/// system, with `rand::rngs::OsRng`.
///
/// Trusted: the buffer that comes back has the length asked for. Its content
/// is left open, and so is whether the source can be read.
#[verifier::external_body]
fn random_bytes(len: usize) -> (r: Option<Vec<u8>>)
    ensures
        r matches Some(bytes) ==> bytes@.len() == len,
{
    let mut bytes = vec![0u8; len];
    match rand::RngCore::try_fill_bytes(&mut rand::rngs::OsRng, &mut bytes) {
        Ok(()) => Some(bytes),
        Err(_) => None,
    }
}

/// Derives a key of 32 bytes with `argon2::Argon2::hash_password_into`,
/// under the default parameters.
///
/// Trusted: the key depends on the secret and the salt alone.
#[verifier::external_body]
fn derive(secret: &[u8], salt: &[u8]) -> (r: Result<Vec<u8>, String>)
    ensures
        bytes_or_text(r) == argon2_key(secret@, salt@),
{
    let mut key = vec![0u8; 32];
    match argon2::Argon2::default().hash_password_into(secret, salt, &mut key) {
        Ok(()) => Ok(key),
        Err(e) => Err(e.to_string()),
    }
}

/// Encrypts with `aes_gcm::Aes256Gcm`: the cipher is made from `key`, then
/// `plaintext` is sealed under `nonce`.
///
/// Trusted: the result depends on the three arguments alone. A nonce of
/// another length than twelve bytes is ruled out because the crate stops
/// the program on it.
#[verifier::external_body]
fn seal(key: &[u8], nonce: &[u8], plaintext: &[u8]) -> (r: Result<Vec<u8>, String>)
    requires
        nonce@.len() == NONCE_LEN,
    ensures
        bytes_or_text(r) == aes_sealed(key@, nonce@, plaintext@),
{
    let cipher = match <aes_gcm::Aes256Gcm as aes_gcm::KeyInit>::new_from_slice(key) {
        Ok(cipher) => cipher,
        Err(e) => return Err(e.to_string()),
    };
    match aes_gcm::aead::Aead::encrypt(&cipher, aes_gcm::Nonce::from_slice(nonce), plaintext) {
        Ok(ciphertext) => Ok(ciphertext),
        Err(e) => Err(e.to_string()),
    }
}

/// Decrypts with `aes_gcm::Aes256Gcm`: the cipher is made from `key`, then
/// `ciphertext` is opened under `nonce`.
///
/// Trusted: the result depends on the three arguments alone.
#[verifier::external_body]
fn open(key: &[u8], nonce: &[u8], ciphertext: &[u8]) -> (r: Option<Vec<u8>>)
    requires
        nonce@.len() == NONCE_LEN,
    ensures
        opt_bytes(r) == aes_opened(key@, nonce@, ciphertext@),
{
    let cipher = match <aes_gcm::Aes256Gcm as aes_gcm::KeyInit>::new_from_slice(key) {
        Ok(cipher) => cipher,
        Err(_) => return None,
    };
    match aes_gcm::aead::Aead::decrypt(&cipher, aes_gcm::Nonce::from_slice(nonce), ciphertext) {
        Ok(plaintext) => Some(plaintext),
        Err(_) => None,
    }
}

/// Hashes with `sha2::Sha256`.
///
/// Trusted: the digest depends on the data alone.
#[verifier::external_body]
fn sha256(data: &[u8]) -> (r: Vec<u8>)
    ensures
        r@ == sha256_digest(data@),
{
    <sha2::Sha256 as sha2::Digest>::digest(data).to_vec()
}

/// Encodes with the `STANDARD` engine of `base64`.
///
/// Trusted: the text depends on the data alone. The crate stops the program
/// where the length of the text would not fit a `usize`, which no data that
/// fits in memory can bring about.
#[verifier::external_body]
fn base64_encode(data: &[u8]) -> (r: String)
    ensures
        r@ == base64_text(data@),
{
    base64::Engine::encode(&base64::engine::general_purpose::STANDARD, data)
}

/// Decodes with the `STANDARD` engine of `base64`.
///
/// Trusted: the result depends on the text alone.
#[verifier::external_body]
fn base64_decode(text: &str) -> (r: Result<Vec<u8>, String>)
    ensures
        bytes_or_text(r) == base64_bytes(text@),
{
    match base64::Engine::decode(&base64::engine::general_purpose::STANDARD, text) {
        Ok(data) => Ok(data),
        Err(e) => Err(e.to_string()),
    }
}

/// Reads bytes as UTF-8 with `String::from_utf8`.
///
/// Trusted: bytes that are UTF-8 give the text they encode, others an error
/// whose message depends on the bytes alone.
#[verifier::external_body]
fn text_from_utf8(bytes: Vec<u8>) -> (r: Result<String, String>)
    ensures
        match r {
            Ok(text) => valid_utf8(bytes@) && text@ == decode_utf8(bytes@),
            Err(message) => !valid_utf8(bytes@) && message@ == utf8_error(bytes@),
        },
{
    match String::from_utf8(bytes) {
        Ok(text) => Ok(text),
        Err(e) => Err(e.to_string()),
    }
}

/// Overwrites the bytes with zeros and empties the vector, with
/// `zeroize::Zeroize::zeroize`.
///
/// Trusted: the vector is empty afterwards.
#[verifier::external_body]
fn wipe(bytes: &mut Vec<u8>)
    ensures
        final(bytes)@.len() == 0,
{
    zeroize::Zeroize::zeroize(bytes)
}

/// Bytes or an error message as plain values.
pub open spec fn bytes_or_text(r: Result<Vec<u8>, String>) -> Result<Seq<u8>, Seq<char>> {
    match r {
        Ok(bytes) => Ok(bytes@),
        Err(message) => Err(message@),
    }
}

/// Optional bytes as plain values.
pub open spec fn opt_bytes(r: Option<Vec<u8>>) -> Option<Seq<u8>> {
    match r {
        Some(bytes) => Some(bytes@),
        None => None,
    }
}

/// The stored form of a message: the base64 text of salt, nonce and
/// ciphertext in a row, where the key can be derived and the plaintext
/// sealed under it.
pub open spec fn sealed_message(
    key: Seq<u8>,
    salt: Seq<u8>,
    nonce: Seq<u8>,
    plaintext: Seq<char>,
) -> Result<Seq<char>, Failure> {
    match argon2_key(key, salt) {
        Err(e) => Err(Failure::EncryptionFailed("KDF failed: "@ + e)),
        Ok(derived) => match aes_sealed(derived, nonce, encode_utf8(plaintext)) {
            Err(e) => Err(Failure::EncryptionFailed(e)),
            Ok(ciphertext) => Ok(base64_text(salt + nonce + ciphertext)),
        },
    }
}

/// What the current format finds in `data`: salt, nonce, ciphertext, under
/// a key derived from `key` and the salt. `None` where the data is too
/// short, the key cannot be derived or the ciphertext does not open.
pub open spec fn current_format(key: Seq<u8>, data: Seq<u8>) -> Option<Seq<u8>> {
    if data.len() >= SALT_LEN + NONCE_LEN + 1 {
        match argon2_key(key, data.subrange(0, SALT_LEN as int)) {
            Ok(derived) => aes_opened(
                derived,
                data.subrange(SALT_LEN as int, SALT_LEN + NONCE_LEN),
                data.subrange(SALT_LEN + NONCE_LEN, data.len() as int),
            ),
            Err(_) => None,
        }
    } else {
        None
    }
}

/// What the former format finds in `data`: nonce, ciphertext, under `key` itself.
pub open spec fn legacy_format(key: Seq<u8>, data: Seq<u8>) -> Option<Seq<u8>> {
    if data.len() >= NONCE_LEN + 1 {
        aes_opened(
            key,
            data.subrange(0, NONCE_LEN as int),
            data.subrange(NONCE_LEN as int, data.len() as int),
        )
    } else {
        None
    }
}

/// Bytes read as text.
pub open spec fn read_text(bytes: Seq<u8>) -> Result<Seq<char>, Failure> {
    if valid_utf8(bytes) {
        Ok(decode_utf8(bytes))
    } else {
        Err(Failure::InvalidData(utf8_error(bytes)))
    }
}

/// The message in a stored text: the text is decoded, then opened in the
/// current format and, where that fails, in the former one.
pub open spec fn opened_message(key: Seq<u8>, text: Seq<char>) -> Result<Seq<char>, Failure> {
    match base64_bytes(text) {
        Err(e) => Err(Failure::InvalidData(e)),
        Ok(data) => match current_format(key, data) {
            Some(plaintext) => read_text(plaintext),
            None => match legacy_format(key, data) {
                Some(plaintext) => read_text(plaintext),
                None => Err(Failure::DecryptionFailed),
            },
        },
    }
}

/// The key material kept for a passphrase: a digest of the passphrase and a
/// fixed marker.
pub open spec fn marker_key(passphrase: Seq<char>) -> Seq<u8> {
    sha256_digest(encode_utf8(passphrase) + encode_utf8("presence-marker"@))
}

/// The key material that setting `passphrase` leaves: the marker key, where
/// a key can be derived from the passphrase at all.
pub open spec fn key_for(passphrase: Seq<char>) -> Option<Seq<u8>> {
    match argon2_key(encode_utf8(passphrase), Seq::new(SALT_LEN as nat, |i: int| 0u8)) {
        Ok(_) => Some(marker_key(passphrase)),
        Err(_) => None,
    }
}

/// Encrypts and decrypts profile data under a passphrase.
pub struct ProfileEncryption {
    key_bytes: Option<Vec<u8>>,
}

impl Default for ProfileEncryption {
    fn default() -> (r: Self)
        ensures
            r.key() is None,
    {
        ProfileEncryption { key_bytes: None }
    }
}

impl ProfileEncryption {
    /// The key material, if a key is set.
    pub closed spec fn key(&self) -> Option<Seq<u8>> {
        opt_bytes(self.key_bytes)
    }

    /// A service without a key.
    pub fn new() -> (r: Self)
        ensures
            r.key() is None,
    {
        ProfileEncryption { key_bytes: None }
    }

    /// A service with the key for `passphrase`.
    pub fn with_key(passphrase: &str) -> (r: Self)
        ensures
            r.key() == key_for(passphrase@),
    {
        let mut service = ProfileEncryption { key_bytes: None };
        service.set_key(passphrase);
        service
    }

    /// Sets the key for `passphrase`. Where no key can be derived from the
    /// passphrase, the service is left without a key.
    pub fn set_key(&mut self, passphrase: &str)
        ensures
            final(self).key() == key_for(passphrase@),
    {
        self.clear_key();
        let mut salt: Vec<u8> = Vec::new();
        let mut i: usize = 0;
        while i < SALT_LEN
            invariant
                i <= SALT_LEN,
                salt@ == Seq::new(i as nat, |k: int| 0u8),
            decreases SALT_LEN - i,
        {
            salt.push(0u8);
            assert(salt@ =~= Seq::new((i + 1) as nat, |k: int| 0u8));
            i += 1;
        }
        match derive(passphrase.as_bytes(), salt.as_slice()) {
            Ok(key) => {
                let mut probe: Vec<u8> = key;
                wipe(&mut probe);
                let mut material: Vec<u8> = slice_to_vec(passphrase.as_bytes());
                let marker: Vec<u8> = slice_to_vec("presence-marker".as_bytes());
                let ghost before = material@;
                material.extend_from_slice(marker.as_slice());
                assert(material@ =~= before + marker@);
                self.key_bytes = Some(sha256(material.as_slice()));
                wipe(&mut material);
            },
            Err(_) => {},
        }
    }

    /// Drops the key, overwriting it first.
    pub fn clear_key(&mut self)
        ensures
            final(self).key() is None,
    {
        match self.key_bytes.take() {
            Some(key) => {
                let mut old_key: Vec<u8> = key;
                wipe(&mut old_key);
            },
            None => {},
        }
    }

    /// Whether a key is set.
    pub fn has_key(&self) -> (r: bool)
        ensures
            r == self.key() is Some,
    {
        self.key_bytes.is_some()
    }

    /// Encrypts `plaintext` under the salt and the nonce given.
    pub fn encrypt_with(&self, salt: &[u8], nonce: &[u8], plaintext: &str) -> (r: Result<
        String,
        EncryptionError,
    >)
        requires
            salt@.len() == SALT_LEN,
            nonce@.len() == NONCE_LEN,
        ensures
            outcome(r) == match self.key() {
                None => Err(Failure::NoKeySet),
                Some(key) => sealed_message(key, salt@, nonce@, plaintext@),
            },
    {
        let key: &Vec<u8> = match &self.key_bytes {
            Some(key) => key,
            None => {
                return Err(EncryptionError::NoKeySet);
            },
        };
        let mut derived: Vec<u8> = match derive(key.as_slice(), salt) {
            Ok(derived) => derived,
            Err(e) => {
                return Err(
                    EncryptionError::EncryptionFailed(
                        String::from_str("KDF failed: ").concat(e.as_str()),
                    ),
                );
            },
        };
        let sealed: Result<Vec<u8>, String> = seal(derived.as_slice(), nonce, plaintext.as_bytes());
        wipe(&mut derived);
        let ciphertext: Vec<u8> = match sealed {
            Ok(ciphertext) => ciphertext,
            Err(e) => {
                return Err(EncryptionError::EncryptionFailed(e));
            },
        };
        let mut framed: Vec<u8> = slice_to_vec(salt);
        framed.extend_from_slice(nonce);
        assert(framed@ =~= salt@ + nonce@);
        framed.extend_from_slice(ciphertext.as_slice());
        assert(framed@ =~= salt@ + nonce@ + ciphertext@);
        Ok(base64_encode(framed.as_slice()))
    }

    /// Encrypts `plaintext` under a fresh random salt and nonce and returns
    /// the stored form of the message.
    pub fn encrypt(&self, plaintext: &str) -> (r: Result<String, EncryptionError>)
        ensures
            self.key() is None ==> outcome(r) == Err::<Seq<char>, Failure>(Failure::NoKeySet),
            self.key() matches Some(key) ==> r matches Err(EncryptionError::EncryptionFailed(_))
                || exists|salt: Seq<u8>, nonce: Seq<u8>|
                salt.len() == SALT_LEN && nonce.len() == NONCE_LEN && outcome(r)
                    == #[trigger] sealed_message(key, salt, nonce, plaintext@),
    {
        if self.key_bytes.is_none() {
            return Err(EncryptionError::NoKeySet);
        }
        let salt: Vec<u8> = match random_bytes(SALT_LEN) {
            Some(salt) => salt,
            None => {
                return Err(
                    EncryptionError::EncryptionFailed(String::from_str("random source failed")),
                );
            },
        };
        let nonce: Vec<u8> = match random_bytes(NONCE_LEN) {
            Some(nonce) => nonce,
            None => {
                return Err(
                    EncryptionError::EncryptionFailed(String::from_str("random source failed")),
                );
            },
        };
        self.encrypt_with(salt.as_slice(), nonce.as_slice(), plaintext)
    }

    /// Decrypts a stored message.
    ///
    /// The data is first read in the current format and, where that does
    /// not open, in the former one, which had no salt.
    pub fn decrypt(&self, ciphertext: &str) -> (r: Result<String, EncryptionError>)
        ensures
            outcome(r) == match self.key() {
                None => Err(Failure::NoKeySet),
                Some(key) => opened_message(key, ciphertext@),
            },
    {
        let key: &Vec<u8> = match &self.key_bytes {
            Some(key) => key,
            None => {
                return Err(EncryptionError::NoKeySet);
            },
        };
        let data: Vec<u8> = match base64_decode(ciphertext) {
            Ok(data) => data,
            Err(e) => {
                return Err(EncryptionError::InvalidData(e));
            },
        };
        let bytes: &[u8] = data.as_slice();
        let n: usize = bytes.len();
        if n >= SALT_LEN + NONCE_LEN + 1 {
            let salt: &[u8] = slice_subrange(bytes, 0, SALT_LEN);
            let nonce: &[u8] = slice_subrange(bytes, SALT_LEN, SALT_LEN + NONCE_LEN);
            let encrypted: &[u8] = slice_subrange(bytes, SALT_LEN + NONCE_LEN, n);
            match derive(key.as_slice(), salt) {
                Ok(derived) => {
                    let mut derived: Vec<u8> = derived;
                    let opened: Option<Vec<u8>> = open(derived.as_slice(), nonce, encrypted);
                    wipe(&mut derived);
                    match opened {
                        Some(plaintext) => {
                            return read_plaintext(plaintext);
                        },
                        None => {},
                    }
                },
                Err(_) => {},
            }
        }
        if n >= NONCE_LEN + 1 {
            let nonce: &[u8] = slice_subrange(bytes, 0, NONCE_LEN);
            let encrypted: &[u8] = slice_subrange(bytes, NONCE_LEN, n);
            match open(key.as_slice(), nonce, encrypted) {
                Some(plaintext) => {
                    return read_plaintext(plaintext);
                },
                None => {},
            }
        }
        Err(EncryptionError::DecryptionFailed)
    }
}

/// Reads decrypted bytes as text.
fn read_plaintext(plaintext: Vec<u8>) -> (r: Result<String, EncryptionError>)
    ensures
        outcome(r) == read_text(plaintext@),
{
    match text_from_utf8(plaintext) {
        Ok(text) => Ok(text),
        Err(message) => Err(EncryptionError::InvalidData(message)),
    }
}

} // verus!
