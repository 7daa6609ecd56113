use vstd::prelude::*;
use aes_gcm::aead::{Aead, KeyInit};
use aes_gcm::{Aes256Gcm, Nonce};
use crate::key::{os_random_bytes, KEY_LEN};

verus! {

#[verifier::external_type_specification]
#[verifier::external_body]
pub struct ExAeadError(aes_gcm::Error);

/// Length in bytes of the nonce that opens every envelope.
pub const NONCE_LEN: usize = 12;

/// Length in bytes of the authentication tag that ends every ciphertext.
pub const TAG_LEN: usize = 16;

/// The longest plaintext that AES-GCM encrypts, in bytes (2^36).
pub const MAX_PLAINTEXT: u64 = 68719476736;

/// What AES-256-GCM encryption under `key` and `nonce` makes of `plain`:
/// the ciphertext followed by the tag.
pub uninterp spec fn gcm_sealed(key: Seq<u8>, nonce: Seq<u8>, plain: Seq<u8>) -> Seq<u8>;

/// What AES-256-GCM decryption under `key` and `nonce` makes of `sealed`:
/// the plaintext, or nothing where authentication fails.
pub uninterp spec fn gcm_opened(key: Seq<u8>, nonce: Seq<u8>, sealed: Seq<u8>) -> Option<Seq<u8>>;

/// The AES-256-GCM state, built from a key and otherwise opaque.
#[verifier::external_body]
struct GcmState {
    inner: Aes256Gcm,
}

/// Relies on Aes256Gcm::new (KeyInit): builds the cipher state from a
/// 32-byte key.
#[verifier::external_body]
fn gcm_new(key: &[u8]) -> (r: GcmState)
    requires
        key@.len() == KEY_LEN,
{
    GcmState { inner: Aes256Gcm::new(aes_gcm::Key::<Aes256Gcm>::from_slice(key)) }
}

/// A cipher handle: a 32-byte key and the AES-256-GCM state built from it.
pub struct Cipher {
    key: Vec<u8>,
    state: GcmState,
}

impl Cipher {
    /// The key the handle was built from.
    pub closed spec fn key(&self) -> Seq<u8> {
        self.key@
    }

    pub fn new(key: Vec<u8>) -> (r: Cipher)
        requires
            key@.len() == KEY_LEN,
        ensures
            r.key() == key@,
    {
        let state = gcm_new(key.as_slice());
        Cipher { key, state }
    }
}

/// Relies on Aead::encrypt of Aes256Gcm: it fails only on a plaintext over
/// 2^36 bytes, and otherwise returns the ciphertext followed by a 16-byte tag,
/// which decrypts back to the plaintext under the same key and nonce.
#[verifier::external_body]
fn gcm_encrypt(c: &Cipher, nonce: &[u8], plain: &[u8]) -> (r: Result<Vec<u8>, aes_gcm::Error>)
    requires
        nonce@.len() == NONCE_LEN,
    ensures
        r is Ok <==> plain@.len() <= MAX_PLAINTEXT,
        r is Ok ==> {
            &&& r->Ok_0@ == gcm_sealed(c.key(), nonce@, plain@)
            &&& r->Ok_0@.len() == plain@.len() + TAG_LEN
            &&& gcm_opened(c.key(), nonce@, r->Ok_0@) == Some(plain@)
        },
{
    c.state.inner.encrypt(Nonce::from_slice(nonce), plain)
}

/// Relies on Aead::decrypt of Aes256Gcm: the plaintext where the tag
/// authenticates, an error otherwise, and always an error on input shorter
/// than a tag.
#[verifier::external_body]
fn gcm_decrypt(c: &Cipher, nonce: &[u8], sealed: &[u8]) -> (r: Result<Vec<u8>, aes_gcm::Error>)
    requires
        nonce@.len() == NONCE_LEN,
    ensures
        match r {
            Ok(p) => gcm_opened(c.key(), nonce@, sealed@) == Some(p@),
            Err(_) => gcm_opened(c.key(), nonce@, sealed@) is None,
        },
        sealed@.len() < TAG_LEN ==> r is Err,
{
    c.state.inner.decrypt(Nonce::from_slice(nonce), sealed)
}

/// The plaintext that a stored envelope holds under `key`: none where it is
/// too short to hold a nonce and a ciphertext, or where it does not
/// authenticate.
pub open spec fn envelope_plaintext(key: Seq<u8>, env: Seq<u8>) -> Option<Seq<u8>> {
    if env.len() <= NONCE_LEN {
        None
    } else {
        gcm_opened(key, env.take(NONCE_LEN as int), env.skip(NONCE_LEN as int))
    }
}

/// What reading a store file gave.
#[derive(Debug)]
pub enum LoadOutcome {
    /// There is no store file: the first run.
    Missing,
    /// The file is too short to hold a nonce and a ciphertext.
    Malformed,
    /// The ciphertext does not authenticate: wrong key, or corrupted or
    /// tampered with.
    Rejected,
    /// The authenticated plaintext.
    Opened(Vec<u8>),
}

/// Why a save wrote nothing.
#[derive(Clone, Copy, Debug, PartialEq, Eq, Structural)]
pub enum SaveError {
    /// The operating system gave no random bytes for the nonce.
    RandomUnavailable,
    /// The payload is longer than AES-GCM can encrypt.
    TooLarge,
}

/// Opens the content of a store file, or reports why there is nothing to
/// open. `None` stands for a file that could not be read.
pub fn open_envelope(c: &Cipher, stored: Option<Vec<u8>>) -> (r: LoadOutcome)
    ensures
        stored is None <==> r is Missing,
        r is Malformed <==> (stored is Some && stored->Some_0@.len() <= NONCE_LEN),
        r is Rejected <==> (stored is Some && stored->Some_0@.len() > NONCE_LEN
            && envelope_plaintext(c.key(), stored->Some_0@) is None),
        r is Opened ==> (stored is Some && envelope_plaintext(c.key(), stored->Some_0@)
            == Some(r->Opened_0@)),
{
    match stored {
        None => LoadOutcome::Missing,
        Some(bytes) => {
            if bytes.len() <= NONCE_LEN {
                LoadOutcome::Malformed
            } else {
                let all = bytes.as_slice();
                let nonce = vstd::slice::slice_subrange(all, 0, NONCE_LEN);
                let sealed = vstd::slice::slice_subrange(all, NONCE_LEN, all.len());
                assert(nonce@ == bytes@.take(NONCE_LEN as int));
                assert(sealed@ == bytes@.skip(NONCE_LEN as int));
                match gcm_decrypt(c, nonce, sealed) {
                    Ok(p) => LoadOutcome::Opened(p),
                    Err(_) => LoadOutcome::Rejected,
                }
            }
        },
    }
}

/// The plaintext of a store file, or an empty payload where there is none
/// to be had: no file, a short file, or one that does not authenticate.
pub fn load_payload(c: &Cipher, stored: Option<Vec<u8>>) -> (r: Vec<u8>)
    ensures
        match stored {
            None => r@.len() == 0,
            Some(env) => match envelope_plaintext(c.key(), env@) {
                Some(p) => r@ == p,
                None => r@.len() == 0,
            },
        },
{
    match open_envelope(c, stored) {
        LoadOutcome::Opened(p) => p,
        _ => Vec::new(),
    }
}

/// Builds the envelope for `payload` under a given nonce: the nonce, then
/// the ciphertext and tag.
pub fn seal_envelope(c: &Cipher, nonce: &[u8], payload: &[u8]) -> (r: Result<Vec<u8>, SaveError>)
    requires
        nonce@.len() == NONCE_LEN,
    ensures
        match r {
            Ok(env) => {
                &&& payload@.len() <= MAX_PLAINTEXT
                &&& env@ == nonce@ + gcm_sealed(c.key(), nonce@, payload@)
                &&& env@.len() == NONCE_LEN + payload@.len() + TAG_LEN
                &&& envelope_plaintext(c.key(), env@) == Some(payload@)
            },
            Err(e) => e == SaveError::TooLarge && payload@.len() > MAX_PLAINTEXT,
        },
{
    match gcm_encrypt(c, nonce, payload) {
        Err(_) => Err(SaveError::TooLarge),
        Ok(sealed) => {
            let mut env = vstd::slice::slice_to_vec(nonce);
            let mut tail = sealed;
            let ghost s = tail@;
            env.append(&mut tail);
            assert(env@.take(NONCE_LEN as int) =~= nonce@);
            assert(env@.skip(NONCE_LEN as int) =~= s);
            Ok(env)
        },
    }
}

/// Encrypts `payload` under a fresh random nonce and gives the bytes to
/// write to the store file. Reading them back under the same cipher yields
/// `payload` again.
pub fn save(c: &Cipher, payload: &[u8]) -> (r: Result<Vec<u8>, SaveError>)
    ensures
        match r {
            Ok(env) => {
                &&& payload@.len() <= MAX_PLAINTEXT
                &&& env@.len() == NONCE_LEN + payload@.len() + TAG_LEN
                &&& env@.skip(NONCE_LEN as int) == gcm_sealed(c.key(), env@.take(NONCE_LEN as int), payload@)
                &&& envelope_plaintext(c.key(), env@) == Some(payload@)
            },
            Err(SaveError::TooLarge) => payload@.len() > MAX_PLAINTEXT,
            Err(SaveError::RandomUnavailable) => true,
        },
{
    match os_random_bytes(NONCE_LEN) {
        Err(_) => Err(SaveError::RandomUnavailable),
        Ok(nonce) => {
            let r = seal_envelope(c, nonce.as_slice(), payload);
            if let Ok(env) = &r {
                assert(env@.take(NONCE_LEN as int) =~= nonce@);
                assert(env@.skip(NONCE_LEN as int) =~= gcm_sealed(c.key(), nonce@, payload@));
            }
            r
        },
    }
}

}
