use vstd::prelude::*;
use rand::RngCore;
use crate::envelope::Cipher;

verus! {

#[verifier::external_type_specification]
#[verifier::external_body]
pub struct ExFromHexError(hex::FromHexError);

#[verifier::external_type_specification]
#[verifier::external_body]
pub struct ExRandError(rand::Error);

/// Length in bytes of the symmetric key.
pub const KEY_LEN: usize = 32;

/// Length in characters of the key's text form.
pub const KEY_TEXT_LEN: usize = 64;

pub open spec fn is_hex_digit(c: char) -> bool {
    ('0' <= c && c <= '9') || ('a' <= c && c <= 'f') || ('A' <= c && c <= 'F')
}

/// The value of a hexadecimal digit of either case.
pub open spec fn hex_value(c: char) -> int {
    if '0' <= c && c <= '9' {
        c as int - '0' as int
    } else if 'a' <= c && c <= 'f' {
        c as int - 'a' as int + 10
    } else {
        c as int - 'A' as int + 10
    }
}

/// The lowercase hexadecimal digits, by value.
pub open spec fn lower_digits() -> Seq<char> {
    seq!['0', '1', '2', '3', '4', '5', '6', '7', '8', '9', 'a', 'b', 'c', 'd', 'e', 'f']
}

/// Text that decodes as hexadecimal: an even number of hex digits.
pub open spec fn is_hex_text(s: Seq<char>) -> bool {
    &&& s.len() % 2 == 0
    &&& forall|i: int| 0 <= i < s.len() ==> is_hex_digit(#[trigger] s[i])
}

/// The bytes that hex text stands for: each pair of digits, high digit first.
pub open spec fn decoded_hex(s: Seq<char>) -> Seq<u8> {
    Seq::new(s.len() / 2, |i: int| (16 * hex_value(s[2 * i]) + hex_value(s[2 * i + 1])) as u8)
}

/// The lowercase hex text of some bytes: two digits per byte, high digit first.
pub open spec fn lower_hex(b: Seq<u8>) -> Seq<char> {
    Seq::new(
        2 * b.len(),
        |j: int|
            if j % 2 == 0 {
                lower_digits()[b[j / 2] as int / 16]
            } else {
                lower_digits()[b[j / 2] as int % 16]
            },
    )
}

/// What `str::trim` leaves of a text.
pub uninterp spec fn trimmed(s: Seq<char>) -> Seq<char>;

/// Relies on hex::encode: two lowercase digits per byte, high digit first.
#[verifier::external_body]
fn hex_encode(b: &[u8]) -> (r: String)
    ensures
        r@ == lower_hex(b@),
{
    hex::encode(b)
}

/// Relies on hex::decode: it accepts exactly an even number of digits of
/// either case and combines each pair, high digit first.
#[verifier::external_body]
fn hex_decode(s: &str) -> (r: Result<Vec<u8>, hex::FromHexError>)
    ensures
        r is Ok <==> is_hex_text(s@),
        r is Ok ==> r->Ok_0@ == decoded_hex(s@),
{
    hex::decode(s)
}

/// Relies on str::trim: it strips leading and trailing whitespace, and
/// hexadecimal digits are not whitespace.
#[verifier::external_body]
fn trim(s: &str) -> (r: &str)
    ensures
        r@ == trimmed(s@),
        (forall|i: int| 0 <= i < s@.len() ==> is_hex_digit(#[trigger] s@[i])) ==> r@ == s@,
{
    s.trim()
}

/// Relies on rand's OsRng::try_fill_bytes: `n` bytes from the operating
/// system's secure source, or its error.
#[verifier::external_body]
pub(crate) fn os_random_bytes(n: usize) -> (r: Result<Vec<u8>, rand::Error>)
    ensures
        r is Ok ==> r->Ok_0@.len() == n,
{
    let mut b = vec![0u8; n];
    rand::rngs::OsRng.try_fill_bytes(&mut b).map(|_| b)
}

/// Why no key could be had.
#[derive(Clone, Copy, Debug, PartialEq, Eq, Structural)]
pub enum KeyError {
    /// The stored text is not an even number of hexadecimal digits.
    InvalidHex,
    /// The stored text decodes, but not to 32 bytes.
    WrongLength,
    /// The operating system gave no random bytes.
    RandomUnavailable,
}

/// What decoding a (trimmed) key text gives.
pub open spec fn key_text_result(t: Seq<char>) -> Result<Seq<u8>, KeyError> {
    if !is_hex_text(t) {
        Err(KeyError::InvalidHex)
    } else if t.len() != 2 * KEY_LEN {
        Err(KeyError::WrongLength)
    } else {
        Ok(decoded_hex(t))
    }
}

/// Decodes key text that has already been trimmed.
pub fn key_from_trimmed(t: &str) -> (r: Result<Vec<u8>, KeyError>)
    ensures
        match r {
            Ok(k) => key_text_result(t@) == Ok::<Seq<u8>, KeyError>(k@),
            Err(e) => key_text_result(t@) == Err::<Seq<u8>, KeyError>(e),
        },
{
    match hex_decode(t) {
        Err(_) => Err(KeyError::InvalidHex),
        Ok(bytes) => {
            if bytes.len() != KEY_LEN {
                Err(KeyError::WrongLength)
            } else {
                Ok(bytes)
            }
        },
    }
}

/// Decodes the content of a key file: surrounding whitespace is ignored.
pub fn key_from_text(text: &str) -> (r: Result<Vec<u8>, KeyError>)
    ensures
        match r {
            Ok(k) => key_text_result(trimmed(text@)) == Ok::<Seq<u8>, KeyError>(k@),
            Err(e) => key_text_result(trimmed(text@)) == Err::<Seq<u8>, KeyError>(e),
        },
        (forall|i: int| 0 <= i < text@.len() ==> is_hex_digit(#[trigger] text@[i])) ==> match r {
            Ok(k) => key_text_result(text@) == Ok::<Seq<u8>, KeyError>(k@),
            Err(e) => key_text_result(text@) == Err::<Seq<u8>, KeyError>(e),
        },
{
    let t = trim(text);
    key_from_trimmed(t)
}

/// The lowercase hex text of a key.
pub fn key_to_text(key: &[u8]) -> (r: String)
    ensures
        r@ == lower_hex(key@),
{
    hex_encode(key)
}

/// Draws a fresh key from the operating system and gives it with its text.
pub fn generate_key() -> (r: Result<(Vec<u8>, String), KeyError>)
    ensures
        match r {
            Ok((k, t)) => k@.len() == KEY_LEN && t@ == lower_hex(k@),
            Err(e) => e == KeyError::RandomUnavailable,
        },
{
    match os_random_bytes(KEY_LEN) {
        Err(_) => Err(KeyError::RandomUnavailable),
        Ok(k) => {
            let t = key_to_text(k.as_slice());
            Ok((k, t))
        },
    }
}

/// The key in force for a run: the cipher handle, the key's text as the
/// key file holds it, and whether that text still has to be written.
pub struct KeySetup {
    pub cipher: Cipher,
    pub key_text: String,
    pub write_back: bool,
}

pub open spec fn all_hex_digits(s: Seq<char>) -> bool {
    forall|i: int| 0 <= i < s.len() ==> is_hex_digit(#[trigger] s[i])
}

/// Decides the key at startup from the key file's content, if there is one.
/// A stored key is decoded and never asks for a write, so the key file is
/// never overwritten; with none, a fresh key is drawn and its text is to be
/// written.
pub fn ensure_key(stored: Option<String>) -> (r: Result<KeySetup, KeyError>)
    ensures
        match stored {
            Some(t) => {
                &&& match r {
                    Ok(s) => {
                        &&& key_text_result(trimmed(t@)) == Ok::<Seq<u8>, KeyError>(s.cipher.key())
                        &&& s.key_text@ == t@
                        &&& !s.write_back
                    },
                    Err(e) => key_text_result(trimmed(t@)) == Err::<Seq<u8>, KeyError>(e),
                }
                &&& all_hex_digits(t@) ==> match r {
                    Ok(s) => key_text_result(t@) == Ok::<Seq<u8>, KeyError>(s.cipher.key()),
                    Err(e) => key_text_result(t@) == Err::<Seq<u8>, KeyError>(e),
                }
            },
            None => match r {
                Ok(s) => {
                    &&& s.write_back
                    &&& s.cipher.key().len() == KEY_LEN
                    &&& s.key_text@ == lower_hex(s.cipher.key())
                },
                Err(e) => e == KeyError::RandomUnavailable,
            },
        },
{
    match stored {
        Some(t) => {
            let k = key_from_text(t.as_str())?;
            Ok(KeySetup { cipher: Cipher::new(k), key_text: t, write_back: false })
        },
        None => {
            let (k, t) = generate_key()?;
            let cipher = Cipher::new(k);
            Ok(KeySetup { cipher, key_text: t, write_back: true })
        },
    }
}

proof fn lemma_lower_digits()
    ensures
        forall|d: int|
            0 <= d < 16 ==> is_hex_digit(#[trigger] lower_digits()[d]) && hex_value(lower_digits()[d]) == d,
{
    let s = lower_digits();
    assert(s[0] == '0' && s[1] == '1' && s[2] == '2' && s[3] == '3');
    assert(s[4] == '4' && s[5] == '5' && s[6] == '6' && s[7] == '7');
    assert(s[8] == '8' && s[9] == '9' && s[10] == 'a' && s[11] == 'b');
    assert(s[12] == 'c' && s[13] == 'd' && s[14] == 'e' && s[15] == 'f');
}

/// The text written for a key decodes back to that very key: a key file,
/// once written, yields the same key at every later start.
pub proof fn lemma_key_text_round_trip(k: Seq<u8>)
    requires
        k.len() == KEY_LEN,
    ensures
        is_hex_text(lower_hex(k)),
        lower_hex(k).len() == KEY_TEXT_LEN,
        all_hex_digits(lower_hex(k)),
        key_text_result(lower_hex(k)) == Ok::<Seq<u8>, KeyError>(k),
{
    lemma_lower_digits();
    let t = lower_hex(k);
    assert forall|i: int| 0 <= i < t.len() implies is_hex_digit(#[trigger] t[i]) by {
        assert(0 <= k[i / 2] as int / 16 < 16);
        assert(0 <= k[i / 2] as int % 16 < 16);
    }
    assert forall|i: int| 0 <= i < k.len() implies #[trigger] decoded_hex(t)[i] == k[i] by {
        assert(t[2 * i] == lower_digits()[k[i] as int / 16]);
        assert(t[2 * i + 1] == lower_digits()[k[i] as int % 16]);
        assert((2 * i + 1) / 2 == i);
        assert((2 * i) / 2 == i);
        assert(16 * (k[i] as int / 16) + k[i] as int % 16 == k[i] as int);
    }
    assert(decoded_hex(t) =~= k);
}

}
