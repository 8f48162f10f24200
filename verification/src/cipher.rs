//! The cipher codec: a plaintext message becomes base64 of a random 16-byte
//! IV followed by its AES-256-CBC/PKCS#7 ciphertext, and back. The envelope
//! carries no integrity tag: confidentiality only, an inherited scope limit.

use vstd::prelude::*;
use crate::classify::{looks_envelope, ENVELOPE_MIN_LEN};
use crate::text::ascii_alnum;
use cbc::cipher::block_padding::Pkcs7;
use cbc::cipher::{BlockDecryptMut, BlockEncryptMut, KeyIvInit};

verus! {

use vstd::utf8::{decode_utf8, encode_utf8, valid_utf8};

#[verifier::external_type_specification]
#[verifier::external_body]
pub struct ExBase64DecodeError(base64::DecodeError);

#[verifier::external_type_specification]
#[verifier::external_body]
pub struct ExGetrandomError(getrandom::Error);

#[verifier::external_type_specification]
#[verifier::external_body]
pub struct ExPadError(cbc::cipher::inout::PadError);

#[verifier::external_type_specification]
#[verifier::external_body]
pub struct ExUnpadError(cbc::cipher::block_padding::UnpadError);

/// What the padded standard base64 encoding of a byte sequence reads as.
pub uninterp spec fn b64_of(b: Seq<u8>) -> Seq<char>;

/// What standard base64 decoding makes of a string: its bytes, or nothing
/// when the string is not canonically padded standard base64.
pub uninterp spec fn b64_decode_of(s: Seq<char>) -> Option<Seq<u8>>;

/// What AES-256-CBC with PKCS#7 padding makes of a plaintext under a key
/// and an IV.
pub uninterp spec fn cbc_encrypt_of(key: Seq<u8>, iv: Seq<u8>, pt: Seq<u8>) -> Seq<u8>;

/// What AES-256-CBC decryption with PKCS#7 unpadding makes of a ciphertext:
/// the unpadded plaintext, or nothing when the length is not a whole number
/// of blocks or the padding that comes out is malformed.
pub uninterp spec fn cbc_decrypt_of(key: Seq<u8>, iv: Seq<u8>, ct: Seq<u8>) -> Option<Seq<u8>>;

/// A character of the standard base64 alphabet, padding included.
pub open spec fn base64_std_char(c: char) -> bool {
    ascii_alnum(c) || c == '+' || c == '/' || c == '='
}

/// Relies on base64's `STANDARD` engine `encode`: padded standard-alphabet
/// base64, four characters for every three bytes begun, which the same
/// engine's `decode` inverts.
#[verifier::external_body]
fn b64_encode(data: &Vec<u8>) -> (r: String)
    ensures
        r@ == b64_of(data@),
        r@.len() == 4 * ((data@.len() + 2) / 3),
        forall|i: int| 0 <= i < r@.len() ==> base64_std_char(#[trigger] r@[i]),
        b64_decode_of(r@) == Some(data@),
{
    base64::Engine::encode(&base64::engine::general_purpose::STANDARD, data)
}

/// Relies on base64's `STANDARD` engine `decode`: the bytes a canonically
/// padded standard-alphabet base64 string spells, an error otherwise.
#[verifier::external_body]
fn b64_decode(s: &str) -> (r: Result<Vec<u8>, base64::DecodeError>)
    ensures
        r matches Ok(v) ==> b64_decode_of(s@) == Some(v@),
        r is Err ==> b64_decode_of(s@) is None,
{
    base64::Engine::decode(&base64::engine::general_purpose::STANDARD, s)
}

/// Relies on `getrandom::getrandom`: fills the buffer from the operating
/// system's secure random source, or reports that none is available.
/// Nothing can be said of the bytes themselves.
#[verifier::external_body]
fn random_iv() -> (r: Result<[u8; 16], getrandom::Error>)
    ensures
        r matches Ok(iv) ==> iv@.len() == 16,
{
    let mut iv = [0u8; 16];
    match getrandom::getrandom(&mut iv) {
        Ok(()) => Ok(iv),
        Err(e) => Err(e),
    }
}

/// Relies on `cbc::Encryptor<aes::Aes256>` with `Pkcs7`: the ciphertext is
/// a function of key, IV and plaintext alone, one block longer than the
/// plaintext rounded down, and decryption under the same key and IV
/// recovers the plaintext. The padded encrypt fails only when its output
/// buffer is undersized, and the body sizes it exactly, so the call
/// succeeds.
#[verifier::external_body]
fn aes256_cbc_encrypt(key: &[u8], iv: &[u8], pt: &[u8]) -> (r: Result<
    Vec<u8>,
    cbc::cipher::inout::PadError,
>)
    requires
        key@.len() == 32,
        iv@.len() == 16,
    ensures
        r is Ok,
        r matches Ok(ct) ==> {
            &&& ct@ == cbc_encrypt_of(key@, iv@, pt@)
            &&& ct@.len() % 16 == 0
            &&& pt@.len() < ct@.len() <= pt@.len() + 16
            &&& cbc_decrypt_of(key@, iv@, ct@) == Some(pt@)
        },
{
    let padded_len = pt.len() + 16 - (pt.len() % 16);
    let mut buf = vec![0u8; padded_len];
    let enc: cbc::Encryptor<aes::Aes256> = KeyIvInit::new(key.into(), iv.into());
    match enc.encrypt_padded_b2b_mut::<Pkcs7>(pt, &mut buf) {
        Ok(ct) => Ok(ct.to_vec()),
        Err(e) => Err(e),
    }
}

/// Relies on `cbc::Decryptor<aes::Aes256>` with `Pkcs7`: succeeds exactly
/// when the ciphertext is whole blocks whose decryption ends in well-formed
/// padding, and then returns the unpadded plaintext.
#[verifier::external_body]
fn aes256_cbc_decrypt(key: &[u8], iv: &[u8], ct: &[u8]) -> (r: Result<
    Vec<u8>,
    cbc::cipher::block_padding::UnpadError,
>)
    requires
        key@.len() == 32,
        iv@.len() == 16,
    ensures
        r matches Ok(pt) ==> cbc_decrypt_of(key@, iv@, ct@) == Some(pt@),
        r is Err ==> cbc_decrypt_of(key@, iv@, ct@) is None,
{
    let mut buf = ct.to_vec();
    let dec: cbc::Decryptor<aes::Aes256> = KeyIvInit::new(key.into(), iv.into());
    match dec.decrypt_padded_mut::<Pkcs7>(&mut buf) {
        Ok(pt) => Ok(pt.to_vec()),
        Err(e) => Err(e),
    }
}

/// Relies on `String::from_utf8`: succeeds exactly on valid UTF-8 and then
/// returns its decoding, in the terms of vstd's UTF-8 model.
#[verifier::external_body]
fn utf8_to_string(bytes: Vec<u8>) -> (r: Option<String>)
    ensures
        r matches Some(s) ==> valid_utf8(bytes@) && s@ == decode_utf8(bytes@),
        r is None ==> !valid_utf8(bytes@),
{
    match String::from_utf8(bytes) {
        Ok(s) => Some(s),
        Err(_) => None,
    }
}

/// Why an encrypt was refused.
#[derive(Clone, Copy, PartialEq, Eq, Structural, Debug)]
pub enum EncryptError {
    /// No secure randomness was available for the IV; failing closed.
    RandomSourceError,
    /// The cipher refused the padded buffer. Kept for the error taxonomy;
    /// the codec sizes its buffer from the fixed block size, so encryption
    /// never reports it.
    EncryptionError,
}

/// Why a decrypt was refused. Every variant is a recoverable condition:
/// the expected outcome of decrypting content that is not an envelope.
#[derive(Clone, Copy, PartialEq, Eq, Structural, Debug)]
pub enum DecryptError {
    /// The string is not canonically padded standard base64.
    Base64DecodeError,
    /// The decoded bytes are too short for an IV and one ciphertext block.
    InvalidCiphertextLength,
    /// Decryption did not end in well-formed PKCS#7 padding: wrong key,
    /// corrupted data, or content that was never an envelope.
    PaddingError,
    /// The decrypted bytes are not valid UTF-8 text.
    Utf8DecodeError,
}

/// What decrypting an envelope under a key yields: base64-decode, split off
/// the 16-byte IV, decrypt the rest, read the bytes as UTF-8.
pub open spec fn decrypt_model(env: Seq<char>, key: Seq<u8>) -> Result<Seq<char>, DecryptError> {
    match b64_decode_of(env) {
        Option::None => Err(DecryptError::Base64DecodeError),
        Option::Some(data) => {
            if data.len() < 17 {
                Err(DecryptError::InvalidCiphertextLength)
            } else {
                match cbc_decrypt_of(key, data.take(16), data.skip(16)) {
                    Option::None => Err(DecryptError::PaddingError),
                    Option::Some(pt) => {
                        if valid_utf8(pt) {
                            Ok(decode_utf8(pt))
                        } else {
                            Err(DecryptError::Utf8DecodeError)
                        }
                    },
                }
            }
        },
    }
}

/// Decrypt an envelope: base64-decode, take the first sixteen bytes as the
/// IV, decrypt the remainder under the key, and read the result as UTF-8.
/// The key is used as raw bytes and must be exactly 32 of them.
pub fn decrypt_message(encrypted_message: &str, encryption_key: &str) -> (r: Result<
    String,
    DecryptError,
>)
    requires
        encode_utf8(encryption_key@).len() == 32,
    ensures
        match r {
            Ok(s) => decrypt_model(encrypted_message@, encode_utf8(encryption_key@))
                == Ok::<Seq<char>, DecryptError>(s@),
            Err(e) => decrypt_model(encrypted_message@, encode_utf8(encryption_key@))
                == Err::<Seq<char>, DecryptError>(e),
        },
{
    let key = encryption_key.as_bytes();
    let decoded = match b64_decode(encrypted_message) {
        Ok(v) => v,
        Err(_) => {
            return Err(DecryptError::Base64DecodeError);
        },
    };
    if decoded.len() < 17 {
        return Err(DecryptError::InvalidCiphertextLength);
    }
    let iv = vstd::slice::slice_subrange(decoded.as_slice(), 0, 16);
    let ct = vstd::slice::slice_subrange(decoded.as_slice(), 16, decoded.len());
    match aes256_cbc_decrypt(key, iv, ct) {
        Err(_) => Err(DecryptError::PaddingError),
        Ok(pt) => match utf8_to_string(pt) {
            Some(s) => Ok(s),
            None => Err(DecryptError::Utf8DecodeError),
        },
    }
}

/// The structure of an envelope written under a key with a given IV: the
/// text is the base64 of the IV followed by the ciphertext, it base64-decodes
/// back to exactly that pair, and the ciphertext pads the plaintext out to
/// the next whole 16-byte block.
pub open spec fn envelope_of(env: Seq<char>, key: Seq<u8>, msg: Seq<u8>, iv: Seq<u8>) -> bool {
    let ct = cbc_encrypt_of(key, iv, msg);
    &&& iv.len() == 16
    &&& env == b64_of(iv + ct)
    &&& b64_decode_of(env) == Some(iv + ct)
    &&& ct.len() == 16 * (msg.len() / 16 + 1)
}

/// Encrypt a message under a 32-byte key: a fresh random 16-byte IV, the
/// AES-256-CBC/PKCS#7 ciphertext of the message's UTF-8 bytes, and the pair
/// base64-encoded. Decrypting the result under the same key gives the
/// message back; the result is ASCII standard base64 of IV-then-ciphertext
/// and always wears the envelope shape the classifier looks for. The one
/// failure is a missing secure random source.
pub fn encrypt_message(message: &str, encryption_key: &str) -> (r: Result<String, EncryptError>)
    requires
        encode_utf8(encryption_key@).len() == 32,
    ensures
        r matches Ok(env) ==> {
            &&& decrypt_model(env@, encode_utf8(encryption_key@)) == Ok::<
                Seq<char>,
                DecryptError,
            >(message@)
            &&& looks_envelope(env@)
            &&& forall|i: int| 0 <= i < env@.len() ==> base64_std_char(#[trigger] env@[i])
            &&& env@.len() >= 44
            &&& env@.len() % 4 == 0
            &&& exists|iv: Seq<u8>|
                envelope_of(env@, encode_utf8(encryption_key@), encode_utf8(message@), iv)
        },
        r matches Err(e) ==> e == EncryptError::RandomSourceError,
{
    let key = encryption_key.as_bytes();
    let iv = match random_iv() {
        Ok(iv) => iv,
        Err(_) => {
            return Err(EncryptError::RandomSourceError);
        },
    };
    let pt = message.as_bytes();
    let ct = match aes256_cbc_encrypt(key, &iv, pt) {
        Ok(ct) => ct,
        Err(_) => {
            return Err(EncryptError::EncryptionError);
        },
    };
    let mut combined: Vec<u8> = Vec::new();
    let mut i: usize = 0;
    while i < 16
        invariant
            0 <= i <= 16,
            combined@ =~= iv@.subrange(0, i as int),
        decreases 16 - i,
    {
        combined.push(iv[i]);
        i = i + 1;
    }
    let mut j: usize = 0;
    while j < ct.len()
        invariant
            0 <= j <= ct@.len(),
            combined@ =~= iv@ + ct@.subrange(0, j as int),
        decreases ct@.len() - j,
    {
        combined.push(ct[j]);
        j = j + 1;
    }
    proof {
        assert(combined@ =~= iv@ + ct@);
    }
    let env = b64_encode(&combined);
    proof {
        let kb = encode_utf8(encryption_key@);
        let mb = encode_utf8(message@);
        assert(combined@.len() >= 32);
        assert(env@.len() >= 44);
        vstd::arithmetic::div_mod::lemma_mod_multiples_basic(
            (combined@.len() + 2) as int / 3,
            4,
        );
        assert(env@.len() % 4 == 0);
        lemma_envelope_shape(env@);
        assert(combined@.take(16) =~= iv@);
        assert(combined@.skip(16) =~= ct@);
        broadcast use vstd::utf8::encode_utf8_valid_utf8, vstd::utf8::encode_utf8_decode_utf8;

        assert(decrypt_model(env@, kb) == Ok::<Seq<char>, DecryptError>(message@));
        let n = mb.len() as int;
        let m = ct@.len() as int;
        let q = n / 16;
        let rr = n % 16;
        vstd::arithmetic::div_mod::lemma_fundamental_div_mod(n, 16);
        vstd::arithmetic::div_mod::lemma_mod_division_less_than_divisor(n, 16);
        vstd::arithmetic::div_mod::lemma_fundamental_div_mod(m, 16);
        let k = m / 16;
        assert(k == q + 1) by (nonlinear_arith)
            requires
                m == 16 * k + (m % 16),
                m % 16 == 0,
                n == 16 * q + rr,
                0 <= rr < 16,
                n < m,
                m <= n + 16,
        ;
        assert(m == 16 * (q + 1));
        assert(envelope_of(env@, kb, mb, iv@));
    }
    Ok(env)
}

proof fn lemma_envelope_shape(s: Seq<char>)
    requires
        forall|i: int| 0 <= i < s.len() ==> base64_std_char(#[trigger] s[i]),
        s.len() > ENVELOPE_MIN_LEN as int,
    ensures
        looks_envelope(s),
{
    assert forall|i: int| 0 <= i < s.len() implies crate::classify::base64ish_char(
        #[trigger] s[i],
    ) by {
        assert((s[i] as u32) < 128);
    }
    assert(vstd::utf8::is_ascii_chars(s));
    vstd::utf8::is_ascii_chars_encode_utf8(s);
    assert(encode_utf8(s).len() == s.len());
}

} // verus!
