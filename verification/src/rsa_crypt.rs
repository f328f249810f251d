//! Encryption of short secrets (such as the database password) with RSA and
//! PKCS#1 v1.5 padding, the ciphertext written in unpadded standard base64.
//! The keys are PKCS#1 DER documents; reading them from disk is left to the
//! caller, who hands over the bytes or the reason they could not be read.

use vstd::prelude::*;
use vstd::utf8::{decode_utf8, encode_utf8, valid_utf8};
use crate::error::ErrorApp;
use base64::Engine;
use rsa::pkcs1::{DecodeRsaPrivateKey, DecodeRsaPublicKey, EncodeRsaPrivateKey, EncodeRsaPublicKey};

verus! {

/// The unpadded standard base64 text of `bytes`, as the `base64` crate's
/// `STANDARD_NO_PAD` engine writes it.
pub uninterp spec fn base64_text(bytes: Seq<u8>) -> Seq<char>;

/// The bytes that the `STANDARD_NO_PAD` engine of the `base64` crate decodes
/// from `input`, or nothing where it refuses the input.
pub uninterp spec fn base64_bytes(input: Seq<u8>) -> Option<Seq<u8>>;

/// The text (`Display`) of the error with which the `STANDARD_NO_PAD` engine
/// refuses `input`.
pub uninterp spec fn base64_error_text(input: Seq<u8>) -> Seq<char>;

/// The plaintext that the `rsa` crate recovers with PKCS#1 v1.5 padding from
/// `ciphertext` under the private key in the PKCS#1 DER document `key_der`,
/// or nothing where the key does not parse or the decryption fails.
pub uninterp spec fn pkcs1v15_plaintext(key_der: Seq<u8>, ciphertext: Seq<u8>) -> Option<Seq<u8>>;

/// The text of the error with which the `rsa` crate refuses to parse `key_der`
/// as a private key or to decrypt `ciphertext` with it.
pub uninterp spec fn pkcs1v15_error_text(key_der: Seq<u8>, ciphertext: Seq<u8>) -> Seq<char>;

/// The size in bytes of the modulus of the public key in the PKCS#1 DER
/// document `key_der`, as `RsaPublicKey::from_pkcs1_der` and `size` of the
/// `rsa` crate give it; nothing where the document does not parse.
pub uninterp spec fn public_key_size(key_der: Seq<u8>) -> Option<nat>;

/// The text of the error with which the `rsa` crate refuses to parse `key_der`
/// as a public key or to encrypt `message` under it.
pub uninterp spec fn encrypt_error_text(key_der: Seq<u8>, message: Seq<u8>) -> Seq<char>;

/// The number of bits of the modulus of the private key in the PKCS#1 DER
/// document `private_der`; nothing where the document does not parse.
pub uninterp spec fn modulus_bits(private_der: Seq<u8>) -> Option<nat>;

/// Whether `private_der` and `public_der` are, as PKCS#1 DER documents, an RSA
/// key pair whose two primes are prime: the private key and its public key.
pub uninterp spec fn prime_key_pair(private_der: Seq<u8>, public_der: Seq<u8>) -> bool;

/// The text of the error with which `std::str::from_utf8` refuses `bytes`.
pub uninterp spec fn utf8_error_text(bytes: Seq<u8>) -> Seq<char>;

/// A character of the standard base64 alphabet.
pub open spec fn is_base64_char(c: char) -> bool {
    ('A' <= c && c <= 'Z') || ('a' <= c && c <= 'z') || ('0' <= c && c <= '9') || c == '+' || c
        == '/'
}

/// Calls `Engine::encode` of `base64::engine::general_purpose::STANDARD_NO_PAD`.
/// Trusted: the text is the named encoding of the bytes, has the unpadded
/// length `ceil(4n/3)` and only characters of the standard alphabet, and the
/// same engine decodes it back to the bytes (the crate's round-trip promise).
/// The length bound keeps the crate's size computation from overflowing.
#[verifier::external_body]
fn base64_encode(bytes: &[u8]) -> (r: String)
    requires
        bytes@.len() <= usize::MAX / 2,
    ensures
        r@ == base64_text(bytes@),
        r@.len() == (4 * bytes@.len() + 2) / 3,
        forall|i: int| 0 <= i < r@.len() ==> is_base64_char(#[trigger] r@[i]),
        base64_bytes(encode_utf8(r@)) == Some(bytes@),
{
    base64::engine::general_purpose::STANDARD_NO_PAD.encode(bytes)
}

/// Calls `Engine::decode` of `base64::engine::general_purpose::STANDARD_NO_PAD`.
/// Trusted: it succeeds exactly where the named decoding has bytes, and gives
/// them; a refusal carries the named text of the crate's error.
#[verifier::external_body]
fn base64_decode(input: &[u8]) -> (r: Result<Vec<u8>, String>)
    ensures
        r is Ok <==> base64_bytes(input@) is Some,
        r matches Ok(v) ==> base64_bytes(input@) == Some(v@),
        r matches Err(m) ==> m@ == base64_error_text(input@),
{
    base64::engine::general_purpose::STANDARD_NO_PAD.decode(input).map_err(|e| e.to_string())
}

/// Calls `RsaPrivateKey::from_pkcs1_der` on `key_der` and `RsaPrivateKey::decrypt`
/// with `Pkcs1v15Encrypt` on the key it gives. Trusted: it succeeds exactly
/// where the named plaintext exists, and gives it; a failure carries the named
/// text of the crate's error.
#[verifier::external_body]
fn rsa_decrypt(key_der: &[u8], ciphertext: &[u8]) -> (r: Result<Vec<u8>, String>)
    ensures
        r is Ok <==> pkcs1v15_plaintext(key_der@, ciphertext@) is Some,
        r matches Ok(v) ==> pkcs1v15_plaintext(key_der@, ciphertext@) == Some(v@),
        r matches Err(m) ==> m@ == pkcs1v15_error_text(key_der@, ciphertext@),
{
    let key = rsa::RsaPrivateKey::from_pkcs1_der(key_der).map_err(|e| e.to_string())?;
    key.decrypt(rsa::Pkcs1v15Encrypt, ciphertext).map_err(|e| e.to_string())
}

/// Calls `RsaPublicKey::from_pkcs1_der` on `key_der` and `RsaPublicKey::encrypt`
/// with `rand::thread_rng()` and `Pkcs1v15Encrypt` on the key it gives. The
/// padding is random, so which ciphertext comes back is not stated. Trusted,
/// from the crate's source: it succeeds exactly where the key parses (at most
/// 4096 bits) and the message is at least 11 bytes shorter than the modulus;
/// the ciphertext is as long as the modulus; a failure carries the named text
/// of the crate's error; and (RSA's correctness) the private key of a pair
/// with prime primes decrypts the ciphertext back to `message`.
#[verifier::external_body]
fn rsa_encrypt(key_der: &[u8], message: &[u8]) -> (r: Result<Vec<u8>, String>)
    ensures
        r is Ok <==> (public_key_size(key_der@) matches Some(k) && message@.len() + 11 <= k),
        r matches Ok(c) ==> public_key_size(key_der@) == Some(c@.len()) && c@.len() <= 512,
        r matches Err(m) ==> m@ == encrypt_error_text(key_der@, message@),
        r matches Ok(c) ==> forall|d: Seq<u8>|
            prime_key_pair(d, key_der@) ==> #[trigger] pkcs1v15_plaintext(d, c@) == Some(
                message@,
            ),
{
    let key = rsa::RsaPublicKey::from_pkcs1_der(key_der).map_err(|e| e.to_string())?;
    key.encrypt(&mut rand::thread_rng(), rsa::Pkcs1v15Encrypt, message).map_err(|e| e.to_string())
}

/// Calls `RsaPrivateKey::new` with `rand::thread_rng()` and `bits`, then writes
/// the key and its public key (`RsaPublicKey::from`) as PKCS#1 DER documents
/// (`to_pkcs1_der`). The key is random, so which key comes back is not stated.
/// Trusted, from the crate's source: the modulus has exactly `bits` bits (the
/// generation loop repeats until it does), and the two documents are the
/// private and public key of a pair whose primes come from the crate's prime
/// generation (a Baillie-PSW probable-prime test), taken here to be prime.
#[verifier::external_body]
fn rsa_generate(bits: usize) -> (r: Result<(Vec<u8>, Vec<u8>), String>)
    ensures
        r matches Ok((private_der, public_der)) ==> prime_key_pair(private_der@, public_der@),
        r matches Ok((private_der, public_der)) ==> modulus_bits(private_der@) == Some(
            bits as nat,
        ),
{
    let key = rsa::RsaPrivateKey::new(&mut rand::thread_rng(), bits).map_err(|e| e.to_string())?;
    let private_der = key.to_pkcs1_der().map_err(|e| e.to_string())?.as_bytes().to_vec();
    let public_der = rsa::RsaPublicKey::from(&key).to_pkcs1_der().map_err(|e| e.to_string())?;
    Ok((private_der, public_der.as_bytes().to_vec()))
}

/// Calls `std::str::from_utf8` and copies the text it gives into a `String`.
/// Trusted, as std documents it: it succeeds exactly on valid UTF-8, and the
/// text is what the bytes encode; a refusal carries the named text of std's
/// error.
#[verifier::external_body]
fn utf8_text(bytes: &[u8]) -> (r: Result<String, String>)
    ensures
        r is Ok <==> valid_utf8(bytes@),
        r matches Ok(s) ==> s@ == decode_utf8(bytes@),
        r matches Err(m) ==> m@ == utf8_error_text(bytes@),
{
    std::str::from_utf8(bytes).map(|s| s.to_string()).map_err(|e| e.to_string())
}

/// The size of the keys that `generate_rsa_key` makes.
pub const KEY_BITS: usize = 2048;

/// A new 2048-bit key pair: the private key and then its public key, each as
/// a PKCS#1 DER document; or the reason generation failed.
pub fn generate_rsa_key() -> (r: Result<(Vec<u8>, Vec<u8>), ErrorApp>)
    ensures
        r matches Ok((private_der, public_der)) ==> prime_key_pair(private_der@, public_der@),
        r matches Ok((private_der, _)) ==> modulus_bits(private_der@) == Some(2048nat),
        r matches Err(e) ==> e is OtherErr,
{
    match rsa_generate(KEY_BITS) {
        Ok(pair) => Ok(pair),
        Err(m) => Err(ErrorApp::OtherErr(m)),
    }
}

/// A key document as plain values: its bytes, or the reason it could not be read.
pub open spec fn key_view(key: Result<Vec<u8>, String>) -> Result<Seq<u8>, Seq<char>> {
    match key {
        Ok(k) => Ok(k@),
        Err(m) => Err(m@),
    }
}

/// What `decrypt` gives for the text `data` and the private key: the text the
/// plaintext encodes, or the text of the first failure among decoding the
/// base64 text, reading the key, decrypting, and reading the plaintext as UTF-8.
pub open spec fn decryption(data: Seq<char>, key: Result<Seq<u8>, Seq<char>>) -> Result<
    Seq<char>,
    Seq<char>,
> {
    let input = encode_utf8(data);
    match base64_bytes(input) {
        None => Err(base64_error_text(input)),
        Some(c) => match key {
            Err(m) => Err(m),
            Ok(k) => match pkcs1v15_plaintext(k, c) {
                None => Err(pkcs1v15_error_text(k, c)),
                Some(p) => if valid_utf8(p) {
                    Ok(decode_utf8(p))
                } else {
                    Err(utf8_error_text(p))
                },
            },
        },
    }
}

/// What `encrypt` gives for the text `data` and the public key, where the
/// result does not depend on the random padding: for a key that could not be
/// read, its reason; for a key that does not parse or a text (as UTF-8) less
/// than 11 bytes shorter than the modulus, the `rsa` crate's error; else
/// nothing, since the ciphertext is random (see `encrypts`).
pub open spec fn encryption_failure(data: Seq<char>, key: Result<Seq<u8>, Seq<char>>) -> Option<
    Seq<char>,
> {
    match key {
        Err(m) => Some(m),
        Ok(k) => {
            let bytes = encode_utf8(data);
            if public_key_size(k) matches Some(n) && bytes.len() + 11 <= n {
                None
            } else {
                Some(encrypt_error_text(k, bytes))
            }
        },
    }
}

/// Whether `text` is an encryption of `data` under the public key `public_der`:
/// the base64 text of a ciphertext as long as the modulus, which the private
/// key of every pair with prime primes and that public key decrypts to the
/// UTF-8 bytes of `data`.
pub open spec fn encrypts(text: Seq<char>, public_der: Seq<u8>, data: Seq<char>) -> bool {
    exists|c: Seq<u8>|
        {
            &&& text == #[trigger] base64_text(c)
            &&& base64_bytes(encode_utf8(text)) == Some(c)
            &&& public_key_size(public_der) == Some(c.len())
            &&& forall|d: Seq<u8>|
                prime_key_pair(d, public_der) ==> #[trigger] pkcs1v15_plaintext(d, c) == Some(
                    encode_utf8(data),
                )
        }
}

/// Encrypts the text `data` with the public key, given as the bytes of its
/// PKCS#1 DER document or as the reason they could not be read, and writes the
/// ciphertext in unpadded base64: `ceil(4k/3)` characters of the standard
/// alphabet for a `k`-byte modulus. It fails, as an `OtherErr` with the text of
/// `encryption_failure`, exactly where that gives one.
pub fn encrypt(
    data: &str,
    public_key_der: Result<Vec<u8>, String>,
) -> (r: Result<String, ErrorApp>)
    ensures
        match encryption_failure(data@, key_view(public_key_der)) {
            Some(m) => r matches Err(ErrorApp::OtherErr(e)) && e@ == m,
            None => r matches Ok(s) && public_key_der matches Ok(k) && {
                &&& encrypts(s@, k@, data@)
                &&& public_key_size(k@) matches Some(n) && s@.len() == (4 * n + 2) / 3
                &&& forall|i: int| 0 <= i < s@.len() ==> is_base64_char(#[trigger] s@[i])
            },
        },
{
    let key = match public_key_der {
        Ok(k) => k,
        Err(m) => return Err(ErrorApp::OtherErr(m)),
    };
    let ciphertext = match rsa_encrypt(key.as_slice(), data.as_bytes()) {
        Ok(c) => c,
        Err(m) => return Err(ErrorApp::OtherErr(m)),
    };
    let s = base64_encode(ciphertext.as_slice());
    assert(s@ == base64_text(ciphertext@));
    assert(encrypts(s@, key@, data@));
    Ok(s)
}

/// Decrypts the unpadded base64 text `data` with the private key, given as the
/// bytes of its PKCS#1 DER document or as the reason they could not be read:
/// the result is `decryption`, a failure as an `OtherErr` with its text. The
/// text is decoded before the key is looked at.
pub fn decrypt(
    data: &str,
    private_key_der: Result<Vec<u8>, String>,
) -> (r: Result<String, ErrorApp>)
    ensures
        match decryption(data@, key_view(private_key_der)) {
            Ok(p) => r matches Ok(s) && s@ == p,
            Err(m) => r matches Err(ErrorApp::OtherErr(e)) && e@ == m,
        },
{
    let ciphertext = match base64_decode(data.as_bytes()) {
        Ok(c) => c,
        Err(m) => return Err(ErrorApp::OtherErr(m)),
    };
    let key = match private_key_der {
        Ok(k) => k,
        Err(m) => return Err(ErrorApp::OtherErr(m)),
    };
    let plaintext = match rsa_decrypt(key.as_slice(), ciphertext.as_slice()) {
        Ok(p) => p,
        Err(m) => return Err(ErrorApp::OtherErr(m)),
    };
    match utf8_text(plaintext.as_slice()) {
        Ok(s) => Ok(s),
        Err(m) => Err(ErrorApp::OtherErr(m)),
    }
}

/// What `encrypt` writes with a public key, `decrypt` reads back to the same
/// text with the private key of a pair with prime primes, such as
/// `generate_rsa_key` makes.
pub proof fn law_decrypt_reads_what_encrypt_wrote(
    text: Seq<char>,
    public_der: Seq<u8>,
    private_der: Seq<u8>,
    data: Seq<char>,
)
    requires
        encrypts(text, public_der, data),
        prime_key_pair(private_der, public_der),
    ensures
        decryption(text, Ok(private_der)) == Ok::<Seq<char>, Seq<char>>(data),
{
    broadcast use vstd::utf8::encode_utf8_valid_utf8, vstd::utf8::encode_utf8_decode_utf8;

    let c = choose|c: Seq<u8>|
        {
            &&& text == #[trigger] base64_text(c)
            &&& base64_bytes(encode_utf8(text)) == Some(c)
            &&& public_key_size(public_der) == Some(c.len())
            &&& forall|d: Seq<u8>|
                prime_key_pair(d, public_der) ==> #[trigger] pkcs1v15_plaintext(d, c) == Some(
                    encode_utf8(data),
                )
        };
    assert(pkcs1v15_plaintext(private_der, c) == Some(encode_utf8(data)));
}

} // verus!
