use vstd::prelude::*;
use aes_gcm::aead::Aead;
use aes_gcm::aead::AeadCore;
use aes_gcm::KeyInit;
use crate::bytes::append_bytes;
use crate::bytes::copy_range;
use crate::error::TransferError;
use crate::key::SecretKey;
use crate::key::KEY_LEN;

verus! {

/// The length of a nonce in bytes (96 bits).
pub const NONCE_LEN: usize = 12;

/// The length of the authentication tag in bytes (128 bits).
pub const TAG_LEN: usize = 16;

/// The longest plaintext that AES-GCM takes under one nonce, in bytes.
pub const MAX_PLAINTEXT_LEN: u64 = 0x10_0000_0000;

/// What AES-256-GCM makes of a plaintext under a key and a nonce, with no
/// associated data: the ciphertext followed by the tag.
pub uninterp spec fn aes_gcm_encrypt(key: Seq<u8>, nonce: Seq<u8>, plaintext: Seq<u8>) -> Seq<u8>;

/// What AES-256-GCM recovers from a ciphertext with its tag under a key and a
/// nonce, with no associated data; `None` where the tag does not verify or
/// the input is too short to hold one.
pub uninterp spec fn aes_gcm_decrypt(key: Seq<u8>, nonce: Seq<u8>, sealed: Seq<u8>) -> Option<
    Seq<u8>,
>;

/// The envelope of a plaintext under a key and a nonce: the nonce, then the
/// ciphertext and its tag.
pub open spec fn envelope_of(key: Seq<u8>, nonce: Seq<u8>, plaintext: Seq<u8>) -> Seq<u8> {
    nonce + aes_gcm_encrypt(key, nonce, plaintext)
}

/// What opening an envelope under a key gives: the first 12 bytes are the
/// nonce, the rest is ciphertext and tag.
pub open spec fn opened(key: Seq<u8>, envelope: Seq<u8>) -> Result<Seq<u8>, TransferError> {
    if envelope.len() < NONCE_LEN {
        Err(TransferError::MalformedEnvelope)
    } else {
        match aes_gcm_decrypt(
            key,
            envelope.subrange(0, NONCE_LEN as int),
            envelope.subrange(NONCE_LEN as int, envelope.len() as int),
        ) {
            Some(plaintext) => Ok(plaintext),
            None => Err(TransferError::AuthenticationFailure),
        }
    }
}

/// `Aes256Gcm::generate_nonce` with the operating system's random source.
/// The bytes are random, so nothing but their number is stated.
#[verifier::external_body]
fn random_nonce() -> (nonce: Vec<u8>)
    ensures
        nonce@.len() == NONCE_LEN,
{
    aes_gcm::Aes256Gcm::generate_nonce(&mut aes_gcm::aead::OsRng).to_vec()
}

/// `Aes256Gcm::encrypt` on a plain payload. The crate refuses only a
/// plaintext of more than 2^36 bytes, which `requires` leaves out; the result
/// is the plaintext's length and a tag of 16 bytes, and it is what
/// `Aes256Gcm::decrypt` turns back into the plaintext under the same key and
/// nonce.
#[verifier::external_body]
fn encrypt(key: &Vec<u8>, nonce: &Vec<u8>, plaintext: &Vec<u8>) -> (sealed: Vec<u8>)
    requires
        key@.len() == KEY_LEN,
        nonce@.len() == NONCE_LEN,
        plaintext@.len() <= MAX_PLAINTEXT_LEN,
    ensures
        sealed@ == aes_gcm_encrypt(key@, nonce@, plaintext@),
        sealed@.len() == plaintext@.len() + TAG_LEN,
        aes_gcm_decrypt(key@, nonce@, sealed@) == Some(plaintext@),
{
    let cipher = aes_gcm::Aes256Gcm::new(aes_gcm::Key::<aes_gcm::Aes256Gcm>::from_slice(key));
    cipher.encrypt(aes_gcm::Nonce::from_slice(nonce), plaintext.as_slice()).unwrap()
}

/// The error of `Aes256Gcm::decrypt`. It is opaque by design: it does not
/// say why decryption failed.
#[verifier::external_type_specification]
#[verifier::external_body]
pub struct ExAeadError(aes_gcm::Error);

/// `Aes256Gcm::decrypt` on a plain payload: the plaintext, or the crate's
/// error (for a tag that does not verify, or an input too short to hold a
/// tag).
#[verifier::external_body]
fn decrypt(key: &Vec<u8>, nonce: &Vec<u8>, sealed: &Vec<u8>) -> (plaintext: Result<
    Vec<u8>,
    aes_gcm::Error,
>)
    requires
        key@.len() == KEY_LEN,
        nonce@.len() == NONCE_LEN,
    ensures
        match aes_gcm_decrypt(key@, nonce@, sealed@) {
            Some(bytes) => plaintext is Ok && plaintext->Ok_0@ == bytes,
            None => plaintext is Err,
        },
{
    let cipher = aes_gcm::Aes256Gcm::new(aes_gcm::Key::<aes_gcm::Aes256Gcm>::from_slice(key));
    cipher.decrypt(aes_gcm::Nonce::from_slice(nonce), sealed.as_slice())
}

/// Seals a plaintext under a key with the nonce given. The envelope is the
/// nonce followed by the ciphertext and tag, and opening it under the same
/// key gives the plaintext back.
pub fn seal_with_nonce(plaintext: &Vec<u8>, key: &SecretKey, nonce: &Vec<u8>) -> (envelope: Vec<u8>)
    requires
        nonce@.len() == NONCE_LEN,
        plaintext@.len() <= MAX_PLAINTEXT_LEN,
    ensures
        envelope@ == envelope_of(key@, nonce@, plaintext@),
        envelope@.len() == NONCE_LEN + plaintext@.len() + TAG_LEN,
        opened(key@, envelope@) == Ok::<Seq<u8>, TransferError>(plaintext@),
{
    let sealed = encrypt(key.as_bytes(), nonce, plaintext);
    let mut envelope: Vec<u8> = Vec::new();
    append_bytes(&mut envelope, nonce);
    append_bytes(&mut envelope, &sealed);
    proof {
        assert(envelope@ =~= nonce@ + sealed@);
        assert(envelope@.subrange(0, NONCE_LEN as int) =~= nonce@);
        assert(envelope@.subrange(NONCE_LEN as int, envelope@.len() as int) =~= sealed@);
    }
    envelope
}

/// Seals a plaintext under a key with a fresh random nonce. Whatever nonce was
/// drawn, the envelope starts with it, and opening the envelope under the
/// same key gives the plaintext back.
pub fn seal(plaintext: &Vec<u8>, key: &SecretKey) -> (envelope: Vec<u8>)
    requires
        plaintext@.len() <= MAX_PLAINTEXT_LEN,
    ensures
        envelope@.len() == NONCE_LEN + plaintext@.len() + TAG_LEN,
        envelope@ == envelope_of(key@, envelope@.subrange(0, NONCE_LEN as int), plaintext@),
        opened(key@, envelope@) == Ok::<Seq<u8>, TransferError>(plaintext@),
{
    let nonce = random_nonce();
    let envelope = seal_with_nonce(plaintext, key, &nonce);
    proof {
        assert(envelope@.subrange(0, NONCE_LEN as int) =~= nonce@);
    }
    envelope
}

/// Opens an envelope under a key. An envelope shorter than a nonce is
/// `MalformedEnvelope`; one whose tag does not verify under the key is
/// `AuthenticationFailure`; any other gives the plaintext.
pub fn open(envelope: &Vec<u8>, key: &SecretKey) -> (plaintext: Result<Vec<u8>, TransferError>)
    ensures
        match opened(key@, envelope@) {
            Ok(bytes) => plaintext is Ok && plaintext->Ok_0@ == bytes,
            Err(reason) => plaintext == Err::<Vec<u8>, TransferError>(reason),
        },
{
    if envelope.len() < NONCE_LEN {
        return Err(TransferError::MalformedEnvelope);
    }
    let nonce = copy_range(envelope, 0, NONCE_LEN);
    let sealed = copy_range(envelope, NONCE_LEN, envelope.len());
    match decrypt(key.as_bytes(), &nonce, &sealed) {
        Ok(bytes) => Ok(bytes),
        Err(_) => Err(TransferError::AuthenticationFailure),
    }
}

} // verus!
