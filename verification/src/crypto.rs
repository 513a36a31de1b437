//! Key material and the ECDH + AES-256-GCM encryption of calldata.
//!
//! Keys are held as bytes: a secret key as its 32 big-endian bytes, a public key
//! as its 33-byte compressed encoding. The secp256k1 arithmetic and the cipher
//! are seismic-enclave's (which re-exports secp256k1); they are reached through
//! the trusted items at the top of this file.
use vstd::prelude::*;
use vstd::slice::slice_to_vec;

use crate::error::{ErrorModel, SeismicError};
use crate::tx::TxSeismicElements;

verus! {

/// The secp256k1 error type, declared so that wrappers can return it.
#[verifier::external_type_specification]
#[verifier::external_body]
pub struct ExSecp256k1Error(seismic_enclave::Error);

/// anyhow's error type, which seismic-enclave's encryption functions return.
#[verifier::external_type_specification]
#[verifier::external_body]
pub struct ExAnyhowError(anyhow::Error);

/// The number of bytes of a secret key.
pub const SECRET_KEY_SIZE: usize = 32;

/// The number of bytes of a compressed public key.
pub const PUBLIC_KEY_SIZE: usize = 33;

/// The number of bytes of an AES-GCM nonce.
pub const NONCE_SIZE: usize = 12;

/// The number of bytes of the AES-GCM authentication tag appended to a ciphertext.
pub const TAG_SIZE: usize = 16;

/// The unsigned integer that a byte string denotes, most significant byte first.
pub open spec fn be_value(b: Seq<u8>) -> nat
    decreases b.len(),
{
    if b.len() == 0 {
        0
    } else {
        be_value(b.drop_last()) * 256 + b.last() as nat
    }
}

/// The order of the secp256k1 group.
pub open spec fn secp256k1_order() -> nat {
    0xFFFFFFFFFFFFFFFFFFFFFFFFFFFFFFFEBAAEDCE6AF48A03BBFD25E8CD0364141nat
}

/// A valid secp256k1 secret key: 32 bytes whose big-endian value is neither 0
/// nor at least the group order.
pub open spec fn is_secret_key(b: Seq<u8>) -> bool {
    b.len() == 32 && 0 < be_value(b) < secp256k1_order()
}

/// The largest plaintext, in bytes, that AES-GCM encrypts (2^36).
pub open spec fn aes_gcm_max_plaintext() -> nat {
    0x10_0000_0000nat
}

/// The prime of the field over which secp256k1 is defined, 2^256 - 2^32 - 977.
pub open spec fn secp256k1_field_prime() -> nat {
    0xFFFFFFFFFFFFFFFFFFFFFFFFFFFFFFFFFFFFFFFFFFFFFFFFFFFFFFFEFFFFFC2Fnat
}

/// The square of `y` in the field.
pub open spec fn field_square(y: int) -> int {
    (y * y) % (secp256k1_field_prime() as int)
}

/// The right-hand side of the curve equation y^2 = x^3 + 7, in the field.
pub open spec fn curve_rhs(x: int) -> int {
    (x * x * x + 7) % (secp256k1_field_prime() as int)
}

/// Whether an element of the field is a square.
pub open spec fn is_field_square(a: int) -> bool {
    exists|y: int| 0 <= y < secp256k1_field_prime() && #[trigger] field_square(y) == a
}

/// Whether bytes encode a point of secp256k1, as `secp256k1::PublicKey::from_slice`
/// (libsecp256k1's `eckey_pubkey_parse`) reads them: 33 bytes, 0x02 or 0x03 and
/// an x coordinate below the field prime at which the curve has a point; or
/// 65 bytes, 0x04 (or 0x06/0x07, which also give the parity of y) and
/// coordinates below the field prime that satisfy the curve equation. The group
/// of secp256k1 has cofactor 1, so every such point is in the right subgroup.
pub open spec fn secp256k1_public_key_parses(b: Seq<u8>) -> bool {
    if b.len() == 33 && (b[0] == 2 || b[0] == 3) {
        let x = be_value(b.subrange(1, 33));
        x < secp256k1_field_prime() && is_field_square(curve_rhs(x as int))
    } else if b.len() == 65 && (b[0] == 4 || b[0] == 6 || b[0] == 7) {
        let x = be_value(b.subrange(1, 33));
        let y = be_value(b.subrange(33, 65));
        &&& x < secp256k1_field_prime()
        &&& y < secp256k1_field_prime()
        &&& (b[0] == 6 ==> y % 2 == 0)
        &&& (b[0] == 7 ==> y % 2 == 1)
        &&& field_square(y as int) == curve_rhs(x as int)
    } else {
        false
    }
}

/// The compressed encoding of the public key of a secret key
/// (`secp256k1::PublicKey::from_secret_key`, then `serialize`).
pub uninterp spec fn secp256k1_public_key(secret: Seq<u8>) -> Seq<u8>;

/// What `seismic_enclave::ecdh_encrypt` returns for a public key, a secret key,
/// a plaintext and a nonce.
pub uninterp spec fn ecdh_sealed(public_key: Seq<u8>, secret_key: Seq<u8>, data: Seq<u8>, nonce: Seq<u8>) -> Seq<u8>;

/// What `seismic_enclave::ecdh_decrypt` returns for a public key, a secret key,
/// a ciphertext and a nonce: the plaintext, or `None` where it fails.
pub uninterp spec fn ecdh_opened(public_key: Seq<u8>, secret_key: Seq<u8>, data: Seq<u8>, nonce: Seq<u8>) -> Option<Seq<u8>>;

/// Whether `ecdh_encrypt` succeeds: both keys are valid, the nonce has 12 bytes
/// and the plaintext is within AES-GCM's limit.
pub open spec fn ecdh_encryptable(public_key: Seq<u8>, secret_key: Seq<u8>, data: Seq<u8>, nonce: Seq<u8>) -> bool {
    &&& secp256k1_public_key_parses(public_key)
    &&& is_secret_key(secret_key)
    &&& nonce.len() == 12
    &&& data.len() <= aes_gcm_max_plaintext()
}

/// Whether `ecdh_decrypt` succeeds: both keys are valid, the nonce has 12 bytes
/// and the ciphertext authenticates.
pub open spec fn ecdh_decryptable(public_key: Seq<u8>, secret_key: Seq<u8>, data: Seq<u8>, nonce: Seq<u8>) -> bool {
    &&& secp256k1_public_key_parses(public_key)
    &&& is_secret_key(secret_key)
    &&& nonce.len() == 12
    &&& ecdh_opened(public_key, secret_key, data, nonce) is Some
}

/// What secp256k1's error displays for bytes that are not a public key
/// (`Error::InvalidPublicKey`).
pub open spec fn malformed_key_message() -> Seq<char> {
    "malformed public key"@
}

/// Why bytes of another length than 33 are not read as a TEE public key.
pub open spec fn key_length_message() -> Seq<char> {
    "expected the 33 bytes of a compressed public key"@
}

/// Parses the bytes with `secp256k1::PublicKey::from_slice` and keeps only
/// whether it succeeded, or the error's `Display` text. The claims: it succeeds
/// exactly on the encodings of curve points that libsecp256k1's
/// `eckey_pubkey_parse` accepts (`secp256k1_public_key_parses`); where it fails,
/// `from_slice` returns `Error::InvalidPublicKey`, which displays as
/// "malformed public key".
#[verifier::external_body]
fn check_public_key(bytes: &[u8]) -> (r: Result<(), String>)
    ensures
        r is Ok <==> secp256k1_public_key_parses(bytes@),
        r matches Err(m) ==> m@ == malformed_key_message(),
{
    match seismic_enclave::PublicKey::from_slice(bytes) {
        Ok(_) => Ok(()),
        Err(e) => Err(format!("{}", e)),
    }
}

/// Draws a secret key with `secp256k1::SecretKey::new` from the thread's random
/// generator and hands out its 32 bytes. The claim: they are a valid secret key
/// (`SecretKey::new` draws until they are). Which key comes out is left to chance.
#[verifier::external_body]
fn random_secret_key() -> (r: Vec<u8>)
    ensures
        is_secret_key(r@),
{
    seismic_enclave::SecretKey::new(&mut rand::thread_rng()).secret_bytes().to_vec()
}

/// The key agreed by ECDH between `public` and any valid secret key `other` is
/// the one agreed between the public key of `other` and `secret`; encryption
/// (where it succeeds) and decryption under `ecdh_encrypt`/`ecdh_decrypt`, which
/// depend on the keys only through that agreed secret, give the same results
/// either way.
pub open spec fn ecdh_agrees(secret: Seq<u8>, public: Seq<u8>) -> bool {
    forall|other: Seq<u8>, data: Seq<u8>, nonce: Seq<u8>|
        #![trigger ecdh_sealed(public, other, data, nonce)]
        #![trigger ecdh_opened(public, other, data, nonce)]
        is_secret_key(other) ==> {
            &&& (nonce.len() == 12 && data.len() <= aes_gcm_max_plaintext()) ==> ecdh_sealed(public, other, data, nonce)
                == ecdh_sealed(secp256k1_public_key(other), secret, data, nonce)
            &&& ecdh_opened(public, other, data, nonce) == ecdh_opened(secp256k1_public_key(other), secret, data, nonce)
        }
}

/// Whatever is encrypted under `public` and a valid secret key, within AES-GCM's
/// limit and with a 12-byte nonce, decrypts under the same keys and nonce to
/// what was encrypted.
pub open spec fn ecdh_round_trips(public: Seq<u8>) -> bool {
    forall|other: Seq<u8>, data: Seq<u8>, nonce: Seq<u8>|
        #![trigger ecdh_sealed(public, other, data, nonce)]
        is_secret_key(other) && nonce.len() == 12 && data.len() <= aes_gcm_max_plaintext()
            ==> ecdh_opened(public, other, ecdh_sealed(public, other, data, nonce), nonce) == Some(data)
}

/// Parses the secret key (`SecretKey::from_slice`) and computes its public key
/// with `secp256k1::PublicKey::from_secret_key`, handed out compressed
/// (`serialize`). The claims: it succeeds exactly on valid secret keys; the
/// result is the name `secp256k1_public_key` of the secret, 33 bytes that parse;
/// and the two facts that the encryption of this library rests on hold of the
/// key pair: ECDH agreement (`SharedSecret::new(pk2, sk1) == SharedSecret::new(pk1, sk2)`,
/// as the documentation of `secp256k1::ecdh::SharedSecret` shows, and
/// `seismic_enclave::ecdh_encrypt`/`ecdh_decrypt` use the keys only through
/// that shared secret) and AES-GCM's decryption inverting its encryption.
#[verifier::external_body]
fn public_key_of(secret: &[u8]) -> (r: Result<Vec<u8>, seismic_enclave::Error>)
    ensures
        r is Ok <==> is_secret_key(secret@),
        r matches Ok(pk) ==> pk@ == secp256k1_public_key(secret@),
        r matches Ok(pk) ==> pk@.len() == 33 && secp256k1_public_key_parses(pk@),
        r matches Ok(pk) ==> ecdh_agrees(secret@, pk@),
        r matches Ok(pk) ==> ecdh_round_trips(pk@),
{
    let sk = seismic_enclave::SecretKey::from_slice(secret)?;
    let secp = seismic_enclave::Secp256k1::new();
    Ok(seismic_enclave::PublicKey::from_secret_key(&secp, &sk).serialize().to_vec())
}

/// Draws 12 random bytes with `rand::random`. The claim: there are 12 of them.
#[verifier::external_body]
fn random_nonce() -> (r: Vec<u8>)
    ensures
        r@.len() == 12,
{
    rand::random::<[u8; 12]>().to_vec()
}

/// Parses both keys (`PublicKey::from_slice`, `SecretKey::from_slice`) and calls
/// `seismic_enclave::ecdh_encrypt`: an AES-256-GCM encryption under a key derived
/// by HKDF-SHA256 from the ECDH shared secret. The claims: it succeeds exactly
/// when both keys parse, the nonce has 12 bytes and the plaintext is within
/// AES-GCM's limit of 2^36 bytes; the ciphertext is the name `ecdh_sealed` of
/// the arguments, 16 bytes (the tag) longer than the plaintext, and
/// `ecdh_decrypt` with the same keys and nonce gives the plaintext back
/// (AES-GCM's decryption inverts its encryption).
#[verifier::external_body]
fn ecdh_encrypt(public_key: &[u8], secret_key: &[u8], data: &[u8], nonce: &[u8]) -> (r: Result<Vec<u8>, anyhow::Error>)
    ensures
        r is Ok <==> ecdh_encryptable(public_key@, secret_key@, data@, nonce@),
        r matches Ok(c) ==> c@ == ecdh_sealed(public_key@, secret_key@, data@, nonce@),
        r matches Ok(c) ==> c@.len() == data@.len() + 16,
        r matches Ok(c) ==> ecdh_opened(public_key@, secret_key@, c@, nonce@) == Some(data@),
{
    let pk = seismic_enclave::PublicKey::from_slice(public_key)?;
    let sk = seismic_enclave::SecretKey::from_slice(secret_key)?;
    seismic_enclave::ecdh_encrypt(&pk, &sk, data.to_vec(), nonce.to_vec())
}

/// Parses both keys and calls `seismic_enclave::ecdh_decrypt`. The claims: it
/// succeeds exactly when both keys parse, the nonce has 12 bytes and the name
/// `ecdh_opened` of the arguments is a plaintext, which is then what it returns.
#[verifier::external_body]
fn ecdh_decrypt(public_key: &[u8], secret_key: &[u8], data: &[u8], nonce: &[u8]) -> (r: Result<Vec<u8>, anyhow::Error>)
    ensures
        r is Ok <==> ecdh_decryptable(public_key@, secret_key@, data@, nonce@),
        r matches Ok(p) ==> ecdh_opened(public_key@, secret_key@, data@, nonce@) == Some(p@),
{
    let pk = seismic_enclave::PublicKey::from_slice(public_key)?;
    let sk = seismic_enclave::SecretKey::from_slice(secret_key)?;
    seismic_enclave::ecdh_decrypt(&pk, &sk, data.to_vec(), nonce.to_vec())
}

/// The message of an anyhow error, as its `Debug` form shows it. Nothing is
/// stated of the text.
#[verifier::external_body]
fn anyhow_message(e: &anyhow::Error) -> String {
    format!("{:?}", e)
}

/// A client's ephemeral key pair.
#[derive(Clone)]
pub struct EphemeralKeypair {
    /// The secret key's 32 big-endian bytes.
    pub secret_key: Vec<u8>,
    /// The public key's compressed encoding.
    pub public_key: Vec<u8>,
}

impl EphemeralKeypair {
    /// A well-formed key pair: a valid secret key and its public key, for which
    /// ECDH agreement and the encryption round trip hold.
    pub open spec fn wf(&self) -> bool {
        &&& is_secret_key(self.secret_key@)
        &&& self.public_key@ == secp256k1_public_key(self.secret_key@)
        &&& self.public_key@.len() == 33
        &&& secp256k1_public_key_parses(self.public_key@)
        &&& ecdh_agrees(self.secret_key@, self.public_key@)
        &&& ecdh_round_trips(self.public_key@)
    }

    /// The key pair of a secret key, or `None` where the bytes are not a valid
    /// secret key.
    pub fn from_secret_key(secret_key: Vec<u8>) -> (r: Option<EphemeralKeypair>)
        ensures
            r is Some <==> is_secret_key(secret_key@),
            r matches Some(k) ==> k.wf() && k.secret_key@ == secret_key@,
    {
        match public_key_of(secret_key.as_slice()) {
            Ok(public_key) => Some(EphemeralKeypair { secret_key, public_key }),
            Err(_) => None,
        }
    }

    /// Draws a fresh random key pair.
    pub fn random() -> (k: EphemeralKeypair)
        ensures
            k.wf(),
    {
        let secret_key = random_secret_key();
        match EphemeralKeypair::from_secret_key(secret_key) {
            Some(k) => k,
            None => EphemeralKeypair { secret_key: Vec::new(), public_key: Vec::new() },
        }
    }
}

/// Draws a fresh random 96-bit encryption nonce, as 12 bytes.
pub fn random_encryption_nonce() -> (n: Vec<u8>)
    ensures
        n@.len() == 12,
{
    random_nonce()
}

/// Checks that the bytes are a compressed secp256k1 public key and hands them
/// back; this is what a TEE public key is read as.
pub fn public_key_from_bytes(bytes: &[u8]) -> (r: Result<Vec<u8>, SeismicError>)
    ensures
        r is Ok <==> (bytes@.len() == 33 && secp256k1_public_key_parses(bytes@)),
        r matches Ok(v) ==> v@ == bytes@,
        r matches Err(e) ==> e@ == ErrorModel::InvalidTeePubkey(
            if bytes@.len() != 33 { key_length_message() } else { malformed_key_message() },
        ),
{
    if bytes.len() != PUBLIC_KEY_SIZE {
        return Err(SeismicError::InvalidTeePubkey("expected the 33 bytes of a compressed public key".to_owned()));
    }
    match check_public_key(bytes) {
        Ok(()) => Ok(slice_to_vec(bytes)),
        Err(m) => Err(SeismicError::InvalidTeePubkey(m)),
    }
}

/// The ciphertext that `client_encrypt` produces.
pub open spec fn spec_client_encrypt(
    plaintext: Seq<u8>,
    network_pk: Seq<u8>,
    secret_key: Seq<u8>,
    nonce: Seq<u8>,
) -> Result<Seq<u8>, ErrorModel> {
    if ecdh_encryptable(network_pk, secret_key, plaintext, nonce) {
        Ok(ecdh_sealed(network_pk, secret_key, plaintext, nonce))
    } else {
        Err(ErrorModel::Encryption)
    }
}

/// The plaintext that `client_decrypt` recovers.
pub open spec fn spec_client_decrypt(
    ciphertext: Seq<u8>,
    network_pk: Seq<u8>,
    secret_key: Seq<u8>,
    nonce: Seq<u8>,
) -> Result<Seq<u8>, ErrorModel> {
    if ecdh_decryptable(network_pk, secret_key, ciphertext, nonce) {
        Ok(ecdh_opened(network_pk, secret_key, ciphertext, nonce).unwrap())
    } else {
        Err(ErrorModel::Decryption)
    }
}

pub open spec fn result_bytes_model(r: Result<Vec<u8>, SeismicError>) -> Result<Seq<u8>, ErrorModel> {
    match r {
        Ok(v) => Ok(v@),
        Err(e) => Err(e@),
    }
}

impl TxSeismicElements {
    /// Encrypts calldata for the network: ECDH between the network's public key
    /// and the client's secret key, then AES-256-GCM with these elements' nonce.
    pub fn client_encrypt(&self, plaintext: &[u8], network_pk: &[u8], secret_key: &[u8]) -> (r: Result<Vec<u8>, SeismicError>)
        ensures
            result_bytes_model(r) == spec_client_encrypt(plaintext@, network_pk@, secret_key@, self@.encryption_nonce),
            r matches Ok(c) ==> ecdh_opened(network_pk@, secret_key@, c@, self@.encryption_nonce) == Some(plaintext@),
    {
        match ecdh_encrypt(network_pk, secret_key, plaintext, self.encryption_nonce.as_slice()) {
            Ok(c) => Ok(c),
            Err(e) => Err(SeismicError::Encryption(anyhow_message(&e))),
        }
    }

    /// Decrypts the output of a shielded call with the same key agreement and
    /// nonce that encrypted its calldata.
    pub fn client_decrypt(&self, ciphertext: &[u8], network_pk: &[u8], secret_key: &[u8]) -> (r: Result<Vec<u8>, SeismicError>)
        ensures
            result_bytes_model(r) == spec_client_decrypt(ciphertext@, network_pk@, secret_key@, self@.encryption_nonce),
    {
        match ecdh_decrypt(network_pk, secret_key, ciphertext, self.encryption_nonce.as_slice()) {
            Ok(p) => Ok(p),
            Err(e) => Err(SeismicError::Decryption(anyhow_message(&e))),
        }
    }
}

} // verus!
