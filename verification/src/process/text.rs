//! Signing and verifying whole messages under one of two schemes, and
//! generating the keys of each.
//!
//! The cryptography is done by outside crates. Each of their functions is
//! given a name here, and the contracts of this module say which of these
//! named values a call returns, and on which inputs it fails instead.

use vstd::prelude::*;

use ed25519_dalek::Signer as DalekSigner;
use ed25519_dalek::Verifier as DalekVerifier;
use rand::RngCore;

use crate::cli::text::TextFormat;
use crate::process::key_bundle::KeyBundle;

verus! {

/// Bytes in a symmetric key, a signing seed and a verifying key.
pub const KEY_LENGTH: usize = 32;

/// Bytes in a keyed-hash digest.
pub const DIGEST_LENGTH: usize = 32;

/// Bytes in an asymmetric signature.
pub const SIGNATURE_LENGTH: usize = 64;

/// The role name of a generated symmetric key.
pub const BLAKE3_KEY_NAME: &'static str = "blake3.key";

/// The role name of a generated signing seed.
pub const ED25519_SECRET_NAME: &'static str = "ed25519.sk";

/// The role name of a generated verifying key.
pub const ED25519_PUBLIC_NAME: &'static str = "ed25519.pk";

/// What a key blob is used as.
#[derive(Debug, Clone, Copy, PartialEq, Eq, Structural)]
pub enum KeyRole {
    SymmetricKey,
    SigningSeed,
    VerifyingKey,
}

/// Why key bytes were refused.
#[derive(Debug, Clone, Copy, PartialEq, Eq, Structural)]
pub enum KeyFault {
    /// The blob does not have the length its role requires.
    Length { expected: usize, actual: usize },
    /// The blob has the right length but does not encode a key.
    Encoding,
}

/// The failures of signing, verifying and key generation.
#[derive(Debug, Clone, Copy, PartialEq, Eq, Structural)]
pub enum TextError {
    /// The key bytes do not fit the scheme.
    KeyValidation { role: KeyRole, fault: KeyFault },
    /// The signature bytes do not have the length the scheme defines.
    SignatureValidation { expected: usize, actual: usize },
    /// The operating system's random source gave no bytes.
    RandomSourceFailure,
}

/// The error for a key blob of `actual` bytes where `expected` are required.
pub open spec fn key_length_error(role: KeyRole, expected: nat, actual: nat) -> TextError {
    TextError::KeyValidation {
        role,
        fault: KeyFault::Length { expected: expected as usize, actual: actual as usize },
    }
}

/// The error for signature bytes of the wrong length.
pub open spec fn signature_length_error(expected: nat, actual: nat) -> TextError {
    TextError::SignatureValidation { expected: expected as usize, actual: actual as usize }
}

// ---------------------------------------------------------------------------
// What the outside crates compute
// ---------------------------------------------------------------------------

/// The digest that `blake3::keyed_hash` computes from a 32-byte key and a
/// message.
pub uninterp spec fn keyed_hash_digest(key: Seq<u8>, message: Seq<u8>) -> [u8; 32];

/// The signature that an `ed25519_dalek::SigningKey` built from a 32-byte seed
/// makes for a message.
pub uninterp spec fn ed25519_signature(seed: Seq<u8>, message: Seq<u8>) -> [u8; 64];

/// The encoded verifying key of the `ed25519_dalek::SigningKey` built from a
/// 32-byte seed.
pub uninterp spec fn ed25519_public_key(seed: Seq<u8>) -> [u8; 32];

/// Whether `ed25519_dalek::VerifyingKey::from_bytes` takes these 32 bytes as
/// the encoding of a verifying key.
pub uninterp spec fn ed25519_decodes(key: Seq<u8>) -> bool;

/// Whether the verifying key that these 32 bytes encode accepts a 64-byte
/// signature for a message, by `ed25519_dalek::Verifier::verify`.
pub uninterp spec fn ed25519_accepts(key: Seq<u8>, message: Seq<u8>, signature: Seq<u8>) -> bool;

/// The key bytes encode a verifying key, and that key accepts the signature.
pub open spec fn ed25519_verifies(key: Seq<u8>, message: Seq<u8>, signature: Seq<u8>) -> bool {
    ed25519_decodes(key) && ed25519_accepts(key, message, signature)
}

/// Calls `blake3::keyed_hash` and copies out the 32 bytes of its `Hash`.
///
/// Trusted: the result is a function of the key and the message alone.
#[verifier::external_body]
fn keyed_hash(key: &[u8; 32], message: &[u8]) -> (digest: [u8; 32])
    ensures
        digest == keyed_hash_digest(key@, message@),
{
    *blake3::keyed_hash(key, message).as_bytes()
}

/// `constant_time_eq::constant_time_eq` compares two byte strings without
/// stopping at the first difference.
///
/// Trusted: it answers `true` exactly when both have the same length and the
/// same bytes.
pub assume_specification[ constant_time_eq::constant_time_eq ](a: &[u8], b: &[u8]) -> (equal: bool)
    ensures
        equal == (a@ == b@),
;

/// Calls `SigningKey::from_bytes` on the seed, `sign` on the message, and
/// `Signature::to_bytes` on what comes back.
///
/// Trusted: Ed25519 signing draws no randomness, so the signature is a
/// function of seed and message alone; and, as the crate's documentation
/// shows in its first example, the verifying key of the same seed, taken back
/// from its bytes, accepts that signature for that message.
#[verifier::external_body]
fn ed25519_sign(seed: &[u8; 32], message: &[u8]) -> (signature: [u8; 64])
    ensures
        signature == ed25519_signature(seed@, message@),
        ed25519_verifies(ed25519_public_key(seed@)@, message@, signature@),
{
    ed25519_dalek::SigningKey::from_bytes(seed).sign(message).to_bytes()
}

/// Calls `SigningKey::from_bytes` on the seed, then `verifying_key` and
/// `VerifyingKey::to_bytes`.
///
/// Trusted: the key is a function of the seed alone.
#[verifier::external_body]
fn ed25519_derive_public_key(seed: &[u8; 32]) -> (key: [u8; 32])
    ensures
        key == ed25519_public_key(seed@),
{
    ed25519_dalek::SigningKey::from_bytes(seed).verifying_key().to_bytes()
}

/// Calls `VerifyingKey::from_bytes` and says whether it succeeded.
#[verifier::external_body]
fn ed25519_key_decodes(key: &[u8; 32]) -> (decodes: bool)
    ensures
        decodes == ed25519_decodes(key@),
{
    ed25519_dalek::VerifyingKey::from_bytes(key).is_ok()
}

/// Calls `VerifyingKey::from_bytes` on the key, `Signature::from_bytes` on the
/// signature, and `verify`; says whether `verify` returned `Ok`.
///
/// Trusted: the answer is a function of the three byte strings alone.
#[verifier::external_body]
fn ed25519_verify(key: &[u8; 32], message: &[u8], signature: &[u8; 64]) -> (accepted: bool)
    requires
        ed25519_decodes(key@),
    ensures
        accepted == ed25519_accepts(key@, message@, signature@),
{
    match ed25519_dalek::VerifyingKey::from_bytes(key) {
        Ok(verifying_key) => verifying_key.verify(
            message,
            &ed25519_dalek::Signature::from_bytes(signature),
        ).is_ok(),
        Err(_) => false,
    }
}

/// `rand::Error`, the error of a random source. Nothing is read out of it.
#[verifier::external_type_specification]
#[verifier::external_body]
pub struct ExRandError(rand::Error);

/// Asks the operating system for 32 random bytes, by
/// `rand::rngs::OsRng::try_fill_bytes`, and hands on its error where the
/// source fails. Nothing is known of the bytes.
#[verifier::external_body]
fn draw_key_material() -> (drawn: Result<[u8; 32], rand::Error>) {
    let mut bytes = [0u8; 32];
    rand::rngs::OsRng.try_fill_bytes(&mut bytes)?;
    Ok(bytes)
}

/// What was drawn, if the random source gave anything.
fn drawn_bytes() -> (drawn: Option<[u8; 32]>) {
    match draw_key_material() {
        Ok(bytes) => Some(bytes),
        Err(_) => None,
    }
}

// ---------------------------------------------------------------------------
// Key material
// ---------------------------------------------------------------------------

/// The bytes of a slice as an array, if there are exactly `N` of them.
fn exact_bytes<const N: usize>(bytes: &[u8]) -> (array: Option<[u8; N]>)
    ensures
        match array {
            Some(a) => bytes@.len() == N && a@ == bytes@,
            None => bytes@.len() != N,
        },
{
    if bytes.len() != N {
        return None;
    }
    let mut out = [0u8; N];
    let mut i: usize = 0;
    while i < N
        invariant
            bytes@.len() == N,
            i <= N,
            forall|j: int| 0 <= j < i ==> out@[j] == bytes@[j],
        decreases N - i,
    {
        out[i] = bytes[i];
        i += 1;
    }
    assert(out@ =~= bytes@);
    Some(out)
}

/// Validates raw key bytes for a role: exactly `N` bytes are taken as they
/// are, any other number is refused with both lengths in the error. Nothing is
/// cut or padded.
pub fn key_material<const N: usize>(bytes: &[u8], role: KeyRole) -> (r: Result<[u8; N], TextError>)
    ensures
        match r {
            Ok(key) => bytes@.len() == N && key@ == bytes@,
            Err(e) => bytes@.len() != N && e == key_length_error(role, N as nat, bytes@.len()),
        },
{
    match exact_bytes::<N>(bytes) {
        Some(key) => Ok(key),
        None => Err(
            TextError::KeyValidation {
                role,
                fault: KeyFault::Length { expected: N, actual: bytes.len() },
            },
        ),
    }
}

/// Validates raw signature bytes: exactly `N` bytes, or an error with both
/// lengths.
pub fn signature_bytes<const N: usize>(bytes: &[u8]) -> (r: Result<[u8; N], TextError>)
    ensures
        match r {
            Ok(signature) => bytes@.len() == N && signature@ == bytes@,
            Err(e) => bytes@.len() != N && e == signature_length_error(N as nat, bytes@.len()),
        },
{
    match exact_bytes::<N>(bytes) {
        Some(signature) => Ok(signature),
        None => Err(TextError::SignatureValidation { expected: N, actual: bytes.len() }),
    }
}

// ---------------------------------------------------------------------------
// The two capabilities
// ---------------------------------------------------------------------------

/// Something that signs whole messages.
pub trait TextSigner {
    /// The signature that is owed for a message.
    spec fn signature_for(&self, message: Seq<u8>) -> Seq<u8>;

    /// Signs `message`. Signing a message that is already in memory cannot
    /// fail.
    fn sign(&self, message: &[u8]) -> (r: Result<Vec<u8>, TextError>)
        ensures
            r matches Ok(signature) && signature@ == self.signature_for(message@),
    ;
}

/// Something that checks a signature against a whole message.
pub trait TextVerifier {
    /// What checking a signature against a message gives: an error for
    /// signature bytes that no signature of the scheme can be, else whether
    /// the signature is the message's.
    spec fn verdict(&self, message: Seq<u8>, signature: Seq<u8>) -> Result<bool, TextError>;

    /// Checks `signature` against `message`.
    fn verify(&self, message: &[u8], signature: &[u8]) -> (r: Result<bool, TextError>)
        ensures
            r == self.verdict(message@, signature@),
    ;
}

// ---------------------------------------------------------------------------
// Keyed hash
// ---------------------------------------------------------------------------

/// The keyed-hash scheme under one symmetric key. The same key signs and
/// verifies.
pub struct Blake3 {
    key: [u8; 32],
}

impl View for Blake3 {
    type V = Seq<u8>;

    /// The symmetric key.
    closed spec fn view(&self) -> Seq<u8> {
        self.key@
    }
}

/// The bundle that keyed-hash key generation makes of a drawn key.
pub open spec fn keyed_hash_bundle(key: Seq<u8>) -> Map<Seq<char>, Seq<u8>> {
    Map::<Seq<char>, Seq<u8>>::empty().insert(BLAKE3_KEY_NAME@, key)
}

impl Blake3 {
    /// The scheme under a symmetric key.
    pub fn new(key: [u8; 32]) -> (scheme: Self)
        ensures
            scheme@ == key@,
    {
        Self { key }
    }

    /// The scheme under `key_bytes`, which must be exactly 32 bytes.
    pub fn try_new(key_bytes: &[u8]) -> (r: Result<Self, TextError>)
        ensures
            match r {
                Ok(scheme) => key_bytes@.len() == KEY_LENGTH && scheme@ == key_bytes@,
                Err(e) => key_bytes@.len() != KEY_LENGTH && e == key_length_error(
                    KeyRole::SymmetricKey,
                    KEY_LENGTH as nat,
                    key_bytes@.len(),
                ),
            },
    {
        match key_material::<32>(key_bytes, KeyRole::SymmetricKey) {
            Ok(key) => Ok(Self::new(key)),
            Err(e) => Err(e),
        }
    }

    /// The bundle for what the random source gave: the drawn key under
    /// its role name, or the failure of the source. A key that is to be used
    /// has to come from a secure random source, as in [`Self::generate_key`].
    pub fn key_bundle_from(drawn: Option<[u8; 32]>) -> (r: Result<KeyBundle, TextError>)
        ensures
            match drawn {
                Some(key) => r matches Ok(bundle) && bundle@ == keyed_hash_bundle(key@),
                None => r matches Err(e) && e == TextError::RandomSourceFailure,
            },
    {
        match drawn {
            Some(key) => Ok(KeyBundle::single(BLAKE3_KEY_NAME, bytes_to_vec(&key))),
            None => Err(TextError::RandomSourceFailure),
        }
    }

    /// A fresh symmetric key from the operating system's random source, as a
    /// bundle of one blob.
    pub fn generate_key() -> (r: Result<KeyBundle, TextError>)
        ensures
            match r {
                Ok(bundle) => exists|key: [u8; 32]| bundle@ == #[trigger] keyed_hash_bundle(key@),
                Err(e) => e == TextError::RandomSourceFailure,
            },
    {
        Self::key_bundle_from(drawn_bytes())
    }
}

impl TextSigner for Blake3 {
    open spec fn signature_for(&self, message: Seq<u8>) -> Seq<u8> {
        keyed_hash_digest(self@, message)@
    }

    /// The keyed digest of the message.
    fn sign(&self, message: &[u8]) -> (r: Result<Vec<u8>, TextError>) {
        let digest = keyed_hash(&self.key, message);
        Ok(bytes_to_vec(&digest))
    }
}

impl TextVerifier for Blake3 {
    /// A signature of another length than the digest's matches no message.
    open spec fn verdict(&self, message: Seq<u8>, signature: Seq<u8>) -> Result<bool, TextError> {
        Ok(signature == keyed_hash_digest(self@, message)@)
    }

    /// Computes the digest again and compares it with `signature` in
    /// constant time.
    fn verify(&self, message: &[u8], signature: &[u8]) -> (r: Result<bool, TextError>) {
        let digest = keyed_hash(&self.key, message);
        Ok(constant_time_eq::constant_time_eq(digest.as_slice(), signature))
    }
}

// ---------------------------------------------------------------------------
// Asymmetric signatures
// ---------------------------------------------------------------------------

/// The signing half of the asymmetric scheme: a 32-byte seed, from which the
/// signing key is rebuilt for each signature.
pub struct Ed25519Signer {
    seed: [u8; 32],
}

impl View for Ed25519Signer {
    type V = Seq<u8>;

    /// The seed.
    closed spec fn view(&self) -> Seq<u8> {
        self.seed@
    }
}

/// The bundle that key-pair generation makes of a drawn seed: the seed, and
/// the verifying key derived from it.
pub open spec fn key_pair_bundle(seed: Seq<u8>) -> Map<Seq<char>, Seq<u8>> {
    Map::<Seq<char>, Seq<u8>>::empty().insert(ED25519_SECRET_NAME@, seed).insert(
        ED25519_PUBLIC_NAME@,
        ed25519_public_key(seed)@,
    )
}

impl Ed25519Signer {
    /// The signer for a seed.
    pub fn new(seed: [u8; 32]) -> (signer: Self)
        ensures
            signer@ == seed@,
    {
        Self { seed }
    }

    /// The signer for the seed `key_bytes`, which must be exactly 32 bytes.
    pub fn try_new(key_bytes: &[u8]) -> (r: Result<Self, TextError>)
        ensures
            match r {
                Ok(signer) => key_bytes@.len() == KEY_LENGTH && signer@ == key_bytes@,
                Err(e) => key_bytes@.len() != KEY_LENGTH && e == key_length_error(
                    KeyRole::SigningSeed,
                    KEY_LENGTH as nat,
                    key_bytes@.len(),
                ),
            },
    {
        match key_material::<32>(key_bytes, KeyRole::SigningSeed) {
            Ok(seed) => Ok(Self::new(seed)),
            Err(e) => Err(e),
        }
    }

    /// The bundle for what the random source gave: the drawn seed and its
    /// verifying key, each under its role name, or the failure of the source.
    /// A seed that is to be used has to come from a secure random source, as
    /// in [`Self::generate_key`].
    pub fn key_bundle_from(drawn: Option<[u8; 32]>) -> (r: Result<KeyBundle, TextError>)
        ensures
            match drawn {
                Some(seed) => r matches Ok(bundle) && bundle@ == key_pair_bundle(seed@),
                None => r matches Err(e) && e == TextError::RandomSourceFailure,
            },
    {
        match drawn {
            Some(seed) => {
                let public = ed25519_derive_public_key(&seed);
                proof {
                    lemma_key_pair_names_differ();
                }
                Ok(
                    KeyBundle::pair(
                        ED25519_SECRET_NAME,
                        bytes_to_vec(&seed),
                        ED25519_PUBLIC_NAME,
                        bytes_to_vec(&public),
                    ),
                )
            },
            None => Err(TextError::RandomSourceFailure),
        }
    }

    /// A fresh key pair from the operating system's random source, as a
    /// bundle of two blobs.
    pub fn generate_key() -> (r: Result<KeyBundle, TextError>)
        ensures
            match r {
                Ok(bundle) => exists|seed: [u8; 32]| bundle@ == #[trigger] key_pair_bundle(seed@),
                Err(e) => e == TextError::RandomSourceFailure,
            },
    {
        Self::key_bundle_from(drawn_bytes())
    }
}

impl TextSigner for Ed25519Signer {
    open spec fn signature_for(&self, message: Seq<u8>) -> Seq<u8> {
        ed25519_signature(self@, message)@
    }

    /// The signature of the message under the key that the seed expands to.
    /// It verifies under the verifying key of the same seed.
    fn sign(&self, message: &[u8]) -> (r: Result<Vec<u8>, TextError>)
        ensures
            r matches Ok(signature) && verification_outcome(
                TextFormat::Ed25519,
                ed25519_public_key(self@)@,
                message@,
                signature@,
            ) == Ok::<bool, TextError>(true),
    {
        let signature = ed25519_sign(&self.seed, message);
        Ok(bytes_to_vec(&signature))
    }
}

/// The verifying half of the asymmetric scheme: 32 bytes that encode a
/// verifying key.
pub struct Ed25519Verifier {
    key: [u8; 32],
}

impl View for Ed25519Verifier {
    type V = Seq<u8>;

    /// The encoded verifying key.
    closed spec fn view(&self) -> Seq<u8> {
        self.key@
    }
}

/// What becomes of raw bytes offered as a verifying key.
pub open spec fn verifying_key_check(key_bytes: Seq<u8>) -> Result<Seq<u8>, TextError> {
    if key_bytes.len() != KEY_LENGTH {
        Err(key_length_error(KeyRole::VerifyingKey, KEY_LENGTH as nat, key_bytes.len()))
    } else if !ed25519_decodes(key_bytes) {
        Err(TextError::KeyValidation { role: KeyRole::VerifyingKey, fault: KeyFault::Encoding })
    } else {
        Ok(key_bytes)
    }
}

impl Ed25519Verifier {
    #[verifier::type_invariant]
    spec fn key_decodes(&self) -> bool {
        ed25519_decodes(self.key@)
    }

    /// The verifier for a key that is known to decode. Use [`Self::try_new`]
    /// for bytes of unknown origin.
    pub fn new(key: [u8; 32]) -> (verifier: Self)
        requires
            ed25519_decodes(key@),
        ensures
            verifier@ == key@,
    {
        Self { key }
    }

    /// The verifier for `key_bytes`, which must be exactly 32 bytes and the
    /// encoding of a verifying key.
    pub fn try_new(key_bytes: &[u8]) -> (r: Result<Self, TextError>)
        ensures
            match r {
                Ok(verifier) => verifying_key_check(key_bytes@) == Ok::<Seq<u8>, TextError>(verifier@),
                Err(e) => verifying_key_check(key_bytes@) == Err::<Seq<u8>, TextError>(e),
            },
    {
        match key_material::<32>(key_bytes, KeyRole::VerifyingKey) {
            Ok(key) => {
                if ed25519_key_decodes(&key) {
                    Ok(Self::new(key))
                } else {
                    Err(
                        TextError::KeyValidation {
                            role: KeyRole::VerifyingKey,
                            fault: KeyFault::Encoding,
                        },
                    )
                }
            },
            Err(e) => Err(e),
        }
    }
}

impl TextVerifier for Ed25519Verifier {
    /// Signature bytes of another length than 64 are an error, not a
    /// mismatch.
    open spec fn verdict(&self, message: Seq<u8>, signature: Seq<u8>) -> Result<bool, TextError> {
        if signature.len() != SIGNATURE_LENGTH {
            Err(signature_length_error(SIGNATURE_LENGTH as nat, signature.len()))
        } else {
            Ok(ed25519_accepts(self@, message, signature))
        }
    }

    fn verify(&self, message: &[u8], signature: &[u8]) -> (r: Result<bool, TextError>) {
        proof {
            use_type_invariant(self);
        }
        match signature_bytes::<64>(signature) {
            Ok(parsed) => Ok(ed25519_verify(&self.key, message, &parsed)),
            Err(e) => Err(e),
        }
    }
}

// ---------------------------------------------------------------------------
// Dispatch
// ---------------------------------------------------------------------------

/// The role in which a scheme's signing side takes its key bytes.
pub open spec fn signing_role(format: TextFormat) -> KeyRole {
    match format {
        TextFormat::Blake3 => KeyRole::SymmetricKey,
        TextFormat::Ed25519 => KeyRole::SigningSeed,
    }
}

/// The length of a scheme's signatures.
pub open spec fn signature_length(format: TextFormat) -> nat {
    match format {
        TextFormat::Blake3 => DIGEST_LENGTH as nat,
        TextFormat::Ed25519 => SIGNATURE_LENGTH as nat,
    }
}

/// What becomes of raw bytes offered as a scheme's signing key.
pub open spec fn signing_key_check(format: TextFormat, key: Seq<u8>) -> Result<Seq<u8>, TextError> {
    if key.len() == KEY_LENGTH {
        Ok(key)
    } else {
        Err(key_length_error(signing_role(format), KEY_LENGTH as nat, key.len()))
    }
}

/// What becomes of raw bytes offered as a scheme's verification key: for the
/// keyed hash the symmetric key itself, for the asymmetric scheme the
/// verifying key.
pub open spec fn verification_key_check(
    format: TextFormat,
    key: Seq<u8>,
) -> Result<Seq<u8>, TextError> {
    match format {
        TextFormat::Blake3 => signing_key_check(format, key),
        TextFormat::Ed25519 => verifying_key_check(key),
    }
}

/// The signature of a message under a validated signing key.
pub open spec fn scheme_signature(format: TextFormat, key: Seq<u8>, message: Seq<u8>) -> Seq<u8> {
    match format {
        TextFormat::Blake3 => keyed_hash_digest(key, message)@,
        TextFormat::Ed25519 => ed25519_signature(key, message)@,
    }
}

/// Whether a signature of the right length is the message's, under a
/// validated verification key.
pub open spec fn scheme_accepts(
    format: TextFormat,
    key: Seq<u8>,
    message: Seq<u8>,
    signature: Seq<u8>,
) -> bool {
    match format {
        TextFormat::Blake3 => signature == keyed_hash_digest(key, message)@,
        TextFormat::Ed25519 => ed25519_accepts(key, message, signature),
    }
}

/// The key that verifies what a signing key signs: the same key for the
/// keyed hash, the derived verifying key for the asymmetric scheme.
pub open spec fn verification_key_of(format: TextFormat, signing_key: Seq<u8>) -> Seq<u8> {
    match format {
        TextFormat::Blake3 => signing_key,
        TextFormat::Ed25519 => ed25519_public_key(signing_key)@,
    }
}

/// What signing gives: the key is validated, then the message is signed.
pub open spec fn signing_outcome(
    format: TextFormat,
    key: Seq<u8>,
    message: Seq<u8>,
) -> Result<Seq<u8>, TextError> {
    match signing_key_check(format, key) {
        Ok(valid) => Ok(scheme_signature(format, valid, message)),
        Err(e) => Err(e),
    }
}

/// What verifying gives: the key is validated first, then the length of the
/// signature, and only then is the signature checked against the message. A
/// signature of the right length that does not match is `Ok(false)`.
pub open spec fn verification_outcome(
    format: TextFormat,
    key: Seq<u8>,
    message: Seq<u8>,
    signature: Seq<u8>,
) -> Result<bool, TextError> {
    match verification_key_check(format, key) {
        Ok(valid) => if signature.len() != signature_length(format) {
            Err(signature_length_error(signature_length(format), signature.len()))
        } else {
            Ok(scheme_accepts(format, valid, message, signature))
        },
        Err(e) => Err(e),
    }
}

/// The bundle that a scheme's key generation makes of 32 drawn bytes.
pub open spec fn generated_bundle(format: TextFormat, drawn: Seq<u8>) -> Map<Seq<char>, Seq<u8>> {
    match format {
        TextFormat::Blake3 => keyed_hash_bundle(drawn),
        TextFormat::Ed25519 => key_pair_bundle(drawn),
    }
}

/// A signer of one of the schemes.
pub enum Signer {
    KeyedHash(Blake3),
    Asymmetric(Ed25519Signer),
}

impl Signer {
    /// The scheme.
    pub open spec fn format(&self) -> TextFormat {
        match self {
            Signer::KeyedHash(_) => TextFormat::Blake3,
            Signer::Asymmetric(_) => TextFormat::Ed25519,
        }
    }

    /// The signing key.
    pub open spec fn key(&self) -> Seq<u8> {
        match self {
            Signer::KeyedHash(scheme) => scheme@,
            Signer::Asymmetric(signer) => signer@,
        }
    }
}

impl TextSigner for Signer {
    open spec fn signature_for(&self, message: Seq<u8>) -> Seq<u8> {
        scheme_signature(self.format(), self.key(), message)
    }

    /// The signature of the message. It verifies under the verification key
    /// that belongs to the signing key.
    fn sign(&self, message: &[u8]) -> (r: Result<Vec<u8>, TextError>)
        ensures
            r matches Ok(signature) && verification_outcome(
                self.format(),
                verification_key_of(self.format(), self.key()),
                message@,
                signature@,
            ) == Ok::<bool, TextError>(true),
    {
        match self {
            Signer::KeyedHash(scheme) => scheme.sign(message),
            Signer::Asymmetric(signer) => signer.sign(message),
        }
    }
}

/// A verifier of one of the schemes. Whatever the scheme, it refuses
/// signature bytes of the wrong length with an error.
pub enum Verifier {
    KeyedHash(Blake3),
    Asymmetric(Ed25519Verifier),
}

impl Verifier {
    /// The scheme.
    pub open spec fn format(&self) -> TextFormat {
        match self {
            Verifier::KeyedHash(_) => TextFormat::Blake3,
            Verifier::Asymmetric(_) => TextFormat::Ed25519,
        }
    }

    /// The verification key.
    pub open spec fn key(&self) -> Seq<u8> {
        match self {
            Verifier::KeyedHash(scheme) => scheme@,
            Verifier::Asymmetric(verifier) => verifier@,
        }
    }
}

impl TextVerifier for Verifier {
    open spec fn verdict(&self, message: Seq<u8>, signature: Seq<u8>) -> Result<bool, TextError> {
        if signature.len() != signature_length(self.format()) {
            Err(signature_length_error(signature_length(self.format()), signature.len()))
        } else {
            Ok(scheme_accepts(self.format(), self.key(), message, signature))
        }
    }

    fn verify(&self, message: &[u8], signature: &[u8]) -> (r: Result<bool, TextError>) {
        match self {
            Verifier::KeyedHash(scheme) => {
                if signature.len() != DIGEST_LENGTH {
                    Err(
                        TextError::SignatureValidation {
                            expected: DIGEST_LENGTH,
                            actual: signature.len(),
                        },
                    )
                } else {
                    scheme.verify(message, signature)
                }
            },
            Verifier::Asymmetric(verifier) => verifier.verify(message, signature),
        }
    }
}

/// The signer of the chosen scheme for raw key bytes: the symmetric key for
/// the keyed hash, the signing seed for the asymmetric scheme.
pub fn make_signer(format: TextFormat, key_bytes: &[u8]) -> (r: Result<Signer, TextError>)
    ensures
        match r {
            Ok(signer) => {
                &&& signer.format() == format
                &&& signing_key_check(format, key_bytes@) == Ok::<Seq<u8>, TextError>(signer.key())
            },
            Err(e) => signing_key_check(format, key_bytes@) == Err::<Seq<u8>, TextError>(e),
        },
{
    match format {
        TextFormat::Blake3 => match Blake3::try_new(key_bytes) {
            Ok(scheme) => Ok(Signer::KeyedHash(scheme)),
            Err(e) => Err(e),
        },
        TextFormat::Ed25519 => match Ed25519Signer::try_new(key_bytes) {
            Ok(signer) => Ok(Signer::Asymmetric(signer)),
            Err(e) => Err(e),
        },
    }
}

/// The verifier of the chosen scheme for raw key bytes: the symmetric key for
/// the keyed hash, the encoded verifying key for the asymmetric scheme.
pub fn make_verifier(format: TextFormat, key_bytes: &[u8]) -> (r: Result<Verifier, TextError>)
    ensures
        match r {
            Ok(verifier) => {
                &&& verifier.format() == format
                &&& verification_key_check(format, key_bytes@) == Ok::<Seq<u8>, TextError>(
                    verifier.key(),
                )
            },
            Err(e) => verification_key_check(format, key_bytes@) == Err::<Seq<u8>, TextError>(e),
        },
{
    match format {
        TextFormat::Blake3 => match Blake3::try_new(key_bytes) {
            Ok(scheme) => Ok(Verifier::KeyedHash(scheme)),
            Err(e) => Err(e),
        },
        TextFormat::Ed25519 => match Ed25519Verifier::try_new(key_bytes) {
            Ok(verifier) => Ok(Verifier::Asymmetric(verifier)),
            Err(e) => Err(e),
        },
    }
}

/// Signs a message under the chosen scheme.
///
/// Fails exactly when the key bytes do not fit the scheme. The signature that
/// is returned verifies: [`process_text_verify`] on the same message, with the
/// matching verification key (the same key for the keyed hash, the derived
/// verifying key for the asymmetric scheme), answers `Ok(true)`.
pub fn process_text_sign(
    message: &[u8],
    key: &[u8],
    format: TextFormat,
) -> (r: Result<Vec<u8>, TextError>)
    ensures
        match r {
            Ok(signature) => {
                &&& signing_outcome(format, key@, message@) == Ok::<Seq<u8>, TextError>(signature@)
                &&& verification_outcome(
                    format,
                    verification_key_of(format, key@),
                    message@,
                    signature@,
                ) == Ok::<bool, TextError>(true)
            },
            Err(e) => signing_outcome(format, key@, message@) == Err::<Seq<u8>, TextError>(e),
        },
{
    match make_signer(format, key) {
        Ok(signer) => signer.sign(message),
        Err(e) => Err(e),
    }
}

/// Checks a signature against a message under the chosen scheme.
///
/// Fails when the key bytes do not fit the scheme, else when the signature
/// bytes do not have the scheme's length. A signature of the right length
/// that is not the message's gives `Ok(false)`.
pub fn process_text_verify(
    message: &[u8],
    key: &[u8],
    sig: &[u8],
    format: TextFormat,
) -> (r: Result<bool, TextError>)
    ensures
        r == verification_outcome(format, key@, message@, sig@),
{
    match make_verifier(format, key) {
        Ok(verifier) => verifier.verify(message, sig),
        Err(e) => Err(e),
    }
}

/// The bundle of the chosen scheme for what the random source gave.
pub fn key_bundle_from(
    format: TextFormat,
    drawn: Option<[u8; 32]>,
) -> (r: Result<KeyBundle, TextError>)
    ensures
        match drawn {
            Some(bytes) => r matches Ok(bundle) && bundle@ == generated_bundle(format, bytes@),
            None => r matches Err(e) && e == TextError::RandomSourceFailure,
        },
{
    match format {
        TextFormat::Blake3 => Blake3::key_bundle_from(drawn),
        TextFormat::Ed25519 => Ed25519Signer::key_bundle_from(drawn),
    }
}

/// Generates the key material of the chosen scheme from the operating
/// system's random source: one symmetric key, or a seed and the verifying key
/// derived from it.
pub fn process_key_generate(format: &TextFormat) -> (r: Result<KeyBundle, TextError>)
    ensures
        match r {
            Ok(bundle) => exists|drawn: [u8; 32]|
                bundle@ == #[trigger] generated_bundle(*format, drawn@),
            Err(e) => e == TextError::RandomSourceFailure,
        },
{
    match format {
        TextFormat::Blake3 => {
            let r = Blake3::generate_key();
            proof {
                if let Ok(bundle) = &r {
                    let key = choose|key: [u8; 32]| bundle@ == #[trigger] keyed_hash_bundle(key@);
                    assert(bundle@ == generated_bundle(*format, key@));
                }
            }
            r
        },
        TextFormat::Ed25519 => {
            let r = Ed25519Signer::generate_key();
            proof {
                if let Ok(bundle) = &r {
                    let seed = choose|seed: [u8; 32]| bundle@ == #[trigger] key_pair_bundle(seed@);
                    assert(bundle@ == generated_bundle(*format, seed@));
                }
            }
            r
        },
    }
}

// ---------------------------------------------------------------------------
// Laws
// ---------------------------------------------------------------------------

/// A byte string with one bit of one byte flipped.
pub open spec fn flip_bit(bytes: Seq<u8>, index: int, bit: u8) -> Seq<u8> {
    bytes.update(index, bytes[index] ^ (1u8 << bit))
}

/// Under any 32-byte key, the keyed-hash signature of a message verifies
/// against that message.
pub proof fn lemma_keyed_hash_round_trip(key: Seq<u8>, message: Seq<u8>)
    requires
        key.len() == KEY_LENGTH,
    ensures
        signing_outcome(TextFormat::Blake3, key, message) is Ok,
        verification_outcome(
            TextFormat::Blake3,
            key,
            message,
            signing_outcome(TextFormat::Blake3, key, message)->Ok_0,
        ) == Ok::<bool, TextError>(true),
{
}

/// Under the keyed hash, a byte string of the digest's length verifies against
/// a message exactly when it is the signature that signing gives.
pub proof fn lemma_keyed_hash_accepts_one_signature(
    key: Seq<u8>,
    message: Seq<u8>,
    signature: Seq<u8>,
)
    requires
        key.len() == KEY_LENGTH,
        signature.len() == DIGEST_LENGTH,
    ensures
        verification_outcome(TextFormat::Blake3, key, message, signature) == Ok::<bool, TextError>(
            signature == scheme_signature(TextFormat::Blake3, key, message),
        ),
{
}

/// Under the keyed hash, a signature with any one bit flipped does not
/// verify.
pub proof fn lemma_keyed_hash_rejects_flipped_bit(
    key: Seq<u8>,
    message: Seq<u8>,
    index: int,
    bit: u8,
)
    requires
        key.len() == KEY_LENGTH,
        0 <= index < DIGEST_LENGTH,
        bit < 8,
    ensures
        verification_outcome(
            TextFormat::Blake3,
            key,
            message,
            flip_bit(scheme_signature(TextFormat::Blake3, key, message), index, bit),
        ) == Ok::<bool, TextError>(false),
{
    let signature = scheme_signature(TextFormat::Blake3, key, message);
    let byte = signature[index];
    assert(byte ^ (1u8 << bit) != byte) by (bit_vector)
        requires
            bit < 8,
    ;
    assert(flip_bit(signature, index, bit)[index] != signature[index]);
}

/// Under the keyed hash, the signature of one message verifies against
/// another message exactly when both have the same digest under the key.
pub proof fn lemma_keyed_hash_other_message(key: Seq<u8>, signed: Seq<u8>, offered: Seq<u8>)
    requires
        key.len() == KEY_LENGTH,
    ensures
        verification_outcome(
            TextFormat::Blake3,
            key,
            offered,
            scheme_signature(TextFormat::Blake3, key, signed),
        ) == Ok::<bool, TextError>(
            keyed_hash_digest(key, signed) == keyed_hash_digest(key, offered),
        ),
{
    if keyed_hash_digest(key, signed)@ == keyed_hash_digest(key, offered)@ {
        assert(keyed_hash_digest(key, signed) =~= keyed_hash_digest(key, offered));
    }
}

/// A key of any other length than 32 bytes is refused by both schemes, for
/// signing and for verifying, with an error that names the role and both
/// lengths.
pub proof fn lemma_key_length_is_checked(
    format: TextFormat,
    key: Seq<u8>,
    message: Seq<u8>,
    signature: Seq<u8>,
)
    requires
        key.len() != KEY_LENGTH,
    ensures
        signing_outcome(format, key, message) matches Err(
            TextError::KeyValidation { fault: KeyFault::Length { expected, actual }, .. },
        ) && expected == KEY_LENGTH && actual == key.len() as usize,
        verification_outcome(format, key, message, signature) matches Err(
            TextError::KeyValidation { fault: KeyFault::Length { expected, actual }, .. },
        ) && expected == KEY_LENGTH && actual == key.len() as usize,
{
}

/// Keyed-hash key generation gives exactly one blob, of 32 bytes, under the
/// fixed role name.
pub proof fn lemma_keyed_hash_bundle_shape(key: [u8; 32])
    ensures
        keyed_hash_bundle(key@).dom() == set![BLAKE3_KEY_NAME@],
        keyed_hash_bundle(key@).dom().len() == 1,
        keyed_hash_bundle(key@)[BLAKE3_KEY_NAME@] == key@,
        keyed_hash_bundle(key@)[BLAKE3_KEY_NAME@].len() == KEY_LENGTH,
{
    assert(keyed_hash_bundle(key@).dom() =~= set![BLAKE3_KEY_NAME@]);
}

/// Key-pair generation gives exactly two blobs of 32 bytes each, under two
/// different role names: the seed, and the verifying key derived from it.
pub proof fn lemma_key_pair_bundle_shape(seed: [u8; 32])
    ensures
        ED25519_SECRET_NAME@ != ED25519_PUBLIC_NAME@,
        key_pair_bundle(seed@).dom() == set![ED25519_SECRET_NAME@, ED25519_PUBLIC_NAME@],
        key_pair_bundle(seed@).dom().len() == 2,
        key_pair_bundle(seed@)[ED25519_SECRET_NAME@] == seed@,
        key_pair_bundle(seed@)[ED25519_PUBLIC_NAME@] == ed25519_public_key(
            key_pair_bundle(seed@)[ED25519_SECRET_NAME@],
        )@,
        key_pair_bundle(seed@)[ED25519_SECRET_NAME@].len() == KEY_LENGTH,
        key_pair_bundle(seed@)[ED25519_PUBLIC_NAME@].len() == KEY_LENGTH,
{
    lemma_key_pair_names_differ();
    assert(key_pair_bundle(seed@).dom() =~= set![ED25519_SECRET_NAME@, ED25519_PUBLIC_NAME@]);
}

/// A copy of an array's bytes.
fn bytes_to_vec<const N: usize>(bytes: &[u8; N]) -> (v: Vec<u8>)
    ensures
        v@ == bytes@,
{
    let mut v: Vec<u8> = Vec::new();
    let mut i: usize = 0;
    while i < N
        invariant
            i <= N,
            v@ == bytes@.subrange(0, i as int),
        decreases N - i,
    {
        v.push(bytes[i]);
        assert(bytes@.subrange(0, i + 1) =~= bytes@.subrange(0, i as int).push(bytes@[i as int]));
        i += 1;
    }
    assert(bytes@.subrange(0, N as int) =~= bytes@);
    v
}

/// The two role names of a key pair are different names.
pub proof fn lemma_key_pair_names_differ()
    ensures
        ED25519_SECRET_NAME@ != ED25519_PUBLIC_NAME@,
{
    reveal_strlit("ed25519.sk");
    reveal_strlit("ed25519.pk");
    assert(ED25519_SECRET_NAME@[8] == 's');
    assert(ED25519_PUBLIC_NAME@[8] == 'p');
}

} // verus!
