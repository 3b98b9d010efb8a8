use first_cli::cli::text::TextFormat;
use first_cli::process::text::{
    key_bundle_from, key_material, make_signer, make_verifier, process_key_generate,
    process_text_sign, process_text_verify, signature_bytes, Blake3, Ed25519Signer,
    Ed25519Verifier, KeyFault, KeyRole, Signer, TextError, TextSigner, TextVerifier, Verifier,
    BLAKE3_KEY_NAME, DIGEST_LENGTH, ED25519_PUBLIC_NAME, ED25519_SECRET_NAME, KEY_LENGTH,
    SIGNATURE_LENGTH,
};

fn hex(text: &str) -> Vec<u8> {
    let digits: Vec<u8> = text
        .bytes()
        .map(|c| match c {
            b'0'..=b'9' => c - b'0',
            b'a'..=b'f' => c - b'a' + 10,
            _ => panic!("not a hex digit"),
        })
        .collect();
    digits.chunks(2).map(|pair| pair[0] * 16 + pair[1]).collect()
}

fn array32(bytes: &[u8]) -> [u8; 32] {
    let mut out = [0u8; 32];
    out.copy_from_slice(bytes);
    out
}

const RFC_SEED: &str = "9d61b19deffd5a60ba844af492ec2cc44449c5697b326919703bac031cae7f60";
const RFC_PUBLIC: &str = "d75a980182b10ab7d54bfed3c964073a0ee172f3daa62325af021a68f707511a";
const RFC_SIGNATURE: &str = "e5564300c360ac729086e2cc806e828a84877f1eb8e5d974d873e06522490155\
                             5fb8821590a33bacc61e39701cf9b46bd25bf5f0595bbe24655141438e7a100b";

/// A 32-byte string that is the encoding of no curve point.
fn malformed_public_key() -> [u8; 32] {
    let mut key = [0u8; 32];
    key[0] = 2;
    key
}

fn key_length_error(role: KeyRole, actual: usize) -> TextError {
    TextError::KeyValidation { role, fault: KeyFault::Length { expected: 32, actual } }
}

// --- lengths ---

#[test]
fn lengths_are_those_of_the_schemes() {
    assert_eq!(KEY_LENGTH, 32);
    assert_eq!(DIGEST_LENGTH, 32);
    assert_eq!(SIGNATURE_LENGTH, 64);
}

#[test]
fn key_material_takes_exactly_the_required_length() {
    let bytes: Vec<u8> = (0u8..32).collect();
    assert_eq!(key_material::<32>(&bytes, KeyRole::SymmetricKey), Ok(array32(&bytes)));
    assert_eq!(
        key_material::<32>(&bytes[..31], KeyRole::SigningSeed),
        Err(key_length_error(KeyRole::SigningSeed, 31))
    );
    assert_eq!(
        key_material::<32>(&[], KeyRole::VerifyingKey),
        Err(key_length_error(KeyRole::VerifyingKey, 0))
    );
    assert_eq!(
        key_material::<16>(&bytes, KeyRole::SymmetricKey),
        Err(TextError::KeyValidation {
            role: KeyRole::SymmetricKey,
            fault: KeyFault::Length { expected: 16, actual: 32 },
        })
    );
}

#[test]
fn signature_bytes_takes_exactly_the_required_length() {
    let bytes = [9u8; 64];
    assert_eq!(signature_bytes::<64>(&bytes), Ok(bytes));
    assert_eq!(
        signature_bytes::<64>(&bytes[..63]),
        Err(TextError::SignatureValidation { expected: 64, actual: 63 })
    );
    assert_eq!(
        signature_bytes::<32>(&bytes),
        Err(TextError::SignatureValidation { expected: 32, actual: 64 })
    );
}

// --- keyed hash ---

#[test]
fn blake3_scenario_with_fixed_key() {
    let key = [0x2Au8; 32];
    let message = b"This is a test message for blake3";

    let digest = process_text_sign(message, &key, TextFormat::Blake3).unwrap();
    assert_eq!(digest.len(), 32);
    assert_eq!(process_text_verify(message, &key, &digest, TextFormat::Blake3), Ok(true));

    let mut changed = digest.clone();
    changed[0] = changed[0].wrapping_add(1);
    assert_eq!(process_text_verify(message, &key, &changed, TextFormat::Blake3), Ok(false));
}

#[test]
fn blake3_digest_is_the_known_one() {
    let key = [42u8; 32];
    let digest =
        process_text_sign(b"This is a test message for blake3", &key, TextFormat::Blake3).unwrap();
    assert_eq!(digest, hex("368f1741f5b66dc227dc5507718595e3ef87aa562962cb2dc40ab1d0245de347"));

    let digest = process_text_sign(b"", b"whats the Elvish word for friend", TextFormat::Blake3)
        .unwrap();
    assert_eq!(digest, hex("92b2b75604ed3c761f9d6f62392c8a9227ad0ea3f09573e783f1498a4ed60d26"));
}

#[test]
fn blake3_signing_is_deterministic() {
    let key = [7u8; 32];
    let first = process_text_sign(b"same input", &key, TextFormat::Blake3).unwrap();
    let second = process_text_sign(b"same input", &key, TextFormat::Blake3).unwrap();
    assert_eq!(first, second);
}

#[test]
fn blake3_round_trip_over_keys_and_messages() {
    let messages: [&[u8]; 4] = [b"", b"a", b"two blocks of input, more than sixty-four bytes long, to be sure of it", &[0u8; 3000]];
    for seed in [0u8, 1, 42, 255] {
        let key = [seed; 32];
        for message in messages {
            let sig = process_text_sign(message, &key, TextFormat::Blake3).unwrap();
            assert_eq!(process_text_verify(message, &key, &sig, TextFormat::Blake3), Ok(true));
        }
    }
}

#[test]
fn blake3_every_flipped_bit_of_the_signature_is_refused() {
    let key = [42u8; 32];
    let message = b"bit by bit";
    let sig = process_text_sign(message, &key, TextFormat::Blake3).unwrap();
    for byte in 0..sig.len() {
        for bit in 0..8 {
            let mut changed = sig.clone();
            changed[byte] ^= 1 << bit;
            assert_eq!(
                process_text_verify(message, &key, &changed, TextFormat::Blake3),
                Ok(false)
            );
        }
    }
}

#[test]
fn blake3_wrong_key_is_refused() {
    let sig = process_text_sign(b"message", &[1u8; 32], TextFormat::Blake3).unwrap();
    assert_eq!(process_text_verify(b"message", &[2u8; 32], &sig, TextFormat::Blake3), Ok(false));
}

#[test]
fn blake3_key_of_wrong_length_is_a_key_error() {
    for length in [0usize, 31, 33, 64] {
        let key = vec![42u8; length];
        let expected = key_length_error(KeyRole::SymmetricKey, length);
        assert_eq!(Blake3::try_new(&key).err(), Some(expected));
        assert_eq!(process_text_sign(b"m", &key, TextFormat::Blake3), Err(expected));
        assert_eq!(process_text_verify(b"m", &key, &[0u8; 32], TextFormat::Blake3), Err(expected));
        assert_eq!(make_signer(TextFormat::Blake3, &key).err(), Some(expected));
        assert_eq!(make_verifier(TextFormat::Blake3, &key).err(), Some(expected));
    }
    assert!(Blake3::try_new(&[42u8; 32]).is_ok());
}

#[test]
fn blake3_signature_of_wrong_length() {
    let key = [42u8; 32];
    let sig = process_text_sign(b"m", &key, TextFormat::Blake3).unwrap();

    // Through the dispatcher a signature of the wrong length is an error.
    assert_eq!(
        process_text_verify(b"m", &key, &sig[..31], TextFormat::Blake3),
        Err(TextError::SignatureValidation { expected: 32, actual: 31 })
    );
    assert_eq!(
        process_text_verify(b"m", &key, &[], TextFormat::Blake3),
        Err(TextError::SignatureValidation { expected: 32, actual: 0 })
    );
    let mut longer = sig.clone();
    longer.push(0);
    assert_eq!(
        process_text_verify(b"m", &key, &longer, TextFormat::Blake3),
        Err(TextError::SignatureValidation { expected: 32, actual: 33 })
    );

    // The scheme itself compares, and nothing of another length is equal.
    let scheme = Blake3::new(key);
    assert_eq!(scheme.verify(b"m", &sig[..31]), Ok(false));
    assert_eq!(scheme.verify(b"m", &longer), Ok(false));
    assert_eq!(scheme.verify(b"m", &sig), Ok(true));
}

#[test]
fn blake3_scheme_signs_what_the_dispatcher_signs() {
    let key = [5u8; 32];
    let scheme = Blake3::new(key);
    assert_eq!(
        scheme.sign(b"text"),
        process_text_sign(b"text", &key, TextFormat::Blake3)
    );
}

// --- asymmetric signatures ---

#[test]
fn ed25519_signature_is_the_known_one() {
    let sig = process_text_sign(b"", &hex(RFC_SEED), TextFormat::Ed25519).unwrap();
    assert_eq!(sig, hex(RFC_SIGNATURE));
    assert_eq!(
        process_text_verify(b"", &hex(RFC_PUBLIC), &sig, TextFormat::Ed25519),
        Ok(true)
    );
}

#[test]
fn ed25519_signing_is_deterministic() {
    let seed = [7u8; 32];
    let first = process_text_sign(b"same input", &seed, TextFormat::Ed25519).unwrap();
    let second = process_text_sign(b"same input", &seed, TextFormat::Ed25519).unwrap();
    assert_eq!(first.len(), 64);
    assert_eq!(first, second);
}

#[test]
fn ed25519_generated_pair_round_trip() {
    let keys = process_key_generate(&TextFormat::Ed25519).unwrap();
    let seed = keys.get(ED25519_SECRET_NAME).unwrap();
    let public = keys.get(ED25519_PUBLIC_NAME).unwrap();
    let messages: [&[u8]; 3] = [b"", b"short", &[0xABu8; 5000]];
    for message in messages {
        let sig = process_text_sign(message, seed, TextFormat::Ed25519).unwrap();
        assert_eq!(process_text_verify(message, public, &sig, TextFormat::Ed25519), Ok(true));
    }
}

#[test]
fn ed25519_wrong_message_and_wrong_key_are_refused() {
    let sig = process_text_sign(b"", &hex(RFC_SEED), TextFormat::Ed25519).unwrap();
    assert_eq!(
        process_text_verify(b"x", &hex(RFC_PUBLIC), &sig, TextFormat::Ed25519),
        Ok(false)
    );

    let other = Ed25519Signer::key_bundle_from(Some([7u8; 32])).unwrap();
    let other_public = other.get(ED25519_PUBLIC_NAME).unwrap();
    assert_eq!(process_text_verify(b"", other_public, &sig, TextFormat::Ed25519), Ok(false));
}

#[test]
fn ed25519_seed_of_wrong_length_is_a_key_error() {
    for length in [0usize, 31, 33, 64] {
        let seed = vec![1u8; length];
        let expected = key_length_error(KeyRole::SigningSeed, length);
        assert_eq!(Ed25519Signer::try_new(&seed).err(), Some(expected));
        assert_eq!(process_text_sign(b"m", &seed, TextFormat::Ed25519), Err(expected));
        assert_eq!(make_signer(TextFormat::Ed25519, &seed).err(), Some(expected));
    }
}

#[test]
fn ed25519_verifying_key_of_wrong_length_is_a_key_error() {
    for length in [0usize, 31, 33] {
        let key = vec![1u8; length];
        let expected = key_length_error(KeyRole::VerifyingKey, length);
        assert_eq!(Ed25519Verifier::try_new(&key).err(), Some(expected));
        assert_eq!(
            process_text_verify(b"m", &key, &[0u8; 64], TextFormat::Ed25519),
            Err(expected)
        );
    }
}

#[test]
fn ed25519_malformed_verifying_key_is_a_key_error() {
    let expected =
        TextError::KeyValidation { role: KeyRole::VerifyingKey, fault: KeyFault::Encoding };
    let key = malformed_public_key();
    assert_eq!(Ed25519Verifier::try_new(&key).err(), Some(expected));
    assert_eq!(make_verifier(TextFormat::Ed25519, &key).err(), Some(expected));
    assert_eq!(process_text_verify(b"m", &key, &[0u8; 64], TextFormat::Ed25519), Err(expected));
    // The key is looked at before the signature.
    assert_eq!(process_text_verify(b"m", &key, &[0u8; 3], TextFormat::Ed25519), Err(expected));

    assert!(Ed25519Verifier::try_new(&hex(RFC_PUBLIC)).is_ok());
}

#[test]
fn ed25519_signature_of_wrong_length_is_a_signature_error() {
    let public = hex(RFC_PUBLIC);
    let sig = hex(RFC_SIGNATURE);
    for length in [0usize, 32, 63] {
        assert_eq!(
            process_text_verify(b"", &public, &sig[..length], TextFormat::Ed25519),
            Err(TextError::SignatureValidation { expected: 64, actual: length })
        );
    }
    let mut longer = sig.clone();
    longer.push(0);
    assert_eq!(
        process_text_verify(b"", &public, &longer, TextFormat::Ed25519),
        Err(TextError::SignatureValidation { expected: 64, actual: 65 })
    );

    let verifier = Ed25519Verifier::try_new(&public).ok().unwrap();
    assert_eq!(
        verifier.verify(b"", &sig[..63]),
        Err(TextError::SignatureValidation { expected: 64, actual: 63 })
    );
    assert_eq!(verifier.verify(b"", &sig), Ok(true));
}

#[test]
fn ed25519_signer_and_verifier_of_the_scheme() {
    let signer = Ed25519Signer::new(array32(&hex(RFC_SEED)));
    let sig = signer.sign(b"").unwrap();
    assert_eq!(sig, hex(RFC_SIGNATURE));
    let verifier = Ed25519Verifier::try_new(&hex(RFC_PUBLIC)).ok().unwrap();
    assert_eq!(verifier.verify(b"", &sig), Ok(true));
    assert_eq!(verifier.verify(b"other", &sig), Ok(false));
}

// --- dispatch ---

#[test]
fn make_signer_gives_the_scheme_asked_for() {
    let key = [3u8; 32];
    let keyed = make_signer(TextFormat::Blake3, &key).ok().unwrap();
    assert!(matches!(keyed, Signer::KeyedHash(_)));
    assert_eq!(keyed.sign(b"m"), process_text_sign(b"m", &key, TextFormat::Blake3));

    let asymmetric = make_signer(TextFormat::Ed25519, &key).ok().unwrap();
    assert!(matches!(asymmetric, Signer::Asymmetric(_)));
    assert_eq!(asymmetric.sign(b"m"), process_text_sign(b"m", &key, TextFormat::Ed25519));
}

#[test]
fn make_verifier_gives_the_scheme_asked_for() {
    let key = [3u8; 32];
    let keyed = make_verifier(TextFormat::Blake3, &key).ok().unwrap();
    assert!(matches!(keyed, Verifier::KeyedHash(_)));
    let sig = process_text_sign(b"m", &key, TextFormat::Blake3).unwrap();
    assert_eq!(keyed.verify(b"m", &sig), Ok(true));
    assert_eq!(
        keyed.verify(b"m", &sig[..5]),
        Err(TextError::SignatureValidation { expected: 32, actual: 5 })
    );

    let asymmetric = make_verifier(TextFormat::Ed25519, &hex(RFC_PUBLIC)).ok().unwrap();
    assert!(matches!(asymmetric, Verifier::Asymmetric(_)));
    assert_eq!(asymmetric.verify(b"", &hex(RFC_SIGNATURE)), Ok(true));
}

#[test]
fn a_signature_of_one_scheme_is_not_one_of_the_other() {
    let key = hex(RFC_PUBLIC);
    let digest = process_text_sign(b"m", &key, TextFormat::Blake3).unwrap();
    assert_eq!(
        process_text_verify(b"m", &key, &digest, TextFormat::Ed25519),
        Err(TextError::SignatureValidation { expected: 64, actual: 32 })
    );
}

// --- key generation ---

#[test]
fn keyed_hash_bundle_holds_the_drawn_key() {
    let key = [9u8; 32];
    let bundle = Blake3::key_bundle_from(Some(key)).ok().unwrap();
    assert_eq!(bundle.len(), 1);
    assert_eq!(bundle.get(BLAKE3_KEY_NAME), Some(&key.to_vec()));
    assert_eq!(BLAKE3_KEY_NAME, "blake3.key");
}

#[test]
fn key_pair_bundle_holds_the_seed_and_its_public_key() {
    let seed = array32(&hex(RFC_SEED));
    let bundle = Ed25519Signer::key_bundle_from(Some(seed)).ok().unwrap();
    assert_eq!(bundle.len(), 2);
    assert_eq!(bundle.get(ED25519_SECRET_NAME), Some(&seed.to_vec()));
    assert_eq!(bundle.get(ED25519_PUBLIC_NAME), Some(&hex(RFC_PUBLIC)));
    assert_eq!(ED25519_SECRET_NAME, "ed25519.sk");
    assert_eq!(ED25519_PUBLIC_NAME, "ed25519.pk");
}

#[test]
fn a_failed_random_source_is_an_error() {
    assert_eq!(Blake3::key_bundle_from(None).err(), Some(TextError::RandomSourceFailure));
    assert_eq!(Ed25519Signer::key_bundle_from(None).err(), Some(TextError::RandomSourceFailure));
    assert_eq!(
        key_bundle_from(TextFormat::Blake3, None).err(),
        Some(TextError::RandomSourceFailure)
    );
    assert_eq!(
        key_bundle_from(TextFormat::Ed25519, None).err(),
        Some(TextError::RandomSourceFailure)
    );
}

#[test]
fn key_bundle_from_follows_the_scheme() {
    let drawn = [1u8; 32];
    let keyed = key_bundle_from(TextFormat::Blake3, Some(drawn)).ok().unwrap();
    assert_eq!(keyed.len(), 1);
    assert!(keyed.contains_key("blake3.key"));
    let pair = key_bundle_from(TextFormat::Ed25519, Some(drawn)).ok().unwrap();
    assert_eq!(pair.len(), 2);
    assert!(pair.contains_key("ed25519.sk"));
    assert!(pair.contains_key("ed25519.pk"));
}

#[test]
fn generated_keys_differ_from_one_call_to_the_next() {
    let first = Blake3::generate_key().ok().unwrap();
    let second = Blake3::generate_key().ok().unwrap();
    assert_ne!(first.get("blake3.key"), second.get("blake3.key"));

    let first = Ed25519Signer::generate_key().ok().unwrap();
    let second = Ed25519Signer::generate_key().ok().unwrap();
    assert_ne!(first.get("ed25519.sk"), second.get("ed25519.sk"));
}

#[test]
fn generated_public_key_is_derived_from_the_generated_seed() {
    let keys = process_key_generate(&TextFormat::Ed25519).unwrap();
    let seed = keys.get("ed25519.sk").unwrap();
    let again = Ed25519Signer::key_bundle_from(Some(array32(seed))).ok().unwrap();
    assert_eq!(keys.get("ed25519.pk"), again.get("ed25519.pk"));
}

#[test]
fn generated_symmetric_key_signs_and_verifies() {
    let keys = process_key_generate(&TextFormat::Blake3).unwrap();
    let key = keys.get("blake3.key").unwrap();
    let sig = process_text_sign(b"message", key, TextFormat::Blake3).unwrap();
    assert_eq!(process_text_verify(b"message", key, &sig, TextFormat::Blake3), Ok(true));
}

#[test]
fn ed25519_every_flipped_bit_of_the_signature_is_refused() {
    let public = hex(RFC_PUBLIC);
    let sig = hex(RFC_SIGNATURE);
    for byte in 0..sig.len() {
        for bit in 0..8 {
            let mut changed = sig.clone();
            changed[byte] ^= 1 << bit;
            assert_eq!(process_text_verify(b"", &public, &changed, TextFormat::Ed25519), Ok(false));
        }
    }
}

#[test]
fn the_key_is_looked_at_before_the_signature() {
    assert_eq!(
        process_text_verify(b"m", &[1u8; 5], &[0u8; 3], TextFormat::Blake3),
        Err(key_length_error(KeyRole::SymmetricKey, 5))
    );
    assert_eq!(
        process_text_verify(b"m", &[1u8; 5], &[0u8; 3], TextFormat::Ed25519),
        Err(key_length_error(KeyRole::VerifyingKey, 5))
    );
}
