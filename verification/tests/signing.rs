use qs_crypto::encoding::from_hex;
use qs_crypto::error::KeystoreError;
use qs_crypto::scheme::{
    generate_dilithium3, generate_keypair, opens_to, round_trips, sign_message, verify_message,
    DilithiumKeypair, Scheme,
};
use qs_crypto::{keypair, open, sign};

fn unhex(text: &str) -> Vec<u8> {
    from_hex(text).unwrap()
}

const SECRET_ONE: &str = "9d61b19deffd5a60ba844af492ec2cc44449c5697b326919703bac031cae7f60";
const PUBLIC_ONE: &str = "d75a980182b10ab7d54bfed3c964073a0ee172f3daa62325af021a68f707511a";
const SIGNATURE_ONE: &str = "e5564300c360ac729086e2cc806e828a84877f1eb8e5d974d873e06522490155\
5fb8821590a33bacc61e39701cf9b46bd25bf5f0595bbe24655141438e7a100b";

const SECRET_TWO: &str = "4ccd089b28ff96da9db6c346ec114e0f5b8a319f35aba624da8cf6ed4fb8a6fb";
const PUBLIC_TWO: &str = "3d4017c3e843895a92b70aa74d1b7ebc9c982ccf2ec4968cc0cd55f12af4660c";
const SIGNATURE_TWO: &str = "92a009a9f0d4cab8720e820b5f642540a2b27b5416503f8fb3762223ebdb69da\
085ac1e43e15996e458f3613d0f11d8c387b2eaeb4302aeeb00d291612bb0c00";

#[test]
fn ed25519_signs_the_empty_message_as_published() {
    let signed = sign(&[], &unhex(SECRET_ONE)).unwrap();
    assert_eq!(signed, unhex(SIGNATURE_ONE));
    assert_eq!(open(&signed, &unhex(PUBLIC_ONE)), Some(vec![]));
}

#[test]
fn ed25519_signs_one_byte_as_published() {
    let signed = sign(&[0x72], &unhex(SECRET_TWO)).unwrap();
    let mut expected = unhex(SIGNATURE_TWO);
    expected.push(0x72);
    assert_eq!(signed, expected);
    assert_eq!(open(&signed, &unhex(PUBLIC_TWO)), Some(vec![0x72]));
}

#[test]
fn ed25519_signed_message_is_signature_then_message() {
    let (_, secret) = keypair();
    let signed = sign(b"hello", &secret).unwrap();
    assert_eq!(signed.len(), 64 + 5);
    assert_eq!(&signed[64..], b"hello");
}

#[test]
fn ed25519_sign_rejects_keys_of_wrong_length() {
    assert_eq!(sign(b"m", &[]), Err(KeystoreError::SchemeError));
    assert_eq!(sign(b"m", &[1u8; 31]), Err(KeystoreError::SchemeError));
    assert_eq!(sign(b"m", &[1u8; 33]), Err(KeystoreError::SchemeError));
    assert_eq!(sign(b"m", &[1u8; 64]), Err(KeystoreError::SchemeError));
    assert!(sign(b"m", &[1u8; 32]).is_ok());
}

#[test]
fn ed25519_keypair_has_scheme_lengths_and_is_fresh() {
    let (public, secret) = keypair();
    assert_eq!(public.len(), 32);
    assert_eq!(secret.len(), 32);
    let (other_public, other_secret) = keypair();
    assert_ne!(public, other_public);
    assert_ne!(secret, other_secret);
}

#[test]
fn ed25519_open_returns_the_signed_message() {
    let (public, secret) = keypair();
    for message in [&b""[..], b"x", b"hello", &[0u8; 1000]] {
        let signed = sign(message, &secret).unwrap();
        assert_eq!(open(&signed, &public), Some(message.to_vec()));
    }
}

#[test]
fn ed25519_open_rejects_short_input() {
    let (public, _) = keypair();
    assert_eq!(open(&[], &public), None);
    assert_eq!(open(&[0u8; 63], &public), None);
    assert_eq!(open(&unhex(SIGNATURE_ONE)[..63], &unhex(PUBLIC_ONE)), None);
}

#[test]
fn ed25519_open_rejects_malformed_public_key() {
    let signed = unhex(SIGNATURE_ONE);
    assert_eq!(open(&signed, &[]), None);
    assert_eq!(open(&signed, &unhex(PUBLIC_ONE)[..31]), None);
    let mut longer = unhex(PUBLIC_ONE);
    longer.push(0);
    assert_eq!(open(&signed, &longer), None);
}

#[test]
fn ed25519_open_rejects_an_unrelated_public_key() {
    let (_, secret) = keypair();
    let (other_public, _) = keypair();
    let signed = sign(b"hello", &secret).unwrap();
    assert_eq!(open(&signed, &other_public), None);
    assert_eq!(open(&unhex(SIGNATURE_ONE), &unhex(PUBLIC_TWO)), None);
}

#[test]
fn ed25519_open_rejects_every_flipped_byte() {
    let (public, secret) = keypair();
    let signed = sign(b"hello", &secret).unwrap();
    for i in 0..signed.len() {
        let mut changed = signed.clone();
        changed[i] ^= 1;
        assert_eq!(open(&changed, &public), None);
    }
}

#[test]
fn dilithium3_keys_have_scheme_lengths() {
    let pair = generate_dilithium3();
    assert_eq!(pair.public.len(), 1952);
    assert_eq!(pair.secret.len(), 4032);
    let other = generate_dilithium3();
    assert_ne!(pair.public, other.public);
}

#[test]
fn dilithium3_signed_message_is_signature_then_message() {
    let pair = generate_dilithium3();
    let signed = sign_message(Scheme::Dilithium3, &pair.secret, b"hello").unwrap();
    assert_eq!(signed.len(), 3309 + 5);
    assert_eq!(&signed[3309..], b"hello");
    assert_ne!(&signed[..5], b"hello");
}

#[test]
fn dilithium3_signing_is_deterministic() {
    let pair = generate_dilithium3();
    let first = sign_message(Scheme::Dilithium3, &pair.secret, b"hello").unwrap();
    let second = sign_message(Scheme::Dilithium3, &pair.secret, b"hello").unwrap();
    assert_eq!(first, second);
}

#[test]
fn ed25519_signing_is_deterministic() {
    let pair = generate_keypair(Scheme::Ed25519);
    let first = sign_message(Scheme::Ed25519, &pair.secret, b"hello").unwrap();
    let second = sign_message(Scheme::Ed25519, &pair.secret, b"hello").unwrap();
    assert_eq!(first, second);
}

#[test]
fn verify_recovers_what_was_signed() {
    for scheme in [Scheme::Dilithium3, Scheme::Ed25519] {
        let pair = generate_keypair(scheme);
        for message in [&b""[..], b"x", b"hello", &[7u8; 5000]] {
            let signed = sign_message(scheme, &pair.secret, message).unwrap();
            assert_eq!(verify_message(scheme, &pair.public, &signed), Some(message.to_vec()));
        }
    }
}

#[test]
fn verify_with_an_unrelated_public_key_returns_nothing() {
    for scheme in [Scheme::Dilithium3, Scheme::Ed25519] {
        let pair = generate_keypair(scheme);
        let other = generate_keypair(scheme);
        let signed = sign_message(scheme, &pair.secret, b"hello").unwrap();
        assert_eq!(verify_message(scheme, &other.public, &signed), None);
    }
}

#[test]
fn verify_rejects_a_flipped_byte() {
    for scheme in [Scheme::Dilithium3, Scheme::Ed25519] {
        let pair = generate_keypair(scheme);
        let signed = sign_message(scheme, &pair.secret, b"hello").unwrap();
        for i in [0, 1, signed.len() / 2, signed.len() - 6, signed.len() - 1] {
            let mut changed = signed.clone();
            changed[i] ^= 0x40;
            assert_eq!(verify_message(scheme, &pair.public, &changed), None);
        }
    }
}

#[test]
fn verify_rejects_short_and_empty_input() {
    for scheme in [Scheme::Dilithium3, Scheme::Ed25519] {
        let pair = generate_keypair(scheme);
        assert_eq!(verify_message(scheme, &[], &[]), None);
        assert_eq!(verify_message(scheme, &pair.public, &[]), None);
        assert_eq!(verify_message(scheme, &pair.public, &[0u8; 10]), None);
        assert_eq!(verify_message(scheme, &[], &[0u8; 4000]), None);
    }
}

#[test]
fn verify_rejects_keys_of_another_length() {
    for scheme in [Scheme::Dilithium3, Scheme::Ed25519] {
        let pair = generate_keypair(scheme);
        let signed = sign_message(scheme, &pair.secret, b"hello").unwrap();
        let mut longer = pair.public.clone();
        longer.push(0);
        assert_eq!(verify_message(scheme, &longer, &signed), None);
        assert_eq!(verify_message(scheme, &pair.public[1..], &signed), None);
        assert_eq!(verify_message(scheme, &[], &signed), None);
    }
}

#[test]
fn signed_message_is_a_signature_of_fixed_length_then_the_message() {
    for (scheme, signature_len) in [(Scheme::Dilithium3, 3309usize), (Scheme::Ed25519, 64)] {
        let pair = generate_keypair(scheme);
        for message in [&b""[..], b"x", b"hello", &[3u8; 777]] {
            let before = pair.secret.clone();
            let signed = sign_message(scheme, &pair.secret, message).unwrap();
            assert_eq!(signed.len(), signature_len + message.len());
            assert!(signed.len() > message.len());
            assert!(signed.ends_with(message));
            assert_eq!(&signed[signature_len..], message);
            assert_eq!(pair.secret, before);
        }
    }
}

#[test]
fn sign_message_rejects_keys_of_wrong_length() {
    assert_eq!(sign_message(Scheme::Dilithium3, &[], b"m"), Err(KeystoreError::SchemeError));
    assert_eq!(
        sign_message(Scheme::Dilithium3, &[0u8; 4031], b"m"),
        Err(KeystoreError::SchemeError)
    );
    assert_eq!(
        sign_message(Scheme::Dilithium3, &[0u8; 32], b"m"),
        Err(KeystoreError::SchemeError)
    );
    assert_eq!(sign_message(Scheme::Ed25519, &[0u8; 4032], b"m"), Err(KeystoreError::SchemeError));
    assert_eq!(sign_message(Scheme::Ed25519, &[0u8; 31], b"m"), Err(KeystoreError::SchemeError));
}

#[test]
fn one_scheme_does_not_verify_the_other() {
    let classical = generate_keypair(Scheme::Ed25519);
    let quantum = generate_keypair(Scheme::Dilithium3);
    let signed_classical = sign_message(Scheme::Ed25519, &classical.secret, b"hello").unwrap();
    let signed_quantum = sign_message(Scheme::Dilithium3, &quantum.secret, b"hello").unwrap();
    assert_eq!(verify_message(Scheme::Dilithium3, &quantum.public, &signed_classical), None);
    assert_eq!(verify_message(Scheme::Dilithium3, &classical.public, &signed_classical), None);
    assert_eq!(verify_message(Scheme::Ed25519, &classical.public, &signed_quantum), None);
    assert_eq!(verify_message(Scheme::Ed25519, &quantum.public, &signed_quantum), None);
}

#[test]
fn opens_to_compares_the_recovered_message() {
    for scheme in [Scheme::Dilithium3, Scheme::Ed25519] {
        let pair = generate_keypair(scheme);
        let signed = sign_message(scheme, &pair.secret, b"probe").unwrap();
        assert!(opens_to(scheme, &pair.public, &signed, b"probe"));
        assert!(!opens_to(scheme, &pair.public, &signed, b"prob"));
        assert!(!opens_to(scheme, &pair.public, &signed, b"probe!"));
        assert!(!opens_to(scheme, &pair.public, &signed, b"Probe"));
        assert!(!opens_to(scheme, &pair.public, &signed[1..], b"probe"));
    }
}

#[test]
fn generated_pairs_round_trip() {
    for scheme in [Scheme::Dilithium3, Scheme::Ed25519] {
        let pair = generate_keypair(scheme);
        assert!(round_trips(scheme, &pair, b"probe"));
        assert!(round_trips(scheme, &pair, b""));
    }
}

#[test]
fn mismatched_pairs_do_not_round_trip() {
    for scheme in [Scheme::Dilithium3, Scheme::Ed25519] {
        let first = generate_keypair(scheme);
        let second = generate_keypair(scheme);
        let mixed = DilithiumKeypair { public: first.public.clone(), secret: second.secret.clone() };
        assert!(!round_trips(scheme, &mixed, b"probe"));
        let short = DilithiumKeypair { public: first.public.clone(), secret: vec![1, 2, 3] };
        assert!(!round_trips(scheme, &short, b"probe"));
    }
}

#[test]
fn sign_once_wipes_the_secret_key_on_success_and_on_failure() {
    for scheme in [Scheme::Dilithium3, Scheme::Ed25519] {
        let pair = generate_keypair(scheme);
        let mut secret = pair.secret.clone();
        let signed = qs_crypto::scheme::sign_once(scheme, &mut secret, b"hello").unwrap();
        assert!(secret.is_empty());
        assert_eq!(signed, sign_message(scheme, &pair.secret, b"hello").unwrap());
        let mut odd = vec![1u8, 2, 3];
        assert_eq!(
            qs_crypto::scheme::sign_once(scheme, &mut odd, b"hello"),
            Err(KeystoreError::SchemeError)
        );
        assert!(odd.is_empty());
    }
}

#[test]
fn scheme_identifier_round_trips() {
    assert_eq!(Scheme::Dilithium3.label(), "dilithium3");
    assert_eq!(Scheme::Ed25519.label(), "ed25519");
    for scheme in [Scheme::Dilithium3, Scheme::Ed25519] {
        assert_eq!(Scheme::parse(&scheme.label()), Some(scheme));
    }
    for other in ["", "Dilithium3", "dilithium5", "ed25519 ", "rsa"] {
        assert_eq!(Scheme::parse(other), None);
    }
}
