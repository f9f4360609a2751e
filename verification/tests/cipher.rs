use qs_crypto::cipher::{decrypt, encrypt, seal};
use qs_crypto::encoding::from_hex;
use qs_crypto::error::KeystoreError;

fn bytes(text: &str) -> Vec<u8> {
    from_hex(text).unwrap()
}

#[test]
fn seal_of_nothing_is_the_published_tag() {
    let sealed = seal(&[0u8; 32], &[0u8; 12], &[], &[]);
    assert_eq!(sealed, bytes("530f8afbc74536b9a963b4f1c4cb738b"));
}

#[test]
fn seal_of_a_zero_block_is_the_published_ciphertext() {
    let sealed = seal(&[0u8; 32], &[0u8; 12], &[], &[0u8; 16]);
    assert_eq!(
        sealed,
        bytes("cea7403d4d606b6e074ec5d3baf39d18d0d1c8a799996bf0265b98b5d48ab919")
    );
}

#[test]
fn ciphertext_is_one_tag_longer_than_plaintext() {
    for len in [0usize, 1, 15, 16, 17, 32, 4032] {
        let plain = vec![0x5au8; len];
        assert_eq!(seal(&[1u8; 32], &[2u8; 12], &[], &plain).len(), len + 16);
    }
}

#[test]
fn decrypt_inverts_seal() {
    let key = [9u8; 32];
    let nonce = [3u8; 12];
    let plain = b"a secret key of some length".to_vec();
    let sealed = seal(&key, &nonce, &[], &plain);
    assert_ne!(&sealed[..plain.len()], &plain[..]);
    assert_eq!(decrypt(&key, &nonce, &[], &sealed), Ok(plain));
}

#[test]
fn decrypt_opens_the_published_ciphertext() {
    let sealed = bytes("cea7403d4d606b6e074ec5d3baf39d18d0d1c8a799996bf0265b98b5d48ab919");
    assert_eq!(decrypt(&[0u8; 32], &[0u8; 12], &[], &sealed), Ok(vec![0u8; 16]));
}

#[test]
fn decrypt_refuses_another_key() {
    let sealed = seal(&[9u8; 32], &[3u8; 12], &[], b"secret");
    let mut key = [9u8; 32];
    key[31] ^= 1;
    assert_eq!(decrypt(&key, &[3u8; 12], &[], &sealed), Err(KeystoreError::Unauthorized));
}

#[test]
fn decrypt_refuses_another_nonce() {
    let sealed = seal(&[9u8; 32], &[3u8; 12], &[], b"secret");
    let mut nonce = [3u8; 12];
    nonce[0] ^= 0x80;
    assert_eq!(decrypt(&[9u8; 32], &nonce, &[], &sealed), Err(KeystoreError::Unauthorized));
}

#[test]
fn decrypt_refuses_every_flipped_byte() {
    let sealed = seal(&[9u8; 32], &[3u8; 12], &[], b"secret");
    for i in 0..sealed.len() {
        let mut changed = sealed.clone();
        changed[i] ^= 1;
        assert_eq!(decrypt(&[9u8; 32], &[3u8; 12], &[], &changed), Err(KeystoreError::Unauthorized));
    }
}

#[test]
fn decrypt_refuses_truncated_and_extended_input() {
    let sealed = seal(&[9u8; 32], &[3u8; 12], &[], b"secret");
    assert_eq!(decrypt(&[9u8; 32], &[3u8; 12], &[], &[]), Err(KeystoreError::Unauthorized));
    assert_eq!(decrypt(&[9u8; 32], &[3u8; 12], &[], &sealed[..15]), Err(KeystoreError::Unauthorized));
    assert_eq!(
        decrypt(&[9u8; 32], &[3u8; 12], &[], &sealed[..sealed.len() - 1]),
        Err(KeystoreError::Unauthorized)
    );
    let mut longer = sealed.clone();
    longer.push(0);
    assert_eq!(decrypt(&[9u8; 32], &[3u8; 12], &[], &longer), Err(KeystoreError::Unauthorized));
}

#[test]
fn encrypt_draws_a_nonce_that_opens_the_ciphertext() {
    let key = [4u8; 32];
    let (nonce, sealed) = encrypt(&key, &[], b"plain");
    assert_eq!(nonce.len(), 12);
    assert_eq!(sealed.len(), 5 + 16);
    assert_eq!(sealed, seal(&key, &nonce, &[], b"plain"));
    assert_eq!(decrypt(&key, &nonce, &[], &sealed), Ok(b"plain".to_vec()));
}

#[test]
fn encrypt_draws_a_new_nonce_each_time() {
    let key = [4u8; 32];
    let (first, _) = encrypt(&key, &[], b"plain");
    let (second, _) = encrypt(&key, &[], b"plain");
    let (third, _) = encrypt(&key, &[], b"plain");
    assert_ne!(first, second);
    assert_ne!(second, third);
    assert_ne!(first, third);
}

#[test]
fn seal_once_wipes_the_key() {
    let mut key = vec![9u8; 32];
    let sealed = qs_crypto::cipher::seal_once(&mut key, &[3u8; 12], &[], b"secret");
    assert!(key.is_empty());
    assert_eq!(sealed, seal(&[9u8; 32], &[3u8; 12], &[], b"secret"));
}

#[test]
fn open_once_wipes_the_key_on_success_and_on_failure() {
    let sealed = seal(&[9u8; 32], &[3u8; 12], &[], b"secret");
    let mut key = vec![9u8; 32];
    assert_eq!(qs_crypto::cipher::open_once(&mut key, &[3u8; 12], &[], &sealed), Ok(b"secret".to_vec()));
    assert!(key.is_empty());
    let mut wrong = vec![8u8; 32];
    assert_eq!(
        qs_crypto::cipher::open_once(&mut wrong, &[3u8; 12], &[], &sealed),
        Err(KeystoreError::Unauthorized)
    );
    assert!(wrong.is_empty());
}

#[test]
fn seal_with_associated_data_is_the_published_ciphertext() {
    let key = bytes("feffe9928665731c6d6a8f9467308308feffe9928665731c6d6a8f9467308308");
    let nonce = bytes("cafebabefacedbaddecaf888");
    let associated = bytes("feedfacedeadbeeffeedfacedeadbeefabaddad2");
    let plain = bytes(
        "d9313225f88406e5a55909c5aff5269a86a7a9531534f7da2e4c303d8a318a72\
         1c3c0c95956809532fcf0e2449a6b525b16aedf5aa0de657ba637b39",
    );
    let sealed = seal(&key, &nonce, &associated, &plain);
    assert_eq!(
        sealed,
        bytes(
            "522dc1f099567d07f47f37a32a84427d643a8cdcbfe5c0c97598a2bd2555d1aa\
             8cb08e48590dbb3da7b08b1056828838c5f61e6393ba7a0abcc9f662\
             76fc6ece0f4e1768cddf8853bb2d551b"
        )
    );
    assert_eq!(decrypt(&key, &nonce, &associated, &sealed), Ok(plain));
}

#[test]
fn decrypt_refuses_other_associated_data() {
    let sealed = seal(&[9u8; 32], &[3u8; 12], b"beside", b"secret");
    assert_eq!(decrypt(&[9u8; 32], &[3u8; 12], b"beside", &sealed), Ok(b"secret".to_vec()));
    for other in [&b""[..], b"besid", b"beside ", b"Beside", b"besidf"] {
        assert_eq!(decrypt(&[9u8; 32], &[3u8; 12], other, &sealed), Err(KeystoreError::Unauthorized));
    }
    assert_ne!(sealed, seal(&[9u8; 32], &[3u8; 12], b"", b"secret"));
}

#[test]
fn opened_plaintext_is_one_tag_shorter_than_ciphertext() {
    for len in [0usize, 1, 16, 33] {
        let sealed = seal(&[9u8; 32], &[3u8; 12], b"beside", &vec![1u8; len]);
        let plain = decrypt(&[9u8; 32], &[3u8; 12], b"beside", &sealed).unwrap();
        assert_eq!(plain.len() + 16, sealed.len());
    }
}
