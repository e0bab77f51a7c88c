use aes_gcm::aead::{Aead, KeyInit};
use base64::Engine;
use sha2::Digest;
use kubilitics_desktop::crypto::{
    decrypt_kubeconfig, encrypt_kubeconfig, get_encryption_key, load_encrypted_kubeconfig, open,
    seal, KEY_LEN, NONCE_LEN,
};

const DIR: &str = "/home/u/.local/share/kubilitics";

fn hex(bytes: &[u8]) -> String {
    bytes.iter().map(|b| format!("{b:02x}")).collect()
}

#[test]
fn key_is_the_digest_of_directory_and_label() {
    assert_eq!((KEY_LEN, NONCE_LEN), (32, 12));
    let key = get_encryption_key(Some(DIR)).unwrap();
    assert_eq!(key.len(), 32);
    assert_eq!(get_encryption_key(Some(DIR)).unwrap(), key);
    assert_ne!(get_encryption_key(Some("/other")).unwrap(), key);
    // SHA-256 of "kubilitics-kubeconfig-key", the material for an empty directory name
    assert_eq!(
        hex(&get_encryption_key(Some("")).unwrap()),
        hex(&sha2::Sha256::digest(b"kubilitics-kubeconfig-key"))
    );
    // SHA-256 of "abc" is known; the label is appended to the directory
    assert_ne!(
        hex(&get_encryption_key(Some("abc")).unwrap()),
        "ba7816bf8f01cfea414140de5dae2223b00361a396177a9cb410ff61f20015ad"
    );
    assert_eq!(
        get_encryption_key(None),
        Err("Could not find data directory".to_string())
    );
}

#[test]
fn sealed_text_is_nonce_and_ciphertext_in_base64() {
    let key = get_encryption_key(Some(DIR)).unwrap();
    let nonce: Vec<u8> = (1..=12).collect();
    let text = seal(&key, nonce.clone(), "apiVersion: v1").unwrap();
    let raw = base64::engine::general_purpose::STANDARD.decode(&text).unwrap();
    assert_eq!(&raw[..12], &nonce[..]);
    // plaintext length plus the tag of 16 bytes
    assert_eq!(raw.len(), 12 + "apiVersion: v1".len() + 16);
    assert_ne!(&raw[12..12 + 14], b"apiVersion: v1");
    // the same key, nonce and text give the same stored form
    assert_eq!(seal(&key, nonce.clone(), "apiVersion: v1").unwrap(), text);
    assert_ne!(seal(&key, vec![0; 12], "apiVersion: v1").unwrap(), text);
    assert_eq!(open(&key, &text), Ok("apiVersion: v1".to_string()));
    // known answer: AES-256-GCM with zero key and zero nonce on the empty text gives this tag
    let empty = seal(&[0u8; 32], vec![0; 12], "").unwrap();
    let raw = base64::engine::general_purpose::STANDARD.decode(&empty).unwrap();
    assert_eq!(hex(&raw[12..]), "530f8afbc74536b9a963b4f1c4cb738b");
}

#[test]
fn encryption_round_trip() {
    for content in ["", "a", "apiVersion: v1\nclusters: []\n", "schlüssel: wért ✓"] {
        let stored = encrypt_kubeconfig(Some(DIR), content).unwrap();
        assert_ne!(stored, content);
        assert_eq!(decrypt_kubeconfig(Some(DIR), &stored), Ok(content.to_string()));
        assert_eq!(
            load_encrypted_kubeconfig(Some(DIR), Some(&stored)),
            Ok(Some(content.to_string()))
        );
    }
    // a fresh nonce every time
    assert_ne!(
        encrypt_kubeconfig(Some(DIR), "x").unwrap(),
        encrypt_kubeconfig(Some(DIR), "x").unwrap()
    );
    assert_eq!(
        encrypt_kubeconfig(None, "x"),
        Err("Could not find data directory".to_string())
    );
    assert_eq!(load_encrypted_kubeconfig(Some(DIR), None), Ok(None));
    assert_eq!(load_encrypted_kubeconfig(None, None), Ok(None));
}

#[test]
fn decryption_errors() {
    let engine = base64::engine::general_purpose::STANDARD;
    let stored = encrypt_kubeconfig(Some(DIR), "secret").unwrap();
    assert_eq!(
        decrypt_kubeconfig(None, &stored),
        Err("Could not find data directory".to_string())
    );
    assert_eq!(
        decrypt_kubeconfig(Some("/elsewhere"), &stored),
        Err("Decryption failed: aead::Error".to_string())
    );
    let message = decrypt_kubeconfig(Some(DIR), "not base64!").unwrap_err();
    assert!(message.starts_with("Base64 decode failed: "), "{message}");
    assert_eq!(
        message,
        format!("Base64 decode failed: {}", engine.decode("not base64!").unwrap_err())
    );
    assert_eq!(
        decrypt_kubeconfig(Some(DIR), ""),
        Err("Invalid encrypted data".to_string())
    );
    assert_eq!(
        decrypt_kubeconfig(Some(DIR), &engine.encode([0u8; 11])),
        Err("Invalid encrypted data".to_string())
    );
    // twelve bytes hold a nonce and no tag
    assert_eq!(
        decrypt_kubeconfig(Some(DIR), &engine.encode([0u8; 12])),
        Err("Decryption failed: aead::Error".to_string())
    );
    let mut raw = engine.decode(&stored).unwrap();
    let last = raw.len() - 1;
    raw[last] ^= 1;
    assert_eq!(
        decrypt_kubeconfig(Some(DIR), &engine.encode(&raw)),
        Err("Decryption failed: aead::Error".to_string())
    );
    assert_eq!(
        load_encrypted_kubeconfig(Some(DIR), Some("AAAA")),
        Err("Invalid encrypted data".to_string())
    );
}

#[test]
fn plaintext_that_is_no_text() {
    let key = get_encryption_key(Some(DIR)).unwrap();
    let cipher = aes_gcm::Aes256Gcm::new(aes_gcm::Key::<aes_gcm::Aes256Gcm>::from_slice(&key));
    let nonce = [7u8; 12];
    let sealed = cipher.encrypt(aes_gcm::Nonce::from_slice(&nonce), &[0xff, 0xfe][..]).unwrap();
    let mut raw = nonce.to_vec();
    raw.extend_from_slice(&sealed);
    let stored = base64::engine::general_purpose::STANDARD.encode(&raw);
    let message = decrypt_kubeconfig(Some(DIR), &stored).unwrap_err();
    assert_eq!(
        message,
        format!("UTF-8 decode failed: {}", String::from_utf8(vec![0xff, 0xfe]).unwrap_err())
    );
}
