//! Encryption of the kubeconfig at rest.
//!
//! The key is the SHA-256 digest of the shell's data directory and a fixed
//! label, the cipher is AES-256-GCM with a random nonce, and the stored form
//! is the Base64 text of the nonce followed by the ciphertext. The digest, the
//! cipher and the encoding are those of `sha2`, `aes-gcm` and `base64`; what
//! is verified here is the framing around them and which error answers what.

use vstd::prelude::*;
use vstd::slice::slice_subrange;
use vstd::string::*;
use vstd::utf8::{decode_utf8, encode_utf8, encode_utf8_decode_utf8, valid_utf8};
use aes_gcm::aead::{Aead, AeadCore, KeyInit, OsRng};
use base64::Engine;
use sha2::Digest;
use crate::commands::KubeconfigSecuritySettings;
use crate::text::{concat2, opt};

verus! {

/// `aes_gcm::Error`, the one error of the cipher, which says nothing about
/// its cause and displays as `aead::Error`.
#[verifier::external_type_specification]
#[verifier::external_body]
pub struct ExAeadError(aes_gcm::Error);

/// The length of an AES-256 key, in bytes.
pub const KEY_LEN: usize = 32;

/// The length of an AES-GCM nonce, in bytes.
pub const NONCE_LEN: usize = 12;

/// The SHA-256 digest of `data`, as `sha2` computes it.
pub uninterp spec fn sha256_digest(data: Seq<u8>) -> Seq<u8>;

/// The ciphertext and tag that AES-256-GCM of `aes-gcm` gives for a key, a
/// nonce and a plaintext without associated data, if it gives one.
pub uninterp spec fn aes_gcm_sealed(key: Seq<u8>, nonce: Seq<u8>, plaintext: Seq<u8>) -> Option<
    Seq<u8>,
>;

/// The plaintext that AES-256-GCM of `aes-gcm` gives back for a key, a nonce
/// and a ciphertext with tag, if the tag is authentic.
pub uninterp spec fn aes_gcm_opened(key: Seq<u8>, nonce: Seq<u8>, ciphertext: Seq<u8>) -> Option<
    Seq<u8>,
>;

/// The standard Base64 text of `data`, with padding, as `base64` writes it.
pub uninterp spec fn base64_text(data: Seq<u8>) -> Seq<char>;

/// The bytes that `base64` reads from a standard Base64 text, or the
/// description of what is wrong with the text.
pub uninterp spec fn base64_bytes(text: Seq<char>) -> Result<Seq<u8>, Seq<char>>;

/// The description that `String::from_utf8` gives of bytes that are no UTF-8.
pub uninterp spec fn utf8_error_text(bytes: Seq<u8>) -> Seq<char>;

/// Calls `sha2::Sha256::digest`. The digest is a function of the data alone
/// and has 32 bytes.
#[verifier::external_body]
pub(crate) fn sha256(data: &[u8]) -> (res: Vec<u8>)
    ensures
        res@ == sha256_digest(data@),
        res@.len() == KEY_LEN,
{
    sha2::Sha256::digest(data).to_vec()
}

/// Calls `Aes256Gcm::generate_nonce` with the system's random number
/// generator. Nothing is known of a nonce but its length of 12 bytes.
#[verifier::external_body]
pub(crate) fn generate_nonce() -> (res: Vec<u8>)
    ensures
        res@.len() == NONCE_LEN,
{
    aes_gcm::Aes256Gcm::generate_nonce(&mut OsRng).to_vec()
}

/// Calls `Aes256Gcm::new` with the key and `Aead::encrypt` with the nonce and
/// the plaintext. The cipher is a function of its three arguments; it fails
/// only on a plaintext that is too long for it.
#[verifier::external_body]
pub(crate) fn aes_gcm_encrypt(key: &[u8], nonce: &[u8], plaintext: &[u8]) -> (res: Result<
    Vec<u8>,
    aes_gcm::Error,
>)
    requires
        key@.len() == KEY_LEN,
        nonce@.len() == NONCE_LEN,
    ensures
        res is Ok <==> aes_gcm_sealed(key@, nonce@, plaintext@) is Some,
        res matches Ok(sealed) ==> aes_gcm_sealed(key@, nonce@, plaintext@) == Some(sealed@),
{
    let cipher = aes_gcm::Aes256Gcm::new(aes_gcm::Key::<aes_gcm::Aes256Gcm>::from_slice(key));
    cipher.encrypt(aes_gcm::Nonce::from_slice(nonce), plaintext)
}

/// Calls `Aes256Gcm::new` with the key and `Aead::decrypt` with the nonce and
/// the ciphertext. It fails where the ciphertext is not authentic under the
/// key and the nonce.
#[verifier::external_body]
pub(crate) fn aes_gcm_decrypt(key: &[u8], nonce: &[u8], ciphertext: &[u8]) -> (res: Result<
    Vec<u8>,
    aes_gcm::Error,
>)
    requires
        key@.len() == KEY_LEN,
        nonce@.len() == NONCE_LEN,
    ensures
        res is Ok <==> aes_gcm_opened(key@, nonce@, ciphertext@) is Some,
        res matches Ok(plain) ==> aes_gcm_opened(key@, nonce@, ciphertext@) == Some(plain@),
{
    let cipher = aes_gcm::Aes256Gcm::new(aes_gcm::Key::<aes_gcm::Aes256Gcm>::from_slice(key));
    cipher.decrypt(aes_gcm::Nonce::from_slice(nonce), ciphertext)
}

/// Calls `encode` of the standard Base64 engine of `base64`.
#[verifier::external_body]
pub(crate) fn base64_encode(data: &[u8]) -> (res: String)
    ensures
        res@ == base64_text(data@),
{
    base64::engine::general_purpose::STANDARD.encode(data)
}

/// Calls `decode` of the standard Base64 engine of `base64`. An error comes
/// back as the text that it displays.
#[verifier::external_body]
pub(crate) fn base64_decode(text: &str) -> (res: Result<Vec<u8>, String>)
    ensures
        match res {
            Ok(data) => base64_bytes(text@) == Ok::<Seq<u8>, Seq<char>>(data@),
            Err(message) => base64_bytes(text@) == Err::<Seq<u8>, Seq<char>>(message@),
        },
{
    match base64::engine::general_purpose::STANDARD.decode(text) {
        Ok(data) => Ok(data),
        Err(error) => Err(format!("{}", error)),
    }
}

/// Calls `String::from_utf8`. It succeeds exactly on bytes that are UTF-8,
/// and then the string consists of these bytes. An error comes back as the
/// text that it displays.
#[verifier::external_body]
pub(crate) fn string_from_utf8(bytes: Vec<u8>) -> (res: Result<String, String>)
    ensures
        res is Ok <==> valid_utf8(bytes@),
        res matches Ok(text) ==> encode_utf8(text@) == bytes@,
        res matches Err(message) ==> message@ == utf8_error_text(bytes@),
{
    match String::from_utf8(bytes) {
        Ok(text) => Ok(text),
        Err(error) => Err(format!("{}", error)),
    }
}

/// The label that is hashed together with the data directory.
pub open spec fn key_label() -> Seq<char> {
    "kubilitics-kubeconfig-key"@
}

/// The key that belongs to a data directory.
pub open spec fn spec_encryption_key(app_data_dir: Seq<char>) -> Seq<u8> {
    sha256_digest(encode_utf8(app_data_dir + key_label()))
}

/// Derives the key from the shell's data directory, which ties it to this
/// device. `app_data_dir` is `None` where the system names no data directory.
pub fn get_encryption_key(app_data_dir: Option<&str>) -> (res: Result<Vec<u8>, String>)
    ensures
        match res {
            Ok(key) => app_data_dir matches Some(dir) && key@ == spec_encryption_key(dir@)
                && key@.len() == KEY_LEN,
            Err(message) => app_data_dir is None && message@ == "Could not find data directory"@,
        },
{
    match app_data_dir {
        Some(dir) => {
            let material = concat2(dir, "kubilitics-kubeconfig-key");
            Ok(sha256(material.as_str().as_bytes()))
        },
        None => Err(String::from_str("Could not find data directory")),
    }
}

/// The stored form of a kubeconfig that is encrypted under a key with a
/// nonce: the Base64 text of the nonce followed by ciphertext and tag.
pub open spec fn spec_seal(key: Seq<u8>, nonce: Seq<u8>, content: Seq<char>) -> Result<
    Seq<char>,
    Seq<char>,
> {
    match aes_gcm_sealed(key, nonce, encode_utf8(content)) {
        Some(sealed) => Ok(base64_text(nonce + sealed)),
        None => Err("Encryption failed: aead::Error"@),
    }
}

/// Encrypts a kubeconfig under `key` with the nonce `nonce` and frames it
/// for storage.
pub fn seal(key: &[u8], nonce: Vec<u8>, content: &str) -> (res: Result<String, String>)
    requires
        key@.len() == KEY_LEN,
        nonce@.len() == NONCE_LEN,
    ensures
        match res {
            Ok(text) => spec_seal(key@, nonce@, content@) == Ok::<Seq<char>, Seq<char>>(text@),
            Err(message) => spec_seal(key@, nonce@, content@) == Err::<Seq<char>, Seq<char>>(
                message@,
            ),
        },
{
    match aes_gcm_encrypt(key, nonce.as_slice(), content.as_bytes()) {
        Ok(sealed) => {
            let mut combined = nonce;
            let mut sealed = sealed;
            combined.append(&mut sealed);
            Ok(base64_encode(combined.as_slice()))
        },
        Err(_) => Err(String::from_str("Encryption failed: aead::Error")),
    }
}

/// Encrypts a kubeconfig for storage, under the key of the data directory
/// and a fresh random nonce. Whatever the nonce, the result is the stored
/// form for that nonce.
pub fn encrypt_kubeconfig(app_data_dir: Option<&str>, content: &str) -> (res: Result<
    String,
    String,
>)
    ensures
        match app_data_dir {
            None => res matches Err(message) && message@ == "Could not find data directory"@,
            Some(dir) => exists|nonce: Seq<u8>|
                nonce.len() == NONCE_LEN && #[trigger] spec_seal(
                    spec_encryption_key(dir@),
                    nonce,
                    content@,
                ) == match res {
                    Ok(text) => Ok::<Seq<char>, Seq<char>>(text@),
                    Err(message) => Err::<Seq<char>, Seq<char>>(message@),
                },
        },
{
    let key = match get_encryption_key(app_data_dir) {
        Ok(key) => key,
        Err(message) => {
            return Err(message);
        },
    };
    let nonce = generate_nonce();
    let ghost used = nonce@;
    let res = seal(key.as_slice(), nonce, content);
    proof {
        let dir = app_data_dir->0;
        assert(spec_seal(spec_encryption_key(dir@), used, content@) == match res {
            Ok(text) => Ok::<Seq<char>, Seq<char>>(text@),
            Err(message) => Err::<Seq<char>, Seq<char>>(message@),
        });
    }
    res
}

/// The kubeconfig that a stored form holds under a key, or why it cannot be
/// read: the text is no Base64, it is too short to hold a nonce, it is not
/// authentic under the key, or the plaintext is no UTF-8.
pub open spec fn spec_open(key: Seq<u8>, stored: Seq<char>) -> Result<Seq<char>, Seq<char>> {
    match base64_bytes(stored) {
        Err(message) => Err("Base64 decode failed: "@ + message),
        Ok(combined) => if combined.len() < NONCE_LEN {
            Err("Invalid encrypted data"@)
        } else {
            match aes_gcm_opened(
                key,
                combined.subrange(0, NONCE_LEN as int),
                combined.subrange(NONCE_LEN as int, combined.len() as int),
            ) {
                None => Err("Decryption failed: aead::Error"@),
                Some(plain) => if valid_utf8(plain) {
                    Ok(decode_utf8(plain))
                } else {
                    Err("UTF-8 decode failed: "@ + utf8_error_text(plain))
                },
            }
        },
    }
}

/// Reads a kubeconfig back from its stored form under `key`.
pub fn open(key: &[u8], stored: &str) -> (res: Result<String, String>)
    requires
        key@.len() == KEY_LEN,
    ensures
        match res {
            Ok(text) => spec_open(key@, stored@) == Ok::<Seq<char>, Seq<char>>(text@),
            Err(message) => spec_open(key@, stored@) == Err::<Seq<char>, Seq<char>>(message@),
        },
{
    let combined = match base64_decode(stored) {
        Ok(combined) => combined,
        Err(message) => {
            return Err(concat2("Base64 decode failed: ", message.as_str()));
        },
    };
    if combined.len() < NONCE_LEN {
        return Err(String::from_str("Invalid encrypted data"));
    }
    let nonce = slice_subrange(combined.as_slice(), 0, NONCE_LEN);
    let ciphertext = slice_subrange(combined.as_slice(), NONCE_LEN, combined.len());
    let plain = match aes_gcm_decrypt(key, nonce, ciphertext) {
        Ok(plain) => plain,
        Err(_) => {
            return Err(String::from_str("Decryption failed: aead::Error"));
        },
    };
    let ghost bytes = plain@;
    match string_from_utf8(plain) {
        Ok(text) => {
            proof {
                encode_utf8_decode_utf8(text@);
            }
            Ok(text)
        },
        Err(message) => Err(concat2("UTF-8 decode failed: ", message.as_str())),
    }
}

/// The kubeconfig that a stored form holds under the key of a data directory.
pub open spec fn spec_decrypt_kubeconfig(app_data_dir: Option<Seq<char>>, stored: Seq<char>) -> Result<
    Seq<char>,
    Seq<char>,
> {
    match app_data_dir {
        None => Err("Could not find data directory"@),
        Some(dir) => spec_open(spec_encryption_key(dir), stored),
    }
}

/// Decrypts a stored kubeconfig under the key of the data directory.
pub fn decrypt_kubeconfig(app_data_dir: Option<&str>, stored: &str) -> (res: Result<String, String>)
    ensures
        match res {
            Ok(text) => spec_decrypt_kubeconfig(opt(app_data_dir), stored@) == Ok::<
                Seq<char>,
                Seq<char>,
            >(text@),
            Err(message) => spec_decrypt_kubeconfig(opt(app_data_dir), stored@) == Err::<
                Seq<char>,
                Seq<char>,
            >(message@),
        },
{
    match get_encryption_key(app_data_dir) {
        Ok(key) => open(key.as_slice(), stored),
        Err(message) => Err(message),
    }
}

/// Encrypts a kubeconfig and stores it in the settings. Where the
/// encryption fails the settings stay as they are.
pub fn save_encrypted_kubeconfig(
    settings: &mut KubeconfigSecuritySettings,
    app_data_dir: Option<&str>,
    content: &str,
) -> (res: Result<(), String>)
    ensures
        match res {
            Ok(()) => app_data_dir matches Some(dir) && final(settings).encrypted_kubeconfig
                matches Some(stored) && *final(settings) == (KubeconfigSecuritySettings {
                encrypted_kubeconfig: Some(stored),
                ..*old(settings)
            }) && exists|nonce: Seq<u8>|
                nonce.len() == NONCE_LEN && #[trigger] spec_seal(
                    spec_encryption_key(dir@),
                    nonce,
                    content@,
                ) == Ok::<Seq<char>, Seq<char>>(stored@),
            Err(message) => *final(settings) == *old(settings) && match app_data_dir {
                None => message@ == "Could not find data directory"@,
                Some(dir) => exists|nonce: Seq<u8>|
                    nonce.len() == NONCE_LEN && #[trigger] spec_seal(
                        spec_encryption_key(dir@),
                        nonce,
                        content@,
                    ) == Err::<Seq<char>, Seq<char>>(message@),
            },
        },
{
    match encrypt_kubeconfig(app_data_dir, content) {
        Ok(stored) => {
            settings.encrypted_kubeconfig = Some(stored);
            Ok(())
        },
        Err(message) => Err(message),
    }
}

/// Decrypts the kubeconfig that the settings hold, if they hold one.
pub fn load_encrypted_kubeconfig(app_data_dir: Option<&str>, stored: Option<&str>) -> (res: Result<
    Option<String>,
    String,
>)
    ensures
        match stored {
            None => res matches Ok(None),
            Some(text) => match res {
                Ok(content) => content matches Some(plain) && spec_decrypt_kubeconfig(
                    opt(app_data_dir),
                    text@,
                ) == Ok::<Seq<char>, Seq<char>>(plain@),
                Err(message) => spec_decrypt_kubeconfig(opt(app_data_dir), text@) == Err::<
                    Seq<char>,
                    Seq<char>,
                >(message@),
            },
        },
{
    match stored {
        Some(text) => match decrypt_kubeconfig(app_data_dir, text) {
            Ok(plain) => Ok(Some(plain)),
            Err(message) => Err(message),
        },
        None => Ok(None),
    }
}

} // verus!
