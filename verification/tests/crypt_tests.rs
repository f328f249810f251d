use rsa::pkcs1::{EncodeRsaPrivateKey, EncodeRsaPublicKey};
use rust_rest_api::error::ErrorApp;
use rust_rest_api::rsa_crypt::{decrypt, encrypt};
use rust_rest_api::setting::Database;

fn key_pair() -> (Vec<u8>, Vec<u8>) {
    let key = rsa::RsaPrivateKey::new(&mut rand::thread_rng(), 512).unwrap();
    let private_der = key.to_pkcs1_der().unwrap().as_bytes().to_vec();
    let public_der = rsa::RsaPublicKey::from(&key).to_pkcs1_der().unwrap().as_bytes().to_vec();
    (private_der, public_der)
}

#[test]
fn encrypt_then_decrypt_gives_the_text_back() {
    let (private_der, public_der) = key_pair();
    let secret = encrypt("pässword-1", Ok(public_der)).unwrap();
    assert_ne!(secret, "pässword-1");
    assert!(!secret.contains('='));
    assert_eq!(decrypt(&secret, Ok(private_der)).unwrap(), "pässword-1");
}

#[test]
fn decrypt_refuses_bad_base64_before_reading_the_key() {
    match decrypt("not base64!", Err("unreadable key".to_string())) {
        Err(ErrorApp::OtherErr(m)) => assert_ne!(m, "unreadable key"),
        _ => panic!("expected a decoding error"),
    }
    assert!(matches!(decrypt("AAAA==", Ok(Vec::new())), Err(ErrorApp::OtherErr(_))));
}

#[test]
fn decrypt_reports_the_unreadable_key() {
    match decrypt("AAAA", Err("unreadable key".to_string())) {
        Err(ErrorApp::OtherErr(m)) => assert_eq!(m, "unreadable key"),
        _ => panic!("expected the key error"),
    }
}

#[test]
fn decrypt_with_wrong_key_fails() {
    let (_, public_der) = key_pair();
    let (other_private, _) = key_pair();
    let secret = encrypt("x", Ok(public_der)).unwrap();
    assert!(matches!(decrypt(&secret, Ok(other_private)), Err(ErrorApp::OtherErr(_))));
}

#[test]
fn encrypt_reports_unreadable_or_bad_key() {
    match encrypt("x", Err("gone".to_string())) {
        Err(ErrorApp::OtherErr(m)) => assert_eq!(m, "gone"),
        _ => panic!("expected the key error"),
    }
    assert!(matches!(encrypt("x", Ok(vec![1, 2, 3])), Err(ErrorApp::OtherErr(_))));
}

#[test]
fn encrypted_database_password_is_decrypted() {
    let (private_der, public_der) = key_pair();
    let secret = encrypt("db-pass", Ok(public_der)).unwrap();
    let mut db = Database {
        driver: "postgres".to_string(),
        host: "h".to_string(),
        port: 1,
        name: "n".to_string(),
        schema: "s".to_string(),
        username: "u".to_string(),
        password: secret,
        sslmode: "disable".to_string(),
        min_conn: 1,
        max_conn: 2,
        idle_timeout: 3,
        acquire_timeout: 4,
        encrypt: true,
    };
    db.resolve_password(Ok(private_der)).unwrap();
    assert_eq!(db.password, "db-pass");
    assert_eq!(db.connection_url(), "postgres://u:db-pass@h:1/n?search_path=s&sslmode=disable");
}

#[test]
fn ciphertext_is_as_long_as_the_modulus_in_base64() {
    let (private_der, public_der) = key_pair();
    let fits = "a".repeat(53);
    let secret = encrypt(&fits, Ok(public_der.clone())).unwrap();
    assert_eq!(secret.len(), 86);
    assert!(secret.chars().all(|c| c.is_ascii_alphanumeric() || c == '+' || c == '/'));
    assert_eq!(decrypt(&secret, Ok(private_der)).unwrap(), fits);
    let too_long = "a".repeat(54);
    assert!(matches!(encrypt(&too_long, Ok(public_der)), Err(ErrorApp::OtherErr(_))));
}
