use aes::Aes128;
use block_modes::block_padding::Pkcs7;
use block_modes::{BlockMode, Cbc};
use iclock_sync::config::{decrypt_api_key, Config, ConfigError, EnvVars};

const KEY: [u8; 16] = *b"0123456789abcdef";
const IV: [u8; 16] = *b"fedcba9876543210";

fn encrypt(plain: &[u8]) -> String {
    let cipher = Cbc::<Aes128, Pkcs7>::new_from_slices(&KEY, &IV).unwrap();
    base64::encode(cipher.encrypt_vec(plain))
}

fn vars(key: Option<&str>, iv: Option<&str>, enc: Option<&str>) -> EnvVars {
    EnvVars {
        id_company: Some("C1".to_string()),
        iclock_config_path: None,
        domain_time: Some("https://time.example".to_string()),
        ip_server: Some("10.0.0.5".to_string()),
        usser_biotime: Some("admin".to_string()),
        password_biotime: Some("secret".to_string()),
        aes_key: key.map(|s| s.to_string()),
        aes_iv: iv.map(|s| s.to_string()),
        api_key_enc: enc.map(|s| s.to_string()),
    }
}

#[test]
fn api_key_is_decrypted() {
    let enc = encrypt(b"my-api-key-123");
    let key = decrypt_api_key(Some(base64::encode(KEY)), Some(base64::encode(IV)), Some(enc));
    assert_eq!(key, Ok("my-api-key-123".to_string()));
}

#[test]
fn api_key_empty_without_all_three_variables() {
    let enc = encrypt(b"k");
    assert_eq!(decrypt_api_key(None, Some(base64::encode(IV)), Some(enc.clone())), Ok(String::new()));
    assert_eq!(decrypt_api_key(Some(base64::encode(KEY)), None, Some(enc)), Ok(String::new()));
    assert_eq!(decrypt_api_key(Some(base64::encode(KEY)), Some(base64::encode(IV)), None), Ok(String::new()));
}

#[test]
fn api_key_errors_name_the_failing_step() {
    let k = base64::encode(KEY);
    let iv = base64::encode(IV);
    let enc = encrypt(b"abc");
    assert_eq!(decrypt_api_key(Some("**".into()), Some(iv.clone()), Some(enc.clone())), Err(ConfigError::KeyEncoding));
    assert_eq!(decrypt_api_key(Some(k.clone()), Some("**".into()), Some(enc.clone())), Err(ConfigError::IvEncoding));
    assert_eq!(decrypt_api_key(Some(k.clone()), Some(iv.clone()), Some("**".into())), Err(ConfigError::CiphertextEncoding));
    assert_eq!(
        decrypt_api_key(Some(base64::encode(&KEY[..8])), Some(iv.clone()), Some(enc.clone())),
        Err(ConfigError::CipherSetup)
    );
    assert_eq!(
        decrypt_api_key(Some(k.clone()), Some(base64::encode(&IV[..15])), Some(enc)),
        Err(ConfigError::CipherSetup)
    );
    assert_eq!(
        decrypt_api_key(Some(k.clone()), Some(iv.clone()), Some(base64::encode([1u8; 15]))),
        Err(ConfigError::Decryption)
    );
    assert_eq!(
        decrypt_api_key(Some(k), Some(iv), Some(encrypt(&[0xff, 0xfe]))),
        Err(ConfigError::NotUtf8)
    );
}

#[test]
fn config_defaults_to_empty_texts() {
    let c = Config::from_vars(vars(None, None, None)).unwrap();
    assert_eq!(c.id_company, "C1");
    assert_eq!(c.iclock_config_path, "");
    assert_eq!(c.domain_time, "https://time.example");
    assert_eq!(c.ip_server, "10.0.0.5");
    assert_eq!(c.usser_biotime, "admin");
    assert_eq!(c.password_biotime, "secret");
    assert_eq!(c.api_key, "");
}

#[test]
fn config_carries_decrypted_api_key() {
    let enc = encrypt(b"KEY-42");
    let k = base64::encode(KEY);
    let iv = base64::encode(IV);
    let c = Config::from_vars(vars(Some(&k), Some(&iv), Some(&enc))).unwrap();
    assert_eq!(c.api_key, "KEY-42");
}

#[test]
fn config_fails_with_bad_key() {
    let enc = encrypt(b"KEY-42");
    let iv = base64::encode(IV);
    assert!(matches!(Config::from_vars(vars(Some("%%"), Some(&iv), Some(&enc))), Err(ConfigError::KeyEncoding)));
}

#[test]
fn config_error_messages() {
    assert_eq!(ConfigError::KeyEncoding.message(), "Clave mal codificada");
    assert_eq!(ConfigError::Decryption.message(), "Error al descifrar");
}
