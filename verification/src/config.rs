//! Service settings: plain values read from the environment, and the API key,
//! which arrives AES-128-CBC encrypted and Base64 encoded.

use aes::Aes128;
use block_modes::block_padding::Pkcs7;
use block_modes::{BlockMode, Cbc};
use vstd::prelude::*;
use vstd::utf8::{decode_utf8, valid_utf8};

use crate::text::text_or_empty;

verus! {

/// The settings the service runs with.
#[derive(Debug)]
pub struct Config {
    pub id_company: String,
    pub api_key: String,
    pub iclock_config_path: String,
    pub domain_time: String,
    pub ip_server: String,
    pub usser_biotime: String,
    pub password_biotime: String,
}

/// The environment variables the settings come from, `None` where a variable
/// is unset or not Unicode.
pub struct EnvVars {
    pub id_company: Option<String>,
    pub iclock_config_path: Option<String>,
    pub domain_time: Option<String>,
    pub ip_server: Option<String>,
    pub usser_biotime: Option<String>,
    pub password_biotime: Option<String>,
    pub aes_key: Option<String>,
    pub aes_iv: Option<String>,
    pub api_key_enc: Option<String>,
}

/// Why the encrypted API key could not be recovered.
#[derive(Debug, Clone, Copy, PartialEq, Eq, Structural)]
pub enum ConfigError {
    /// `AES_KEY` is not valid Base64.
    KeyEncoding,
    /// `AES_IV` is not valid Base64.
    IvEncoding,
    /// `API_KEY_ENC` is not valid Base64.
    CiphertextEncoding,
    /// The key or the IV is not 16 bytes long.
    CipherSetup,
    /// The ciphertext is not whole blocks, or its padding is wrong.
    Decryption,
    /// The plaintext is not UTF-8.
    NotUtf8,
}

/// The message the service stops with for each error.
pub open spec fn error_message(e: ConfigError) -> Seq<char> {
    match e {
        ConfigError::KeyEncoding => "Clave mal codificada"@,
        ConfigError::IvEncoding => "IV mal codificado"@,
        ConfigError::CiphertextEncoding => "Texto cifrado mal codificado"@,
        ConfigError::CipherSetup => "Error creando el descifrador"@,
        ConfigError::Decryption => "Error al descifrar"@,
        ConfigError::NotUtf8 => "API Key descifrada no es UTF-8"@,
    }
}

impl ConfigError {
    /// The message the service stops with.
    pub fn message(&self) -> (r: &'static str)
        ensures
            r@ == error_message(*self),
    {
        match self {
            ConfigError::KeyEncoding => "Clave mal codificada",
            ConfigError::IvEncoding => "IV mal codificado",
            ConfigError::CiphertextEncoding => "Texto cifrado mal codificado",
            ConfigError::CipherSetup => "Error creando el descifrador",
            ConfigError::Decryption => "Error al descifrar",
            ConfigError::NotUtf8 => "API Key descifrada no es UTF-8",
        }
    }
}

/// The bytes that standard Base64 (with padding) decodes `text` to; `None`
/// when it is not valid Base64.
pub uninterp spec fn base64_decoded(text: Seq<char>) -> Option<Seq<u8>>;

/// The AES-128-CBC decryption of `ciphertext` under `key` and `iv` with its
/// PKCS#7 padding removed; `None` when the padding is wrong.
pub uninterp spec fn aes128_cbc_pkcs7_plaintext(key: Seq<u8>, iv: Seq<u8>, ciphertext: Seq<u8>) -> Option<Seq<u8>>;

/// `base64::decode` (the standard alphabet, padded), its error dropped. The
/// decoded bytes are named, not stated.
#[verifier::external_body]
fn decode_base64(text: &str) -> (r: Option<Vec<u8>>)
    ensures
        r matches Some(v) ==> base64_decoded(text@) == Some(v@),
        r is None ==> base64_decoded(text@) is None,
{
    base64::decode(text).ok()
}

/// How the AES-128-CBC decryption failed.
#[derive(Debug, Clone, Copy, PartialEq, Eq, Structural)]
pub enum CipherFailure {
    /// `new_from_slices` refused the key or the IV.
    KeyIvLength,
    /// `decrypt_vec` refused the ciphertext.
    Padding,
}

/// `Cbc::<Aes128, Pkcs7>::new_from_slices(key, iv)` followed by
/// `decrypt_vec(ciphertext)`. Their source shows that the first fails exactly
/// when the key or the IV is not 16 bytes long, and that the second fails
/// when the ciphertext is not a whole number of 16-byte blocks; the plaintext
/// itself, and any other padding failure, is named, not stated.
#[verifier::external_body]
fn decrypt_aes128_cbc(key: &[u8], iv: &[u8], ciphertext: &[u8]) -> (r: Result<Vec<u8>, CipherFailure>)
    ensures
        r matches Err(CipherFailure::KeyIvLength) <==> (key@.len() != 16 || iv@.len() != 16),
        key@.len() == 16 && iv@.len() == 16 ==> match aes128_cbc_pkcs7_plaintext(key@, iv@, ciphertext@) {
            Some(p) => r matches Ok(v) && v@ == p,
            None => r matches Err(CipherFailure::Padding),
        },
        key@.len() == 16 && iv@.len() == 16 && ciphertext@.len() % 16 != 0 ==> r matches Err(
            CipherFailure::Padding,
        ),
{
    match Cbc::<Aes128, Pkcs7>::new_from_slices(key, iv) {
        Ok(cipher) => match cipher.decrypt_vec(ciphertext) {
            Ok(plain) => Ok(plain),
            Err(_) => Err(CipherFailure::Padding),
        },
        Err(_) => Err(CipherFailure::KeyIvLength),
    }
}

/// `String::from_utf8`, its error dropped: std documents that it fails
/// exactly when the bytes are not valid UTF-8.
#[verifier::external_body]
fn utf8_string(bytes: Vec<u8>) -> (r: Option<String>)
    ensures
        r is Some <==> valid_utf8(bytes@),
        r matches Some(s) ==> s@ == decode_utf8(bytes@),
{
    String::from_utf8(bytes).ok()
}

/// The API key recovered from its three variables: the empty text unless all
/// three are set; otherwise each is Base64-decoded in turn (key, IV,
/// ciphertext), the ciphertext is decrypted with AES-128-CBC and PKCS#7, and
/// the plaintext must be UTF-8.
pub open spec fn api_key_outcome(key: Option<String>, iv: Option<String>, enc: Option<String>) -> Result<Seq<char>, ConfigError> {
    match (key, iv, enc) {
        (Some(k), Some(i), Some(e)) => match base64_decoded(k@) {
            None => Err(ConfigError::KeyEncoding),
            Some(kb) => match base64_decoded(i@) {
                None => Err(ConfigError::IvEncoding),
                Some(ib) => match base64_decoded(e@) {
                    None => Err(ConfigError::CiphertextEncoding),
                    Some(cb) => if kb.len() != 16 || ib.len() != 16 {
                        Err(ConfigError::CipherSetup)
                    } else {
                        match aes128_cbc_pkcs7_plaintext(kb, ib, cb) {
                            None => Err(ConfigError::Decryption),
                            Some(p) => if valid_utf8(p) {
                                Ok(decode_utf8(p))
                            } else {
                                Err(ConfigError::NotUtf8)
                            },
                        }
                    },
                },
            },
        },
        _ => Ok(Seq::empty()),
    }
}

/// The API key is the empty text, and nothing is decoded, unless all three of
/// its variables are set.
pub proof fn lemma_api_key_needs_all_three(key: Option<String>, iv: Option<String>, enc: Option<String>)
    requires
        key is None || iv is None || enc is None,
    ensures
        api_key_outcome(key, iv, enc) == Ok::<Seq<char>, ConfigError>(Seq::empty()),
{
}

/// Recovers the API key from `AES_KEY`, `AES_IV` and `API_KEY_ENC`.
pub fn decrypt_api_key(key: Option<String>, iv: Option<String>, enc: Option<String>) -> (r: Result<String, ConfigError>)
    ensures
        match (r, api_key_outcome(key, iv, enc)) {
            (Ok(s), Ok(t)) => s@ == t,
            (Err(e), Err(f)) => e == f,
            _ => false,
        },
{
    match (key, iv, enc) {
        (Some(k), Some(i), Some(e)) => {
            let kb = match decode_base64(k.as_str()) {
                Some(b) => b,
                None => return Err(ConfigError::KeyEncoding),
            };
            let ib = match decode_base64(i.as_str()) {
                Some(b) => b,
                None => return Err(ConfigError::IvEncoding),
            };
            let cb = match decode_base64(e.as_str()) {
                Some(b) => b,
                None => return Err(ConfigError::CiphertextEncoding),
            };
            let plain = match decrypt_aes128_cbc(kb.as_slice(), ib.as_slice(), cb.as_slice()) {
                Ok(p) => p,
                Err(CipherFailure::KeyIvLength) => return Err(ConfigError::CipherSetup),
                Err(CipherFailure::Padding) => return Err(ConfigError::Decryption),
            };
            match utf8_string(plain) {
                Some(s) => Ok(s),
                None => Err(ConfigError::NotUtf8),
            }
        },
        _ => {
            let r = String::new();
            assert(r@ =~= Seq::<char>::empty());
            Ok(r)
        },
    }
}

fn text_or_default(o: Option<String>) -> (r: String)
    ensures
        r@ == text_or_empty(o),
{
    match o {
        Some(s) => s,
        None => String::new(),
    }
}

impl Config {
    /// The settings from the environment's variables: each plain setting is
    /// its variable or the empty text; the API key as `decrypt_api_key` gives
    /// it, whose error is the only way this fails.
    pub fn from_vars(vars: EnvVars) -> (r: Result<Config, ConfigError>)
        ensures
            match (r, api_key_outcome(vars.aes_key, vars.aes_iv, vars.api_key_enc)) {
                (Ok(c), Ok(k)) => {
                    &&& c.api_key@ == k
                    &&& c.id_company@ == text_or_empty(vars.id_company)
                    &&& c.iclock_config_path@ == text_or_empty(vars.iclock_config_path)
                    &&& c.domain_time@ == text_or_empty(vars.domain_time)
                    &&& c.ip_server@ == text_or_empty(vars.ip_server)
                    &&& c.usser_biotime@ == text_or_empty(vars.usser_biotime)
                    &&& c.password_biotime@ == text_or_empty(vars.password_biotime)
                },
                (Err(e), Err(f)) => e == f,
                _ => false,
            },
    {
        let EnvVars {
            id_company,
            iclock_config_path,
            domain_time,
            ip_server,
            usser_biotime,
            password_biotime,
            aes_key,
            aes_iv,
            api_key_enc,
        } = vars;
        let id_company = text_or_default(id_company);
        let iclock_config_path = text_or_default(iclock_config_path);
        let domain_time = text_or_default(domain_time);
        let ip_server = text_or_default(ip_server);
        let usser_biotime = text_or_default(usser_biotime);
        let password_biotime = text_or_default(password_biotime);
        let api_key = match decrypt_api_key(aes_key, aes_iv, api_key_enc) {
            Ok(k) => k,
            Err(e) => return Err(e),
        };
        Ok(Config {
            id_company,
            api_key,
            iclock_config_path,
            domain_time,
            ip_server,
            usser_biotime,
            password_biotime,
        })
    }
}

} // verus!
