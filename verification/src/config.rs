//! The daemon's configuration, its defaults, and the generation of the
//! pre-shared API key on first start. Reading and writing the TOML file is
//! left to the caller.

use crate::text::{encode_hex, hex_encoding, is_lower_hex_digit, lemma_hex_encoding};
use vstd::prelude::*;

verus! {

/// Number of random bytes in a generated pre-shared key.
pub const PSK_BYTES: usize = 32;

#[derive(Debug, Clone)]
pub struct ServerConfig {
    pub port: u16,
}

#[derive(Debug, Clone)]
pub struct TlsConfig {
    pub cert_file: String,
    pub key_file: String,
}

#[derive(Debug, Clone)]
pub struct AuthConfig {
    pub psk: String,
}

#[derive(Debug, Clone)]
pub struct LoggingConfig {
    pub level: String,
    pub log_file: String,
}

#[derive(Debug, Clone)]
pub struct Config {
    pub server: ServerConfig,
    pub tls: TlsConfig,
    pub auth: AuthConfig,
    pub logging: LoggingConfig,
}

impl Default for ServerConfig {
    fn default() -> (c: ServerConfig)
        ensures
            c.port == 8443,
    {
        ServerConfig { port: 8443 }
    }
}

impl Default for TlsConfig {
    fn default() -> (c: TlsConfig)
        ensures
            c.cert_file@ == "/etc/rustylight/tls.crt"@,
            c.key_file@ == "/etc/rustylight/tls.key"@,
    {
        TlsConfig {
            cert_file: String::from_str("/etc/rustylight/tls.crt"),
            key_file: String::from_str("/etc/rustylight/tls.key"),
        }
    }
}

impl Default for AuthConfig {
    fn default() -> (c: AuthConfig)
        ensures
            c.psk@ == Seq::<char>::empty(),
    {
        AuthConfig { psk: String::new() }
    }
}

impl Default for LoggingConfig {
    fn default() -> (c: LoggingConfig)
        ensures
            c.level@ == "info"@,
            c.log_file@ == "/var/log/rustylight/rustylight.log"@,
    {
        LoggingConfig {
            level: String::from_str("info"),
            log_file: String::from_str("/var/log/rustylight/rustylight.log"),
        }
    }
}

impl Default for Config {
    fn default() -> (c: Config)
        ensures
            c.server.port == 8443,
            c.tls.cert_file@ == "/etc/rustylight/tls.crt"@,
            c.tls.key_file@ == "/etc/rustylight/tls.key"@,
            c.auth.psk@ == Seq::<char>::empty(),
            c.logging.level@ == "info"@,
            c.logging.log_file@ == "/var/log/rustylight/rustylight.log"@,
    {
        Config {
            server: ServerConfig::default(),
            tls: TlsConfig::default(),
            auth: AuthConfig::default(),
            logging: LoggingConfig::default(),
        }
    }
}

/// A key as `generate_psk` makes them: the hexadecimal encoding of 32 bytes.
pub open spec fn is_generated_psk(psk: Seq<char>) -> bool {
    exists|bytes: Seq<u8>| bytes.len() == PSK_BYTES && psk == #[trigger] hex_encoding(bytes)
}

/// 32 bytes from the operating system's cryptographically secure generator.
/// The bytes depend on chance: nothing is stated of their values.
#[verifier::external_body]
fn random_key_bytes() -> [u8; PSK_BYTES] {
    rand::random()
}

/// A fresh random pre-shared key: 32 random bytes, hex-encoded.
pub fn generate_psk() -> (psk: String)
    ensures
        is_generated_psk(psk@),
        psk@.len() == 64,
        forall|i: int| 0 <= i < psk@.len() ==> is_lower_hex_digit(#[trigger] psk@[i]),
{
    let bytes = random_key_bytes();
    let psk = encode_hex(bytes.as_slice());
    proof {
        lemma_hex_encoding(bytes@);
        assert(bytes@.len() == PSK_BYTES && psk@ == hex_encoding(bytes@));
    }
    psk
}

/// Gives the configuration a random pre-shared key if it has none. Returns
/// whether it did, in which case the caller must write the configuration
/// back. A configuration that has a key is left as it is.
pub fn ensure_psk(cfg: &mut Config) -> (generated: bool)
    ensures
        generated == (old(cfg).auth.psk@.len() == 0),
        !generated ==> *final(cfg) == *old(cfg),
        generated ==> is_generated_psk(final(cfg).auth.psk@),
        generated ==> final(cfg).server == old(cfg).server && final(cfg).tls == old(cfg).tls
            && final(cfg).logging == old(cfg).logging,
        final(cfg).auth.psk@.len() != 0,
{
    if cfg.auth.psk.as_str().is_empty() {
        cfg.auth.psk = generate_psk();
        true
    } else {
        false
    }
}

/// A generated key has 64 characters. So it is never empty, and by the
/// contract of `ensure_psk` a second call keeps it.
pub proof fn lemma_generated_psk_length(psk: Seq<char>)
    requires
        is_generated_psk(psk),
    ensures
        psk.len() == 64,
{
    let bytes = choose|bytes: Seq<u8>| bytes.len() == PSK_BYTES && psk == #[trigger] hex_encoding(bytes);
    lemma_hex_encoding(bytes);
}

} // verus!
