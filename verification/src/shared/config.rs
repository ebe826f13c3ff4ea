//! The server's configuration, and the keys derived from its secrets.
use vstd::prelude::*;
use vstd::string::StringSliceAdditionalSpecFns;
use sha2::{Digest, Sha256};
use crate::shared::hex::{encode_hex, hex_text};

verus! {

/// The server's settings. The encryption key and the kickoff token's hash are
/// derived from the secrets that the environment gives.
#[derive(Debug)]
pub struct Config {
    pub database_url: String,
    pub server_port: u16,
    /// The origin that CORS allows, as a header value's text.
    pub cors_origin: String,
    pub github_client_id: String,
    pub github_client_secret: String,
    pub github_redirect_uri: String,
    pub token_encryption_key: [u8; 32],
    pub kickoff_token_hash: String,
}

/// The SHA-256 digest of a byte string.
pub uninterp spec fn sha256(bytes: Seq<u8>) -> Seq<u8>;

/// Calls `sha2::Sha256::digest`; the contract names the digest `sha256(bytes)`.
#[verifier::external_body]
fn sha256_digest(bytes: &[u8]) -> (r: [u8; 32])
    ensures
        r@ == sha256(bytes@),
{
    Sha256::digest(bytes).into()
}

/// The AES key derived from the configured secret: the SHA-256 of its UTF-8 bytes.
pub fn derive_key(secret: &str) -> (r: [u8; 32])
    ensures
        r@ == sha256(secret.spec_bytes()),
{
    sha256_digest(secret.as_bytes())
}

/// The lowercase hexadecimal SHA-256 of a text (how the kickoff token is published).
pub fn hash_hex(value: &str) -> (r: String)
    ensures
        r@ == hex_text(sha256(value.spec_bytes())),
{
    let digest = sha256_digest(value.as_bytes());
    encode_hex(vstd::array::array_as_slice(&digest))
}

impl Config {
    /// The configuration from its settings and secrets: the encryption key is derived
    /// from `token_encryption_secret`, and the kickoff token is kept as its hash.
    pub fn from_settings(
        database_url: String,
        server_port: u16,
        cors_origin: String,
        github_client_id: String,
        github_client_secret: String,
        github_redirect_uri: String,
        token_encryption_secret: &str,
        kickoff_token: &str,
    ) -> (r: Config)
        ensures
            r.database_url == database_url,
            r.server_port == server_port,
            r.cors_origin == cors_origin,
            r.github_client_id == github_client_id,
            r.github_client_secret == github_client_secret,
            r.github_redirect_uri == github_redirect_uri,
            r.token_encryption_key@ == sha256(token_encryption_secret.spec_bytes()),
            r.kickoff_token_hash@ == hex_text(sha256(kickoff_token.spec_bytes())),
    {
        Config {
            database_url,
            server_port,
            cors_origin,
            github_client_id,
            github_client_secret,
            github_redirect_uri,
            token_encryption_key: derive_key(token_encryption_secret),
            kickoff_token_hash: hash_hex(kickoff_token),
        }
    }
}

} // verus!
