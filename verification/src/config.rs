//! What the server is set up with.

use base64::Engine;
use vstd::prelude::*;
use crate::deletion::{zero_padded, Secret, SECRET_LEN};

verus! {

/// The server's settings. They are read once and never change.
pub struct Config {
    /// The address to listen on.
    pub bind: String,
    /// The directory that holds the stored files.
    pub file_dir: String,
    /// What every link begins with, such as `https://example.org`.
    pub domain: String,
    /// The `Authorization` header that an upload must carry.
    pub authorization: String,
    /// The secret under which deletion keys are made.
    pub secret: Secret,
}

/// The secret is not written as it must be.
#[derive(Debug, Clone, Copy, PartialEq, Eq, Structural)]
pub struct InvalidSecret;

/// What comes of decoding a text as standard base64 into a buffer as long as
/// a secret: the bytes that it stands for, or nothing where it is malformed
/// or may stand for more bytes than the buffer holds.
pub uninterp spec fn standard_decoded(text: Seq<char>) -> Option<Seq<u8>>;

/// Decodes `text` with `base64::Engine::decode_slice` on the engine
/// `base64::engine::general_purpose::STANDARD`, into a buffer as long as a
/// secret. Trusted: that the outcome depends on the text alone, and that what
/// is decoded is no longer than the buffer.
#[verifier::external_body]
fn decode_standard(text: &str) -> (decoded: Option<Vec<u8>>)
    ensures
        decoded.is_some() == standard_decoded(text@).is_some(),
        decoded.is_some() ==> standard_decoded(text@) == Some(decoded.unwrap()@),
        decoded.is_some() ==> decoded.unwrap()@.len() <= SECRET_LEN,
{
    let mut buffer = [0u8; 64];
    match base64::engine::general_purpose::STANDARD.decode_slice(text, &mut buffer) {
        Ok(written) => Some(buffer[..written].to_vec()),
        Err(_) => None,
    }
}

/// The secret that the decoding of its written form comes to: the bytes
/// decoded, filled up with zeros; none where nothing was decoded.
pub fn secret_from(decoded: Option<Vec<u8>>) -> (secret: Result<Secret, InvalidSecret>)
    requires
        decoded matches Some(bytes) ==> bytes@.len() <= SECRET_LEN,
    ensures
        match decoded {
            Some(bytes) => secret.is_ok() && secret.unwrap()@ == zero_padded(bytes@),
            None => secret.is_err(),
        },
{
    match decoded {
        Some(bytes) => Ok(Secret::padded(bytes.as_slice())),
        None => Err(InvalidSecret),
    }
}

/// Reads a secret from its written form, standard base64.
pub fn from_base64(text: &str) -> (secret: Result<Secret, InvalidSecret>)
    ensures
        match standard_decoded(text@) {
            Some(bytes) => secret.is_ok() && secret.unwrap()@ == zero_padded(bytes),
            None => secret.is_err(),
        },
{
    secret_from(decode_standard(text))
}

} // verus!
