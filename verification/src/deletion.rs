//! Deletion keys. Whoever holds the key of a stored file may delete it; the
//! key is a keyed digest of the file's name, so no record of it is kept: it
//! is computed again whenever it is needed.

use base64::engine::general_purpose::{GeneralPurpose, GeneralPurposeConfig};
use base64::engine::DecodePaddingMode;
use base64::Engine;
use hmac::{Hmac, Mac};
use sha2::Sha224;
use vstd::prelude::*;
use vstd::string::{StrSliceExecFns, StringSliceAdditionalSpecFns};
use vstd::utf8::{encode_utf8, is_ascii_chars, is_ascii_chars_encode_utf8};
use crate::encoding::{all_symbols, encode, encode_has_len, encode_is_injective, encode_is_symbols};

verus! {

/// Number of bytes in a secret.
pub const SECRET_LEN: usize = 64;

/// Number of bytes in a digest.
pub const DIGEST_LEN: usize = 28;

/// Number of characters in a deletion key.
pub const KEY_LEN: usize = 38;

/// `bytes`, followed by as many zeros as it takes to fill a secret.
pub open spec fn zero_padded(bytes: Seq<u8>) -> Seq<u8> {
    Seq::new(SECRET_LEN as nat, |i: int| if i < bytes.len() { bytes[i] } else { 0u8 })
}

/// The server's secret: the key under which names are digested.
pub struct Secret {
    bytes: [u8; 64],
}

impl View for Secret {
    type V = Seq<u8>;

    closed spec fn view(&self) -> Seq<u8> {
        self.bytes@
    }
}

impl Secret {
    /// A secret made of the given bytes.
    pub fn new(bytes: [u8; 64]) -> (secret: Secret)
        ensures
            secret@ == bytes@,
    {
        Secret { bytes }
    }

    /// The secret that begins with `bytes` and goes on with zeros.
    pub fn padded(bytes: &[u8]) -> (secret: Secret)
        requires
            bytes@.len() <= SECRET_LEN,
        ensures
            secret@ == zero_padded(bytes@),
    {
        let mut padded = [0u8; 64];
        let mut i: usize = 0;
        while i < bytes.len()
            invariant
                i <= bytes@.len() <= SECRET_LEN,
                forall|j: int| 0 <= j < i ==> padded@[j] == bytes@[j],
                forall|j: int| i <= j < SECRET_LEN ==> padded@[j] == 0,
            decreases bytes@.len() - i,
        {
            padded[i] = bytes[i];
            i += 1;
        }
        assert(padded@ =~= zero_padded(bytes@));
        Secret { bytes: padded }
    }

    /// The bytes of the secret.
    pub fn as_bytes(&self) -> (bytes: &[u8; 64])
        ensures
            bytes@ == self@,
    {
        &self.bytes
    }

    /// A secret always has `SECRET_LEN` bytes.
    pub proof fn has_fixed_len(&self)
        ensures
            self@.len() == SECRET_LEN,
    {
    }
}

/// HMAC-SHA-224 of `message` under `key`.
pub uninterp spec fn hmac_sha224(key: Seq<u8>, message: Seq<u8>) -> [u8; 28];

/// The deletion key of the file stored as `name` under `secret`: the digest
/// of the name's UTF-8 bytes, in unpadded URL-safe base64.
pub open spec fn key_for(secret: Seq<u8>, name: Seq<char>) -> Seq<char> {
    encode(hmac_sha224(secret, encode_utf8(name))@)
}

/// Whether `key` authorises whoever holds it to delete the file stored as
/// `name`: it does if and only if it is that file's deletion key.
pub open spec fn key_is_valid(secret: Seq<u8>, name: Seq<char>, key: Seq<char>) -> bool {
    key == key_for(secret, name)
}

/// Whether `name` is reserved for hidden files: those are never deleted on
/// request, whatever key comes with them.
pub open spec fn is_hidden(name: Seq<char>) -> bool {
    name.len() > 0 && name[0] == '.'
}

/// Why a deletion was refused or failed.
#[derive(Debug, Clone, Copy, PartialEq, Eq, Structural)]
pub enum DeletionError {
    /// The key is not the file's deletion key, or the name is reserved.
    InvalidKey,
    /// The key is valid and no file of that name is stored.
    NotFound,
    /// The storage failed to remove the file.
    IoError,
}

/// What the storage answered when asked to remove a file.
#[derive(Debug, Clone, Copy, PartialEq, Eq, Structural)]
pub enum Removal {
    /// The file is gone.
    Removed,
    /// There was no such file.
    Missing,
    /// The storage failed in another way.
    Failed,
}

/// Computes the digest with `hmac::Hmac<sha2::Sha224>`: `new` on the secret,
/// `update` on the message, `finalize`. Trusted: that this is the function
/// `hmac_sha224` of the secret's and the message's bytes.
#[verifier::external_body]
fn digest_of(secret: &Secret, message: &[u8]) -> (digest: [u8; 28])
    ensures
        digest == hmac_sha224(secret@, message@),
{
    let mut mac = Hmac::<Sha224>::new((&secret.bytes).into());
    mac.update(message);
    mac.finalize().into_bytes().into()
}

/// Appends to `out` what `base64::Engine::encode_string` writes for `bytes`,
/// with the URL-safe alphabet and no padding. Trusted: that the text written
/// is `encode(bytes)`.
#[verifier::external_body]
fn encode_onto(bytes: &[u8; 28], out: &mut String)
    ensures
        final(out)@ == old(out)@ + encode(bytes@),
{
    let engine = GeneralPurpose::new(
        &base64::alphabet::URL_SAFE,
        GeneralPurposeConfig::new().with_encode_padding(false).with_decode_padding_mode(
            DecodePaddingMode::Indifferent,
        ),
    );
    engine.encode_string(bytes, out);
}

/// Whether `text` is what stands for `bytes`, with nothing after it but
/// padding.
pub open spec fn stands_for(text: Seq<char>, bytes: Seq<u8>) -> bool {
    &&& encode(bytes).is_prefix_of(text)
    &&& forall|i: int| encode(bytes).len() <= i < text.len() ==> text[i] == '='
}

/// Decodes `key` with `base64::Engine::decode_slice`, with the URL-safe
/// alphabet and padding neither required nor refused, into a buffer of 32
/// bytes, which is enough for 38 characters. Trusted: that a key which does
/// not decode is the text of no bytes, and that one which decodes is the text
/// of what it decoded to, with nothing after it but padding.
#[verifier::external_body]
fn decode_key(key: &str) -> (decoded: Option<Vec<u8>>)
    requires
        key.spec_bytes().len() == KEY_LEN,
    ensures
        decoded.is_none() ==> forall|bytes: Seq<u8>| key@ != #[trigger] encode(bytes),
        decoded.is_some() ==> stands_for(key@, decoded.unwrap()@),
{
    let engine = GeneralPurpose::new(
        &base64::alphabet::URL_SAFE,
        GeneralPurposeConfig::new().with_encode_padding(false).with_decode_padding_mode(
            DecodePaddingMode::Indifferent,
        ),
    );
    let mut buffer = [0u8; 32];
    match engine.decode_slice(key, &mut buffer) {
        Ok(written) => Some(buffer[..written].to_vec()),
        Err(_) => None,
    }
}

/// Whether `found` holds exactly the bytes of `digest`.
fn is_digest(digest: &[u8; 28], found: &Vec<u8>) -> (same: bool)
    ensures
        same == (found@ == digest@),
{
    if found.len() != DIGEST_LEN {
        return false;
    }
    let mut i: usize = 0;
    while i < DIGEST_LEN
        invariant
            i <= DIGEST_LEN,
            found@.len() == DIGEST_LEN,
            forall|j: int| 0 <= j < i ==> found@[j] == digest@[j],
        decreases DIGEST_LEN - i,
    {
        if found[i] != digest[i] {
            return false;
        }
        i += 1;
    }
    assert(found@ =~= digest@);
    true
}

/// Every deletion key has `KEY_LEN` characters, each of them one of the 64
/// symbols of the URL-safe alphabet: none is `+`, `/`, `=` or `.`.
pub proof fn key_shape(secret: Seq<u8>, name: Seq<char>)
    ensures
        key_for(secret, name).len() == KEY_LEN,
        all_symbols(key_for(secret, name)),
        is_ascii_chars(key_for(secret, name)),
        forall|i: int|
            0 <= i < key_for(secret, name).len() ==> {
                let c = #[trigger] key_for(secret, name)[i];
                c != '+' && c != '/' && c != '=' && c != '.'
            },
{
    let digest = hmac_sha224(secret, encode_utf8(name))@;
    encode_has_len(digest);
    encode_is_symbols(digest);
}

/// A text of `KEY_LEN` bytes that stands for a whole digest has no room for
/// padding: it is the digest's text itself.
proof fn only_text_of_digest(text: Seq<char>, bytes: Seq<u8>)
    requires
        stands_for(text, bytes),
        bytes.len() == DIGEST_LEN,
        encode_utf8(text).len() == KEY_LEN,
    ensures
        text == encode(bytes),
{
    encode_has_len(bytes);
    encode_is_symbols(bytes);
    assert forall|i: int| 0 <= i < text.len() implies '\0' <= #[trigger] text[i] <= '\u{7f}' by {
        if i < encode(bytes).len() {
            assert(text[i] == encode(bytes)[i]);
        }
    }
    is_ascii_chars_encode_utf8(text);
    assert(text =~= encode(bytes));
}

/// The deletion key of the file stored as `link`.
pub fn make_key(secret: &Secret, link: &str) -> (key: String)
    ensures
        key@ == key_for(secret@, link@),
        key@.len() == KEY_LEN,
        all_symbols(key@),
{
    let digest = digest_of(secret, link.as_bytes());
    let mut key = String::new();
    encode_onto(&digest, &mut key);
    proof {
        key_shape(secret@, link@);
        assert(key@ =~= key_for(secret@, link@));
    }
    key
}

/// Whether `key` is the deletion key of the file stored as `link`. A key
/// that is not `KEY_LEN` bytes long is refused before anything is computed.
pub fn check_key(secret: &Secret, link: &str, key: &str) -> (valid: bool)
    ensures
        valid == key_is_valid(secret@, link@, key@),
{
    proof {
        key_shape(secret@, link@);
        is_ascii_chars_encode_utf8(key_for(secret@, link@));
    }
    if key.as_bytes().len() != KEY_LEN {
        return false;
    }
    match decode_key(key) {
        None => false,
        Some(found) => {
            let digest = digest_of(secret, link.as_bytes());
            let same = is_digest(&digest, &found);
            proof {
                encode_has_len(found@);
                if same {
                    only_text_of_digest(key@, found@);
                } else if key@ == encode(digest@) {
                    encode_is_symbols(digest@);
                    let n = encode(found@).len() as int;
                    if n < key@.len() {
                        assert(key@[n] == '=');
                        assert(encode(digest@)[n] != '=');
                    }
                    assert(encode(found@) =~= key@);
                    encode_is_injective(found@, digest@);
                }
            }
            same
        },
    }
}

/// The key made for a name is valid for that name.
pub proof fn made_key_is_valid(secret: Seq<u8>, name: Seq<char>)
    ensures
        key_is_valid(secret, name, key_for(secret, name)),
{
}

/// No key but the one made for a name is valid for it. In particular a key
/// of another length, or one that holds a character outside the alphabet, is
/// valid for no name.
pub proof fn other_key_is_invalid(secret: Seq<u8>, name: Seq<char>, key: Seq<char>)
    ensures
        key != key_for(secret, name) ==> !key_is_valid(secret, name, key),
        key.len() != KEY_LEN ==> !key_is_valid(secret, name, key),
        !all_symbols(key) ==> !key_is_valid(secret, name, key),
{
    key_shape(secret, name);
}

/// A key made for one name is valid for another only where the two names
/// have the same digest.
pub proof fn key_is_bound_to_name(secret: Seq<u8>, name: Seq<char>, other: Seq<char>)
    requires
        hmac_sha224(secret, encode_utf8(name))@ != hmac_sha224(secret, encode_utf8(other))@,
    ensures
        !key_is_valid(secret, other, key_for(secret, name)),
{
    if key_for(secret, name) == key_for(secret, other) {
        encode_is_injective(
            hmac_sha224(secret, encode_utf8(name))@,
            hmac_sha224(secret, encode_utf8(other))@,
        );
    }
}

/// Whether `name` begins with a dot.
pub fn has_hidden_name(name: &str) -> (hidden: bool)
    ensures
        hidden == is_hidden(name@),
{
    !name.is_empty() && name.get_char(0) == '.'
}

/// Decides whether the file stored as `filename` may be removed on the
/// strength of `key`: only with its own deletion key, and never where the
/// name is reserved for hidden files.
pub fn authorize(secret: &Secret, filename: &str, key: &str) -> (verdict: Result<(), DeletionError>)
    ensures
        verdict.is_ok() == (key_is_valid(secret@, filename@, key@) && !is_hidden(filename@)),
        verdict.is_err() ==> verdict == Err::<(), DeletionError>(DeletionError::InvalidKey),
{
    if !check_key(secret, filename, key) || has_hidden_name(filename) {
        return Err(DeletionError::InvalidKey);
    }
    Ok(())
}

/// What an authorised deletion comes to, given the storage's answer.
pub fn conclude(removal: Removal) -> (outcome: Result<(), DeletionError>)
    ensures
        outcome == match removal {
            Removal::Removed => Ok::<(), DeletionError>(()),
            Removal::Missing => Err(DeletionError::NotFound),
            Removal::Failed => Err(DeletionError::IoError),
        },
{
    match removal {
        Removal::Removed => Ok(()),
        Removal::Missing => Err(DeletionError::NotFound),
        Removal::Failed => Err(DeletionError::IoError),
    }
}

} // verus!
