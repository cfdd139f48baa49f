//! Content addressing: SHA-256 through `sha2`, rendered with `base64`.

use base64::Engine;
use sha2::Digest;
use vstd::prelude::*;
use vstd::string::*;

verus! {

/// Characters of a digest's rendering that a cache file name keeps.
pub const NAME_LEN: usize = 16;

/// The SHA-256 digest of `data`, as `sha2::Sha256` computes it.
pub uninterp spec fn sha256_digest(data: Seq<u8>) -> Seq<u8>;

/// The rendering of `data` by `base64`'s `STANDARD` engine.
pub uninterp spec fn base64_standard(data: Seq<u8>) -> Seq<char>;

/// The name under which content keyed by `key` is cached: the first
/// characters of the base64 rendering of the key's SHA-256 digest.
pub open spec fn digest_name(key: Seq<char>) -> Seq<char> {
    digest_text(key).subrange(0, NAME_LEN as int)
}

/// `Sha256::digest`: the digest has 32 bytes.
#[verifier::external_body]
fn sha256(data: &[u8]) -> (r: Vec<u8>)
    ensures
        r@ == sha256_digest(data@),
        r@.len() == 32,
{
    sha2::Sha256::digest(data).to_vec()
}

/// `Engine::encode` of the `STANDARD` engine, which pads: every three bytes
/// of input, complete or not, give four characters. The call panics where that
/// length does not fit `usize`; such inputs are left out.
#[verifier::external_body]
fn base64_encode(data: &[u8]) -> (r: String)
    requires
        data@.len() <= 0x2000_0000,
    ensures
        r@ == base64_standard(data@),
        r@.len() == 4 * ((data@.len() + 2) / 3),
{
    base64::engine::general_purpose::STANDARD.encode(data)
}

/// The whole base64 rendering of the SHA-256 digest of `key`.
pub open spec fn digest_text(key: Seq<char>) -> Seq<char> {
    base64_standard(sha256_digest(vstd::utf8::encode_utf8(key)))
}

/// The whole rendering of the digest of `key`: 44 characters.
pub fn rendering_of(key: &str) -> (r: String)
    ensures
        r@ == digest_text(key@),
        r@.len() == 44,
{
    let digest = sha256(key.as_bytes());
    base64_encode(digest.as_slice())
}

/// The cache name of `key`.
pub fn name_of(key: &str) -> (r: String)
    ensures
        r@ == digest_name(key@),
        r@.len() == NAME_LEN,
{
    let rendered = rendering_of(key);
    let name = rendered.as_str().substring_char(0, NAME_LEN);
    name.to_owned()
}

} // verus!
