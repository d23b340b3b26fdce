//! SHA-1 digests as lower-case hexadecimal text.

use sha1::Digest;
use vstd::prelude::*;

verus! {

/// The SHA-1 digest of the UTF-8 bytes of a text, as lower-case hexadecimal
/// text.
pub uninterp spec fn sha1_hex_digest(input: Seq<char>) -> Seq<char>;

/// Hashes `input` with `sha1::Sha1` and formats the digest with `{:x}`.
/// Trusted: the result is the digest that `sha1_hex_digest` names.
#[verifier::external_body]
pub(crate) fn sha1_hex(input: &str) -> (r: String)
    ensures
        r@ == sha1_hex_digest(input@),
{
    let mut hasher = sha1::Sha1::new();
    hasher.update(input);
    format!("{:x}", hasher.finalize())
}

} // verus!
