//! SHA-256 digests and their text.

use sha2::Digest as _;
use vstd::prelude::*;

use crate::text::{hex, hex_text, lower_hex};

verus! {

/// The SHA-256 digest of some bytes.
pub uninterp spec fn sha256_of(bytes: Seq<u8>) -> Seq<u8>;

/// `sha2::Sha256::digest`: the digest, 32 bytes long, as a function of the bytes alone.
#[verifier::external_body]
fn sha256(bytes: &[u8]) -> (digest: Vec<u8>)
    ensures
        digest@ == sha256_of(bytes@),
        digest@.len() == 32,
{
    sha2::Sha256::digest(bytes).to_vec()
}

/// The text of a SHA-256 digest: 64 lower-case hexadecimal digits.
pub open spec fn sha256_text(value: Seq<char>) -> bool {
    &&& value.len() == 64
    &&& forall|i: int| 0 <= i < value.len() ==> lower_hex(#[trigger] value[i])
}

/// The digest of some bytes as text.
pub open spec fn digest_text(bytes: Seq<u8>) -> Seq<char> {
    hex_text(sha256_of(bytes))
}

/// The SHA-256 digest of some bytes in lower-case hexadecimal.
pub fn digest(bytes: &[u8]) -> (text: String)
    ensures
        text@ == digest_text(bytes@),
        sha256_text(text@),
{
    let value = sha256(bytes);
    hex(value.as_slice())
}

} // verus!
