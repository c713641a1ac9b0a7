//! Subresource Integrity (SRI) hashes (SHA-384, base64-encoded) for CSS and JS assets,
//! so that browsers can verify them, and the base64 encoding they share with Basic
//! authentication.
use vstd::prelude::*;

use base64::Engine;
use sha2::Digest;

verus! {

/// The SHA-384 digest of `data`, as `sha2::Sha384` computes it.
pub uninterp spec fn sha384_of(data: Seq<u8>) -> Seq<u8>;

/// The character of the standard base64 alphabet for the six bits `n`.
pub open spec fn base64_char(n: nat) -> char {
    if n < 26 {
        (('A' as u32) + n) as char
    } else if n < 52 {
        (('a' as u32) + n - 26) as char
    } else if n < 62 {
        (('0' as u32) + n - 52) as char
    } else if n == 62 {
        '+'
    } else {
        '/'
    }
}

/// The standard (RFC 4648, padded) base64 encoding of `data`: each group of three
/// bytes as four characters of six bits each, a last group of one or two bytes as
/// two or three characters padded with `=` to four.
#[verifier::opaque]
pub open spec fn base64_of(data: Seq<u8>) -> Seq<char>
    decreases data.len(),
{
    if data.len() == 0 {
        Seq::<char>::empty()
    } else if data.len() == 1 {
        let b0 = data[0] as nat;
        seq![base64_char(b0 / 4), base64_char((b0 % 4) * 16), '=', '=']
    } else if data.len() == 2 {
        let b0 = data[0] as nat;
        let b1 = data[1] as nat;
        seq![base64_char(b0 / 4), base64_char((b0 % 4) * 16 + b1 / 16), base64_char((b1 % 16) * 4), '=']
    } else {
        let b0 = data[0] as nat;
        let b1 = data[1] as nat;
        let b2 = data[2] as nat;
        seq![
            base64_char(b0 / 4),
            base64_char((b0 % 4) * 16 + b1 / 16),
            base64_char((b1 % 16) * 4 + b2 / 64),
            base64_char(b2 % 64),
        ] + base64_of(data.skip(3))
    }
}

/// Whether `c` is in the standard base64 alphabet or is the padding character.
pub open spec fn is_base64_char(c: char) -> bool {
    ('A' <= c && c <= 'Z') || ('a' <= c && c <= 'z') || ('0' <= c && c <= '9') || c == '+' || c
        == '/' || c == '='
}

/// Calls `sha2::Sha384::digest` (the `Digest` trait's one-shot hashing). The digest is
/// named `sha384_of`; the one fact stated of it is its documented size of 48 bytes.
#[verifier::external_body]
pub(crate) fn sha384_digest(data: &[u8]) -> (r: Vec<u8>)
    ensures
        r@ == sha384_of(data@),
        r@.len() == 48,
{
    sha2::Sha384::digest(data).to_vec()
}

/// Calls `base64::engine::general_purpose::STANDARD.encode`: the standard alphabet
/// with padding (`base64_of`), four characters for every started group of three bytes,
/// all from the base64 alphabet. The crate panics when that length overflows `usize`,
/// which the precondition excludes.
#[verifier::external_body]
pub(crate) fn base64_encode(data: &[u8]) -> (r: String)
    requires
        data@.len() <= usize::MAX / 4 * 3,
    ensures
        r@ == base64_of(data@),
        r@.len() == (data@.len() + 2) / 3 * 4,
        forall|i: int| 0 <= i < r@.len() ==> is_base64_char(#[trigger] r@[i]),
{
    base64::engine::general_purpose::STANDARD.encode(data)
}

/// The SRI attribute value for content: `sha384-` followed by the base64 digest.
pub open spec fn sri_of(content: Seq<u8>) -> Seq<char> {
    "sha384-"@ + base64_of(sha384_of(content))
}

/// Generate an SRI hash string (SHA-384 base64) for the given content, in the format
/// `sha384-<base64-encoded-hash>` (71 characters).
pub fn generate_sri_hash(content: &[u8]) -> (r: String)
    ensures
        r@ == sri_of(content@),
        r@.len() == 71,
{
    let digest = sha384_digest(content);
    let encoded = base64_encode(digest.as_slice());
    proof {
        reveal_strlit("sha384-");
    }
    let mut r = String::from_str("sha384-");
    r.append(encoded.as_str());
    r
}

} // verus!
