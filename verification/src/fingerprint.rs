//! The asset version of a build: the SHA-1 of its manifest, in hexadecimal.

use crate::headers::{is_printable, is_value_text, lemma_printable_is_value_text};
use crate::text::hex_digit;
use sha1::Digest;
use vstd::prelude::*;

verus! {

/// The SHA-1 digest of a sequence of bytes.
pub uninterp spec fn sha1_digest(data: Seq<u8>) -> Seq<u8>;

/// The two hexadecimal digits of a byte, the high one first.
pub open spec fn hex_pair(b: u8) -> Seq<char> {
    seq![hex_digit(b as int / 16), hex_digit(b as int % 16)]
}

/// Bytes in lower-case hexadecimal.
pub open spec fn hex_lower(bytes: Seq<u8>) -> Seq<char> {
    bytes.flat_map(|b: u8| hex_pair(b))
}

/// The version that a manifest gives: its SHA-1 digest in hexadecimal.
pub open spec fn fingerprint_of(manifest: Seq<u8>) -> Seq<char> {
    hex_lower(sha1_digest(manifest))
}

/// `Sha1::digest`: the SHA-1 digest of the data, which has twenty bytes.
#[verifier::external_body]
pub(crate) fn sha1(data: &[u8]) -> (digest: Vec<u8>)
    ensures
        digest@ == sha1_digest(data@),
        digest@.len() == 20,
{
    sha1::Sha1::digest(data).to_vec()
}

/// `hex::encode`: two lower-case hexadecimal digits for each byte, in order.
#[verifier::external_body]
pub(crate) fn hex_encode(bytes: &[u8]) -> (text: String)
    ensures
        text@ == hex_lower(bytes@),
{
    hex::encode(bytes)
}

/// Writes a digest as a version: in lower-case hexadecimal, two digits for
/// each byte.
pub fn digest_version(digest: &[u8]) -> (version: String)
    ensures
        version@ == hex_lower(digest@),
        version@.len() == 2 * digest@.len(),
{
    proof {
        lemma_hex_lower_len(digest@);
    }
    hex_encode(digest)
}

/// Computes the version that a manifest gives: forty hexadecimal digits.
pub fn fingerprint(manifest: &[u8]) -> (version: String)
    ensures
        version@ == fingerprint_of(manifest@),
        version@.len() == 40,
{
    let digest = sha1(manifest);
    proof {
        lemma_hex_lower_len(digest@);
    }
    digest_version(digest.as_slice())
}

/// Where the digits of a byte stand: bytes in hexadecimal are twice as long
/// as the bytes, and the two digits of the byte at `i` stand at `2 * i` and
/// `2 * i + 1`.
pub proof fn lemma_hex_lower_digits(bytes: Seq<u8>, i: int)
    requires
        0 <= i < bytes.len(),
    ensures
        hex_lower(bytes).len() == 2 * bytes.len(),
        hex_lower(bytes)[2 * i] == hex_digit(bytes[i] as int / 16),
        hex_lower(bytes)[2 * i + 1] == hex_digit(bytes[i] as int % 16),
    decreases bytes.len(),
{
    let pair = |b: u8| hex_pair(b);
    let rest = bytes.drop_first();
    assert(bytes.map_values(pair).drop_first() =~= rest.map_values(pair));
    assert(hex_lower(bytes) == hex_pair(bytes[0]) + hex_lower(rest));
    lemma_hex_lower_len(rest);
    if i > 0 {
        lemma_hex_lower_digits(rest, i - 1);
        assert(hex_lower(bytes)[2 * i] == hex_lower(rest)[2 * (i - 1)]);
        assert(hex_lower(bytes)[2 * i + 1] == hex_lower(rest)[2 * (i - 1) + 1]);
    }
}

/// Bytes in hexadecimal are twice as long as the bytes.
pub proof fn lemma_hex_lower_len(bytes: Seq<u8>)
    ensures
        hex_lower(bytes).len() == 2 * bytes.len(),
    decreases bytes.len(),
{
    let pair = |b: u8| hex_pair(b);
    if bytes.len() > 0 {
        let rest = bytes.drop_first();
        assert(bytes.map_values(pair).drop_first() =~= rest.map_values(pair));
        assert(hex_lower(bytes) == hex_pair(bytes[0]) + hex_lower(rest));
        lemma_hex_lower_len(rest);
    }
}

/// Different bytes are different in hexadecimal.
pub proof fn lemma_hex_lower_injective(a: Seq<u8>, b: Seq<u8>)
    requires
        hex_lower(a) == hex_lower(b),
    ensures
        a == b,
{
    lemma_hex_lower_len(a);
    lemma_hex_lower_len(b);
    assert forall|i: int| 0 <= i < a.len() implies a[i] == b[i] by {
        lemma_hex_lower_digits(a, i);
        lemma_hex_lower_digits(b, i);
        let (x, y) = (a[i] as int, b[i] as int);
        assert(hex_digit(x / 16) == hex_digit(y / 16));
        assert(hex_digit(x % 16) == hex_digit(y % 16));
        assert(x / 16 == y / 16 && x % 16 == y % 16);
    }
    assert(a =~= b);
}

/// The same manifest bytes give the same version, and two manifests give
/// the same version exactly when their SHA-1 digests are the same: the
/// hexadecimal form loses nothing of the digest.
pub proof fn lemma_fingerprint_follows_digest(a: Seq<u8>, b: Seq<u8>)
    ensures
        a == b ==> fingerprint_of(a) == fingerprint_of(b),
        fingerprint_of(a) == fingerprint_of(b) <==> sha1_digest(a) == sha1_digest(b),
{
    if fingerprint_of(a) == fingerprint_of(b) {
        lemma_hex_lower_injective(sha1_digest(a), sha1_digest(b));
    }
}

/// A version made by fingerprint is printable ASCII, so it can always be
/// echoed in a header field.
pub proof fn lemma_fingerprint_fits_header(manifest: Seq<u8>)
    ensures
        is_printable(fingerprint_of(manifest)),
        is_value_text(fingerprint_of(manifest)),
{
    let digest = sha1_digest(manifest);
    let text = hex_lower(digest);
    lemma_hex_lower_len(digest);
    assert forall|k: int| 0 <= k < text.len() implies ' ' <= #[trigger] text[k] <= '~' by {
        let i = k / 2;
        lemma_hex_lower_digits(digest, i);
        if k % 2 == 0 {
            assert(text[k] == hex_digit(digest[i] as int / 16));
        } else {
            assert(text[k] == hex_digit(digest[i] as int % 16));
        }
    }
    lemma_printable_is_value_text(text);
}

} // verus!
