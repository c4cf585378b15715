//! SHA-256 digests and their hexadecimal spelling.
use vstd::prelude::*;

verus! {

/// The SHA-256 digest of a byte string.
pub uninterp spec fn spec_sha256(data: Seq<u8>) -> Seq<u8>;

/// Hashes `data` with `sha2::Sha256::digest`. The result is the SHA-256 digest of the bytes,
/// which is 32 bytes long; nothing more of its value is stated.
#[verifier::external_body]
pub(crate) fn sha256(data: &[u8]) -> (digest: Vec<u8>)
    ensures
        digest@ == spec_sha256(data@),
        digest@.len() == 32,
{
    <sha2::Sha256 as sha2::Digest>::digest(data).to_vec()
}

/// The lower-case hexadecimal digit for a value below sixteen.
pub open spec fn hex_digit(v: u8) -> char {
    if v < 10 {
        (('0' as u8) + v) as char
    } else {
        (('a' as u8) + (v - 10)) as char
    }
}

/// Two lower-case hexadecimal digits per byte, high nibble first.
pub open spec fn spec_hex_lower(bytes: Seq<u8>) -> Seq<char>
    decreases bytes.len(),
{
    if bytes.len() == 0 {
        Seq::empty()
    } else {
        seq![hex_digit(bytes[0] / 16), hex_digit(bytes[0] % 16)] + spec_hex_lower(
            bytes.drop_first(),
        )
    }
}

/// A lower-case hexadecimal digit: `0`-`9` or `a`-`f`.
pub open spec fn is_lower_hex_digit(c: char) -> bool {
    ('0' <= c && c <= '9') || ('a' <= c && c <= 'f')
}

/// Text that is the lower-case hexadecimal spelling of a SHA-256 digest: 64 digits.
pub open spec fn is_digest_hex(s: Seq<char>) -> bool {
    &&& s.len() == 64
    &&& forall|i: int| 0 <= i < s.len() ==> is_lower_hex_digit(#[trigger] s[i])
}

/// Digest text is never blank.
pub proof fn lemma_digest_hex_not_blank(s: Seq<char>)
    requires
        is_digest_hex(s),
    ensures
        !crate::text::all_whitespace(s),
{
    assert(is_lower_hex_digit(s[0]));
    assert(!crate::text::spec_is_whitespace(s[0]));
}

/// The spelling has two digits per byte, each a lower-case hexadecimal digit.
pub proof fn lemma_hex_lower_digits(bytes: Seq<u8>)
    ensures
        spec_hex_lower(bytes).len() == 2 * bytes.len(),
        forall|i: int|
            0 <= i < spec_hex_lower(bytes).len() ==> is_lower_hex_digit(
                #[trigger] spec_hex_lower(bytes)[i],
            ),
    decreases bytes.len(),
{
    if bytes.len() > 0 {
        lemma_hex_lower_digits(bytes.drop_first());
        let hi = bytes[0] / 16;
        let lo = bytes[0] % 16;
        assert(is_lower_hex_digit(hex_digit(hi)));
        assert(is_lower_hex_digit(hex_digit(lo)));
        let s = spec_hex_lower(bytes);
        let rest = spec_hex_lower(bytes.drop_first());
        assert(s == seq![hex_digit(hi), hex_digit(lo)] + rest);
        assert forall|i: int| 0 <= i < s.len() implies is_lower_hex_digit(#[trigger] s[i]) by {
            if i >= 2 {
                assert(s[i] == rest[i - 2]);
            }
        }
    }
}

/// Spells bytes in hexadecimal with `hex::encode`, which writes two lower-case digits per
/// byte, high nibble first.
#[verifier::external_body]
pub(crate) fn hex_encode(bytes: &[u8]) -> (s: String)
    ensures
        s@ == spec_hex_lower(bytes@),
{
    hex::encode(bytes)
}

/// The lower-case hexadecimal SHA-256 digest of `data`.
pub open spec fn spec_sha256_hex(data: Seq<u8>) -> Seq<char> {
    spec_hex_lower(spec_sha256(data))
}

/// The lower-case hexadecimal SHA-256 digest of `data`.
pub fn sha256_hex(data: &[u8]) -> (s: String)
    ensures
        s@ == spec_sha256_hex(data@),
        is_digest_hex(s@),
{
    let digest = sha256(data);
    let s = hex_encode(digest.as_slice());
    proof {
        lemma_hex_lower_digits(digest@);
    }
    s
}

} // verus!
