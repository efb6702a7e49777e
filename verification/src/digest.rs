//! Message digests of downloaded data and their hexadecimal form.

use vstd::prelude::*;
use md5::Digest;
use crate::text::{ascii_lower, to_ascii_lowercase};

verus! {

/// The MD5 digest of `data`, as the `md-5` crate computes it.
pub uninterp spec fn md5_of(data: Seq<u8>) -> Seq<u8>;

/// The SHA-256 digest of `data`, as the `sha2` crate computes it.
pub uninterp spec fn sha256_of(data: Seq<u8>) -> Seq<u8>;

/// Calls `md5::Md5::digest` (the `Digest` trait of the `md-5` crate).
/// Claims that the result is the MD5 digest of `data`, named `md5_of`, and
/// that it has the 16 bytes of an MD5 digest.
#[verifier::external_body]
fn md5_digest(data: &[u8]) -> (r: Vec<u8>)
    ensures
        r@ == md5_of(data@),
        r@.len() == 16,
{
    md5::Md5::digest(data).to_vec()
}

/// Calls `sha2::Sha256::digest` (the `Digest` trait of the `sha2` crate).
/// Claims that the result is the SHA-256 digest of `data`, named
/// `sha256_of`, and that it has the 32 bytes of a SHA-256 digest.
#[verifier::external_body]
fn sha256_digest(data: &[u8]) -> (r: Vec<u8>)
    ensures
        r@ == sha256_of(data@),
        r@.len() == 32,
{
    sha2::Sha256::digest(data).to_vec()
}

/// The MD5 digest of `data` in lowercase hexadecimal, as the `chksum-md5`
/// crate writes it.
pub uninterp spec fn chksum_md5_hex(data: Seq<u8>) -> Seq<char>;

/// Calls `chksum_md5::hash` on bytes in memory (the infallible form of
/// `chksum_md5::chksum` for such input) and `Digest::to_hex_lowercase`.
/// Claims that the result is named `chksum_md5_hex` of `data` and that it
/// has the 32 characters of a 16-byte digest written two digits per byte.
#[verifier::external_body]
fn chksum_md5_lowercase(data: &[u8]) -> (r: String)
    ensures
        r@ == chksum_md5_hex(data@),
        r@.len() == 32,
{
    chksum_md5::hash(data).to_hex_lowercase()
}

/// The lowercase hexadecimal digit for `d < 16`.
pub open spec fn hex_digit(d: int) -> char {
    if d < 10 {
        (('0' as int) + d) as char
    } else {
        (('a' as int) + (d - 10)) as char
    }
}

/// Lowercase hexadecimal form of `b`: two digits per byte, high half first.
pub open spec fn hex_lower(b: Seq<u8>) -> Seq<char>
    decreases b.len(),
{
    if b.len() == 0 {
        Seq::empty()
    } else {
        hex_lower(b.drop_last()) + seq![hex_digit((b.last() / 16) as int), hex_digit((b.last() % 16) as int)]
    }
}

proof fn lemma_hex_alphabet()
    ensures
        "0123456789abcdef"@.len() == 16,
        forall|i: int| 0 <= i < 16 ==> #[trigger] "0123456789abcdef"@[i] == hex_digit(i),
{
    reveal_strlit("0123456789abcdef");
    assert forall|i: int| 0 <= i < 16 implies #[trigger] "0123456789abcdef"@[i] == hex_digit(i) by {
        assert(0 <= i < 16);
    }
}

/// Writes `b` in lowercase hexadecimal.
pub fn to_hex_lower(b: &[u8]) -> (r: String)
    ensures
        r@ == hex_lower(b@),
{
    let alphabet = "0123456789abcdef";
    proof {
        lemma_hex_alphabet();
    }
    let n = b.len();
    let mut out = String::new();
    let mut i: usize = 0;
    while i < n
        invariant
            n == b@.len(),
            i <= n,
            alphabet@.len() == 16,
            forall|k: int| 0 <= k < 16 ==> #[trigger] alphabet@[k] == hex_digit(k),
            out@ == hex_lower(b@.subrange(0, i as int)),
        decreases n - i,
    {
        let v = b[i];
        let hi = (v / 16) as usize;
        let lo = (v % 16) as usize;
        let p1 = alphabet.substring_char(hi, hi + 1);
        let p2 = alphabet.substring_char(lo, lo + 1);
        assert(p1@ =~= seq![hex_digit(hi as int)]);
        assert(p2@ =~= seq![hex_digit(lo as int)]);
        let ghost next = b@.subrange(0, i + 1);
        assert(next.drop_last() =~= b@.subrange(0, i as int));
        assert(next.last() == v);
        out.append(p1);
        out.append(p2);
        assert(out@ =~= hex_lower(next));
        i += 1;
    }
    assert(b@.subrange(0, n as int) =~= b@);
    out
}

/// The hex form has two characters per byte.
pub proof fn lemma_hex_len(b: Seq<u8>)
    ensures
        hex_lower(b).len() == 2 * b.len(),
    decreases b.len(),
{
    if b.len() > 0 {
        lemma_hex_len(b.drop_last());
    }
}

/// Whether the MD5 digest of `data`, in lowercase hex, equals `checksum`
/// read without regard to ASCII case.
pub open spec fn md5_matches(data: Seq<u8>, checksum: Seq<char>) -> bool {
    hex_lower(md5_of(data)) == ascii_lower(checksum)
}

/// Whether the SHA-256 digest of `data`, in lowercase hex, equals `expected`
/// exactly.
pub open spec fn sha256_matches(data: Seq<u8>, expected: Seq<char>) -> bool {
    hex_lower(sha256_of(data)) == expected
}

/// Checks downloaded bytes against an MD5 checksum given in hex of any case.
pub fn md5_checksum_matches(data: &[u8], checksum: &str) -> (r: bool)
    ensures
        r == md5_matches(data@, checksum@),
{
    let d = md5_digest(data);
    let hex = to_hex_lower(d.as_slice());
    let want = to_ascii_lowercase(checksum);
    hex == want
}

/// Checks downloaded bytes against a SHA-256 checksum in lowercase hex.
pub fn sha256_checksum_matches(data: &[u8], expected: &str) -> (r: bool)
    ensures
        r == sha256_matches(data@, expected@),
{
    let d = sha256_digest(data);
    let hex = to_hex_lower(d.as_slice());
    let want = String::from_str(expected);
    hex == want
}

/// Whether the contents of a file (`None` when it could not be read) have
/// the MD5 checksum `checksum`, given in hex of any case.
pub fn validate_checksum(contents: Option<&[u8]>, checksum: &str) -> (r: bool)
    ensures
        r == (match contents {
            Some(c) => chksum_md5_hex(c@) == ascii_lower(checksum@),
            None => false,
        }),
{
    match contents {
        Some(c) => {
            let hex = chksum_md5_lowercase(c);
            let want = to_ascii_lowercase(checksum);
            hex == want
        },
        None => false,
    }
}

/// Upper- and lowercase spellings of a checksum are accepted alike.
pub proof fn law_md5_case_insensitive(data: Seq<u8>, checksum: Seq<char>)
    ensures
        md5_matches(data, checksum) == md5_matches(data, ascii_lower(checksum)),
{
    assert(ascii_lower(ascii_lower(checksum)) =~= ascii_lower(checksum));
}

} // verus!
