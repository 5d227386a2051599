//! SHA-256 digests of downloaded archives and the published checksum files
//! they are compared against.

use vstd::prelude::*;
use vstd::string::*;
use crate::error::ToolchainError;
use crate::text::{eq_ignore_ascii_case, fold_ascii};

verus! {

/// A running SHA-256 computation. The hasher's type is built from several
/// layers of generic wrappers, so it is held here behind a field that the
/// verifier does not look into; `absorbed` names what it has taken in.
#[verifier::external_body]
pub struct Sha256Hasher {
    inner: sha2::Sha256,
}

/// The bytes that a hasher has absorbed so far.
pub uninterp spec fn absorbed(h: Sha256Hasher) -> Seq<u8>;

/// The SHA-256 digest of a byte sequence.
pub uninterp spec fn sha256_of(data: Seq<u8>) -> Seq<u8>;

/// Relies on sha2's `Digest::new`: a hasher that has absorbed nothing.
#[verifier::external_body]
fn sha256_new() -> (r: Sha256Hasher)
    ensures
        absorbed(r) == Seq::<u8>::empty(),
{
    Sha256Hasher { inner: <sha2::Sha256 as sha2::Digest>::new() }
}

/// Relies on sha2's `Digest::update`: the hasher absorbs `data` after what it held.
#[verifier::external_body]
fn sha256_update(h: &mut Sha256Hasher, data: &[u8])
    ensures
        absorbed(*final(h)) == absorbed(*old(h)) + data@,
{
    sha2::Digest::update(&mut h.inner, data)
}

/// Relies on sha2's `Digest::finalize`: the 32-byte digest of all absorbed bytes.
#[verifier::external_body]
fn sha256_finalize(h: Sha256Hasher) -> (r: [u8; 32])
    ensures
        r@ == sha256_of(absorbed(h)),
{
    sha2::Digest::finalize(h.inner).into()
}

/// Relies on hex's `encode`: two lowercase digits per byte, high nibble first.
#[verifier::external_body]
fn hex_encode(bytes: &[u8]) -> (r: String)
    ensures
        r@ == hex_lower(bytes@),
{
    hex::encode(bytes)
}

/// The lowercase hexadecimal digit of a nibble.
pub open spec fn hex_digit(n: int) -> char {
    "0123456789abcdef"@[n]
}

/// Lowercase hexadecimal text of a byte sequence, two digits per byte.
pub open spec fn hex_lower(bytes: Seq<u8>) -> Seq<char> {
    Seq::new(
        2 * bytes.len(),
        |i: int|
            if i % 2 == 0 {
                hex_digit((bytes[i / 2] / 16) as int)
            } else {
                hex_digit((bytes[i / 2] % 16) as int)
            },
    )
}

/// The hexadecimal SHA-256 digest of a byte sequence, as published next to
/// each release asset.
pub open spec fn digest_hex(data: Seq<u8>) -> Seq<char> {
    hex_lower(sha256_of(data))
}

/// A digest computed over a file that is read in chunks, front to back.
pub struct ChecksumScan {
    hasher: Sha256Hasher,
}

impl ChecksumScan {
    /// The bytes scanned so far, in order.
    pub closed spec fn scanned(&self) -> Seq<u8> {
        absorbed(self.hasher)
    }

    /// A scan that has read nothing yet.
    pub fn new() -> (r: ChecksumScan)
        ensures
            r.scanned() == Seq::<u8>::empty(),
    {
        ChecksumScan { hasher: sha256_new() }
    }

    /// Takes in the next chunk of the file.
    pub fn absorb(&mut self, chunk: &[u8])
        ensures
            final(self).scanned() == old(self).scanned() + chunk@,
    {
        sha256_update(&mut self.hasher, chunk);
    }

    /// The lowercase hexadecimal digest of everything scanned.
    pub fn finish(self) -> (r: String)
        ensures
            r@ == digest_hex(self.scanned()),
    {
        let digest = sha256_finalize(self.hasher);
        hex_encode(&digest)
    }
}

/// The hexadecimal SHA-256 digest of `data`, computed in one pass.
pub fn digest_of(data: &[u8]) -> (r: String)
    ensures
        r@ == digest_hex(data@),
{
    let mut scan = ChecksumScan::new();
    scan.absorb(data);
    assert(scan.scanned() =~= data@);
    scan.finish()
}

/// Whether a character is ASCII whitespace (space, tab, line feed, form feed,
/// carriage return).
pub open spec fn is_ascii_ws(c: char) -> bool {
    c == ' ' || c == '\t' || c == '\n' || c == '\x0C' || c == '\r'
}

/// The leading run of non-whitespace characters of `s`.
pub open spec fn leading_word(s: Seq<char>) -> Seq<char>
    decreases s.len(),
{
    if s.len() == 0 || is_ascii_ws(s[0]) {
        Seq::empty()
    } else {
        seq![s[0]] + leading_word(s.drop_first())
    }
}

/// The first whitespace-delimited token of `s`, or nothing when `s` is blank.
pub open spec fn first_token(s: Seq<char>) -> Seq<char>
    decreases s.len(),
{
    if s.len() == 0 {
        Seq::empty()
    } else if is_ascii_ws(s[0]) {
        first_token(s.drop_first())
    } else {
        leading_word(s)
    }
}

fn is_ws(c: char) -> (r: bool)
    ensures
        r == is_ascii_ws(c),
{
    c == ' ' || c == '\t' || c == '\n' || c == '\x0C' || c == '\r'
}

/// The digest that a published checksum file states: its first
/// whitespace-delimited token (the file name after it is ignored).
pub fn parse_checksum(text: &str) -> (r: String)
    ensures
        r@ == first_token(text@),
{
    let ghost s = text@;
    let n = text.unicode_len();
    let mut i: usize = 0;
    assert(s.skip(0) =~= s);
    while i < n && is_ws(text.get_char(i))
        invariant
            s == text@,
            n == s.len(),
            i <= n,
            first_token(s) == first_token(s.skip(i as int)),
        decreases n - i,
    {
        assert(s.skip(i as int).drop_first() =~= s.skip(i + 1));
        i = i + 1;
    }
    assert(first_token(s) == leading_word(s.skip(i as int)));
    let mut j: usize = i;
    while j < n && !is_ws(text.get_char(j))
        invariant
            s == text@,
            n == s.len(),
            i <= j <= n,
            leading_word(s.skip(i as int)) == s.subrange(i as int, j as int) + leading_word(
                s.skip(j as int),
            ),
        decreases n - j,
    {
        assert(s.skip(j as int).drop_first() =~= s.skip(j + 1));
        assert(leading_word(s.skip(j as int)) == seq![s[j as int]] + leading_word(s.skip(j + 1)));
        assert(s.subrange(i as int, j + 1) =~= s.subrange(i as int, j as int) + seq![s[j as int]]);
        assert(s.subrange(i as int, j as int) + leading_word(s.skip(j as int)) =~= s.subrange(
            i as int,
            j + 1,
        ) + leading_word(s.skip(j + 1)));
        j = j + 1;
    }
    assert(leading_word(s.skip(j as int)) == Seq::<char>::empty());
    assert(s.subrange(i as int, j as int) + Seq::<char>::empty() =~= s.subrange(i as int, j as int));
    String::from_str(text.substring_char(i, j))
}

/// Compares the digest computed over the download with the published one;
/// a mismatch fails with both digests attached.
pub fn verify_checksum(actual: String, expected: String) -> (r: Result<(), ToolchainError>)
    ensures
        r is Ok <==> fold_ascii(actual@) == fold_ascii(expected@),
        r is Err ==> (r matches Err(ToolchainError::ChecksumMismatch { expected: e, actual: a })
            && e@ == expected@ && a@ == actual@),
{
    if eq_ignore_ascii_case(actual.as_str(), expected.as_str()) {
        Ok(())
    } else {
        Err(ToolchainError::ChecksumMismatch { expected, actual })
    }
}

} // verus!
