//! Content hashes: hexadecimal digests and the identifiers made from them.

use vstd::prelude::*;
use crate::error::Error;

verus! {

/// The error of `hex::decode`.
#[verifier::external_type_specification]
#[verifier::external_body]
pub struct ExFromHexError(hex::FromHexError);

/// Whether `c` is one of `0`-`9`, `a`-`f`, `A`-`F`.
pub open spec fn is_hex_digit(c: char) -> bool {
    ('0' <= c <= '9') || ('a' <= c <= 'f') || ('A' <= c <= 'F')
}

/// Whether `c` is one of `0`-`9`, `a`-`f`.
pub open spec fn is_lower_hex_digit(c: char) -> bool {
    ('0' <= c <= '9') || ('a' <= c <= 'f')
}

/// The number, below 16, that the hexadecimal digit `c` stands for.
pub open spec fn hex_value(c: char) -> int
    recommends
        is_hex_digit(c),
{
    if '0' <= c <= '9' {
        c as int - '0' as int
    } else if 'a' <= c <= 'f' {
        c as int - 'a' as int + 10
    } else {
        c as int - 'A' as int + 10
    }
}

/// The lower-case hexadecimal digit for `v`.
pub open spec fn hex_digit(v: int) -> char
    recommends
        0 <= v < 16,
{
    if v < 10 {
        ('0' as int + v) as char
    } else {
        ('a' as int + v - 10) as char
    }
}

/// Whether `s` writes a sequence of bytes in hexadecimal: two digits for
/// each byte, in either case.
pub open spec fn is_hex_text(s: Seq<char>) -> bool {
    s.len() % 2 == 0 && forall|i: int| 0 <= i < s.len() ==> is_hex_digit(#[trigger] s[i])
}

/// Whether `s` writes a sequence of bytes in lower-case hexadecimal.
pub open spec fn is_lower_hex_text(s: Seq<char>) -> bool {
    s.len() % 2 == 0 && forall|i: int| 0 <= i < s.len() ==> is_lower_hex_digit(#[trigger] s[i])
}

/// The bytes that the hexadecimal text `s` writes: the first digit of each
/// pair is the high half of its byte.
pub open spec fn hex_bytes(s: Seq<char>) -> Seq<u8>
    recommends
        is_hex_text(s),
{
    Seq::new((s.len() / 2) as nat, |i: int| (16 * hex_value(s[2 * i]) + hex_value(s[2 * i + 1])) as u8)
}

/// `bytes` written in lower-case hexadecimal.
pub open spec fn hex_text(bytes: Seq<u8>) -> Seq<char> {
    Seq::new(
        2 * bytes.len(),
        |i: int|
            if i % 2 == 0 {
                hex_digit(bytes[i / 2] as int / 16)
            } else {
                hex_digit(bytes[i / 2] as int % 16)
            },
    )
}

/// `hex::decode` on a text: it succeeds exactly on an even number of
/// hexadecimal digits, in either case, and then gives the bytes they write.
/// It reads the text byte by byte, and no byte of a character outside
/// ASCII is a digit.
#[verifier::external_body]
fn decode_hex(text: &str) -> (r: Result<Vec<u8>, hex::FromHexError>)
    ensures
        r is Ok <==> is_hex_text(text@),
        r matches Ok(bytes) ==> bytes@ == hex_bytes(text@),
{
    hex::decode(text)
}

/// `hex::encode`: two lower-case digits for each byte.
#[verifier::external_body]
fn encode_hex(bytes: &Vec<u8>) -> (r: String)
    ensures
        r@ == hex_text(bytes@),
{
    hex::encode(bytes)
}

/// Hexadecimal text written from bytes reads back as the same bytes.
pub proof fn lemma_hex_text_reads_back(bytes: Seq<u8>)
    ensures
        is_lower_hex_text(hex_text(bytes)),
        is_hex_text(hex_text(bytes)),
        hex_bytes(hex_text(bytes)) == bytes,
{
    let s = hex_text(bytes);
    assert forall|i: int| 0 <= i < s.len() implies is_lower_hex_digit(#[trigger] s[i]) by {
        let b = bytes[i / 2] as int;
        assert(0 <= b / 16 < 16 && 0 <= b % 16 < 16);
    }
    assert forall|i: int| 0 <= i < s.len() implies is_hex_digit(#[trigger] s[i]) by {
        assert(is_lower_hex_digit(s[i]));
    }
    assert forall|k: int| 0 <= k < bytes.len() implies #[trigger] hex_bytes(s)[k] == bytes[k] by {
        let b = bytes[k] as int;
        assert((2 * k) % 2 == 0 && (2 * k) / 2 == k);
        assert((2 * k + 1) % 2 == 1 && (2 * k + 1) / 2 == k);
        assert(s[2 * k] == hex_digit(b / 16));
        assert(s[2 * k + 1] == hex_digit(b % 16));
        assert(0 <= b / 16 < 16 && 0 <= b % 16 < 16);
        assert(hex_value(hex_digit(b / 16)) == b / 16);
        assert(hex_value(hex_digit(b % 16)) == b % 16);
        assert(16 * (b / 16) + b % 16 == b);
    }
    assert(hex_bytes(s) =~= bytes);
}

/// Bytes read from lower-case hexadecimal text are written back as the
/// same text.
pub proof fn lemma_hex_bytes_write_back(s: Seq<char>)
    requires
        is_lower_hex_text(s),
    ensures
        is_hex_text(s),
        hex_text(hex_bytes(s)) == s,
{
    assert forall|i: int| 0 <= i < s.len() implies is_hex_digit(#[trigger] s[i]) by {
        assert(is_lower_hex_digit(s[i]));
    }
    let bytes = hex_bytes(s);
    let t = hex_text(bytes);
    assert(t.len() == s.len());
    assert forall|i: int| 0 <= i < s.len() implies #[trigger] t[i] == s[i] by {
        let k = i / 2;
        assert(is_lower_hex_digit(s[2 * k]));
        assert(is_lower_hex_digit(s[2 * k + 1]));
        let hi = hex_value(s[2 * k]);
        let lo = hex_value(s[2 * k + 1]);
        assert(0 <= hi < 16 && 0 <= lo < 16);
        assert(bytes[k] as int == 16 * hi + lo);
        assert((16 * hi + lo) / 16 == hi && (16 * hi + lo) % 16 == lo);
        assert(hex_digit(hi) == s[2 * k]);
        assert(hex_digit(lo) == s[2 * k + 1]);
        if i % 2 == 0 {
            assert(i == 2 * k);
        } else {
            assert(i == 2 * k + 1);
        }
    }
    assert(t =~= s);
}

/// The number of bytes in a digest: the 256 of SHA-256 counted in bytes, so
/// that a digest text has 512 hexadecimal digits.
pub const DIGEST_LEN: usize = 256;

/// The version of the identifier format.
#[derive(Debug, Clone, Copy, PartialEq, Eq, Structural)]
pub enum Version {
    V0,
    V1,
}

impl Version {
    /// The number that stands for the version in an identifier.
    pub open spec fn code(self) -> u64 {
        match self {
            Version::V0 => 0,
            Version::V1 => 1,
        }
    }
}

/// How the content behind an identifier is encoded.
#[derive(Debug, Clone, Copy, PartialEq, Eq, Structural)]
pub enum Codec {
    Raw,
    DagProtobuf,
}

impl Codec {
    /// The number that stands for the codec in an identifier.
    pub open spec fn code(self) -> u64 {
        match self {
            Codec::Raw => 0x55,
            Codec::DagProtobuf => 0x70,
        }
    }
}

/// The text that `to_string` gives of the identifier that `cid::Cid::new`
/// makes of a codec, a version and hash bytes, the first two given by
/// their numbers.
pub uninterp spec fn cid_text(version: u64, codec: u64, hash: Seq<u8>) -> Seq<char>;

/// What a content hash holds.
pub ghost struct ContentHashView {
    pub version: Version,
    pub codec: Codec,
    pub digest: Seq<u8>,
}

impl ContentHashView {
    /// Version, codec and length of the digest agree: a digest of
    /// `DIGEST_LEN` raw bytes under version 0.
    pub open spec fn is_valid(self) -> bool {
        &&& self.version == Version::V0
        &&& self.codec == Codec::Raw
        &&& self.digest.len() == DIGEST_LEN
    }

    /// The identifier as the daemon reads it in a request.
    pub open spec fn text(self) -> Seq<char> {
        cid_text(self.version.code(), self.codec.code(), self.digest)
    }
}

/// A self-describing identifier of content by its digest. It is made by
/// `sha256_to_cid` only, so that each value of it is valid.
#[derive(Debug, PartialEq, Eq)]
pub struct ContentHash {
    version: Version,
    codec: Codec,
    digest: Vec<u8>,
}

impl View for ContentHash {
    type V = ContentHashView;

    closed spec fn view(&self) -> ContentHashView {
        ContentHashView { version: self.version, codec: self.codec, digest: self.digest@ }
    }
}

impl Clone for ContentHash {
    fn clone(&self) -> (r: Self)
        ensures
            r@ == self@,
    {
        proof {
            use_type_invariant(self);
        }
        ContentHash { version: self.version, codec: self.codec, digest: self.digest.clone() }
    }
}

/// `cid::Cid::new` on the three parts, then `to_string` on the identifier.
#[verifier::external_body]
fn cid_to_string(version: Version, codec: Codec, hash: &Vec<u8>) -> (r: String)
    ensures
        r@ == cid_text(version.code(), codec.code(), hash@),
{
    let version = match version {
        Version::V0 => cid::Version::V0,
        Version::V1 => cid::Version::V1,
    };
    let codec = match codec {
        Codec::Raw => cid::Codec::Raw,
        Codec::DagProtobuf => cid::Codec::DagProtobuf,
    };
    cid::Cid::new(codec, version, hash).to_string()
}

impl ContentHash {
    #[verifier::type_invariant]
    spec fn holds_valid(self) -> bool {
        self@.is_valid()
    }

    /// The version of the identifier format.
    pub fn version(&self) -> (r: Version)
        ensures
            r == self@.version,
            self@.is_valid(),
    {
        proof {
            use_type_invariant(self);
        }
        self.version
    }

    /// The encoding of the content.
    pub fn codec(&self) -> (r: Codec)
        ensures
            r == self@.codec,
            self@.is_valid(),
    {
        proof {
            use_type_invariant(self);
        }
        self.codec
    }

    /// The bytes of the digest.
    pub fn digest(&self) -> (r: &Vec<u8>)
        ensures
            r@ == self@.digest,
            self@.is_valid(),
    {
        proof {
            use_type_invariant(self);
        }
        &self.digest
    }

    /// The digest in lower-case hexadecimal.
    pub fn digest_hex(&self) -> (r: String)
        ensures
            r@ == hex_text(self@.digest),
            self@.is_valid(),
    {
        proof {
            use_type_invariant(self);
        }
        encode_hex(&self.digest)
    }

    /// The identifier as the daemon reads it in a request.
    pub fn to_string(&self) -> (r: String)
        ensures
            r@ == self@.text(),
            self@.is_valid(),
    {
        proof {
            use_type_invariant(self);
        }
        cid_to_string(self.version, self.codec, &self.digest)
    }
}

/// Whether `s` writes a digest: hexadecimal digits, two for each of the
/// `DIGEST_LEN` bytes.
pub open spec fn is_digest_text(s: Seq<char>) -> bool {
    is_hex_text(s) && s.len() == 2 * DIGEST_LEN
}

/// Reads a digest written in hexadecimal and makes the identifier of the
/// raw content with that digest. Text that is not hexadecimal, or not of
/// the length of a digest, is refused.
pub fn sha256_to_cid(sha256_str: &str) -> (r: Result<ContentHash, Error>)
    ensures
        r is Ok <==> is_digest_text(sha256_str@),
        r matches Ok(hash) ==> hash@ == (ContentHashView {
            version: Version::V0,
            codec: Codec::Raw,
            digest: hex_bytes(sha256_str@),
        }),
        r matches Err(e) ==> e == Error::HashError,
{
    match decode_hex(sha256_str) {
        Ok(digest) => {
            if digest.len() != DIGEST_LEN {
                Err(Error::HashError)
            } else {
                Ok(ContentHash { version: Version::V0, codec: Codec::Raw, digest })
            }
        },
        Err(_) => Err(Error::HashError),
    }
}

/// The digest of a content hash, written in hexadecimal, is read back as
/// the same digest.
pub proof fn lemma_digest_hex_reads_back(hash: ContentHashView)
    requires
        hash.is_valid(),
    ensures
        is_digest_text(hex_text(hash.digest)),
        hex_bytes(hex_text(hash.digest)) == hash.digest,
{
    lemma_hex_text_reads_back(hash.digest);
}

/// The digest of an identifier read from lower-case text is that text
/// when written in hexadecimal again.
pub proof fn lemma_digest_round_trip(s: Seq<char>)
    requires
        is_digest_text(s),
        is_lower_hex_text(s),
    ensures
        hex_text(hex_bytes(s)) == s,
        hex_bytes(s).len() == DIGEST_LEN,
{
    lemma_hex_bytes_write_back(s);
}

} // verus!
