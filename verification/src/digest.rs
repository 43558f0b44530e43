//! Digest computation and encoding.
//!
//! A measurement record's `content` is the lowercase hexadecimal encoding
//! of a cryptographic digest of the measured bytes. The digest itself is
//! computed by an outside hash implementation; the encoding, and the
//! validation of the configured algorithm name against the closed set of
//! supported algorithms, are verified here.

use vstd::prelude::*;
use vstd::string::StringExecFns;

verus! {

/// The closed set of supported digest algorithms.
#[derive(Clone, Copy, PartialEq, Eq, Structural, Debug)]
pub enum HashAlgorithm {
    Sha256,
    Sha384,
    Sha512,
}

/// The SHA-256 digest of a byte sequence; a function of the bytes alone.
pub uninterp spec fn sha256_of(bytes: Seq<u8>) -> Seq<u8>;

/// The SHA-384 digest of a byte sequence; a function of the bytes alone.
pub uninterp spec fn sha384_of(bytes: Seq<u8>) -> Seq<u8>;

/// The SHA-512 digest of a byte sequence; a function of the bytes alone.
pub uninterp spec fn sha512_of(bytes: Seq<u8>) -> Seq<u8>;

/// The digest of a byte sequence under the given algorithm.
pub open spec fn digest_of(alg: HashAlgorithm, bytes: Seq<u8>) -> Seq<u8> {
    match alg {
        HashAlgorithm::Sha256 => sha256_of(bytes),
        HashAlgorithm::Sha384 => sha384_of(bytes),
        HashAlgorithm::Sha512 => sha512_of(bytes),
    }
}

/// Relies on sha2::Sha256 through digest::Digest::digest: the 32-byte
/// SHA-256 digest of the input, a function of the input bytes alone.
#[verifier::external_body]
fn sha256_digest(bytes: &[u8]) -> (r: Vec<u8>)
    ensures
        r@ == sha256_of(bytes@),
        r@.len() == 32,
{
    <sha2::Sha256 as sha2::Digest>::digest(bytes).to_vec()
}

/// Relies on sha2::Sha384 through digest::Digest::digest: the 48-byte
/// SHA-384 digest of the input, a function of the input bytes alone.
#[verifier::external_body]
fn sha384_digest(bytes: &[u8]) -> (r: Vec<u8>)
    ensures
        r@ == sha384_of(bytes@),
        r@.len() == 48,
{
    <sha2::Sha384 as sha2::Digest>::digest(bytes).to_vec()
}

/// Relies on sha2::Sha512 through digest::Digest::digest: the 64-byte
/// SHA-512 digest of the input, a function of the input bytes alone.
#[verifier::external_body]
fn sha512_digest(bytes: &[u8]) -> (r: Vec<u8>)
    ensures
        r@ == sha512_of(bytes@),
        r@.len() == 64,
{
    <sha2::Sha512 as sha2::Digest>::digest(bytes).to_vec()
}

/// The algorithm named by a configuration string, or `None` when the name
/// is outside the supported set.
pub open spec fn algorithm_of(name: Seq<char>) -> Option<HashAlgorithm> {
    if name == "sha256"@ {
        Option::Some(HashAlgorithm::Sha256)
    } else if name == "sha384"@ {
        Option::Some(HashAlgorithm::Sha384)
    } else if name == "sha512"@ {
        Option::Some(HashAlgorithm::Sha512)
    } else {
        Option::None
    }
}

/// Validates a configured algorithm name against the closed supported set.
pub fn parse_algorithm(name: &String) -> (r: Option<HashAlgorithm>)
    ensures
        r == algorithm_of(name@),
{
    if name.eq(&"sha256".to_owned()) {
        Option::Some(HashAlgorithm::Sha256)
    } else if name.eq(&"sha384".to_owned()) {
        Option::Some(HashAlgorithm::Sha384)
    } else if name.eq(&"sha512".to_owned()) {
        Option::Some(HashAlgorithm::Sha512)
    } else {
        Option::None
    }
}

/// The lowercase hexadecimal character of a value below sixteen.
pub open spec fn hex_char(n: u8) -> char {
    if n == 0 {
        '0'
    } else if n == 1 {
        '1'
    } else if n == 2 {
        '2'
    } else if n == 3 {
        '3'
    } else if n == 4 {
        '4'
    } else if n == 5 {
        '5'
    } else if n == 6 {
        '6'
    } else if n == 7 {
        '7'
    } else if n == 8 {
        '8'
    } else if n == 9 {
        '9'
    } else if n == 10 {
        'a'
    } else if n == 11 {
        'b'
    } else if n == 12 {
        'c'
    } else if n == 13 {
        'd'
    } else if n == 14 {
        'e'
    } else {
        'f'
    }
}

/// The two lowercase hexadecimal characters of one byte.
pub open spec fn hex_pair(b: u8) -> Seq<char> {
    seq![hex_char(b / 16), hex_char(b % 16)]
}

/// The lowercase hexadecimal encoding of a byte sequence.
pub open spec fn hex_of(bytes: Seq<u8>) -> Seq<char>
    decreases bytes.len(),
{
    if bytes.len() == 0 {
        Seq::empty()
    } else {
        hex_of(bytes.drop_last()) + hex_pair(bytes.last())
    }
}

/// The hexadecimal encoding has two characters per byte.
pub proof fn lemma_hex_of_len(bytes: Seq<u8>)
    ensures
        hex_of(bytes).len() == 2 * bytes.len(),
    decreases bytes.len(),
{
    if bytes.len() > 0 {
        lemma_hex_of_len(bytes.drop_last());
    }
}

fn hex_digit_str(n: u8) -> (r: &'static str)
    requires
        n < 16,
    ensures
        r@ == seq![hex_char(n)],
{
    proof {
        reveal_strlit("0");
        reveal_strlit("1");
        reveal_strlit("2");
        reveal_strlit("3");
        reveal_strlit("4");
        reveal_strlit("5");
        reveal_strlit("6");
        reveal_strlit("7");
        reveal_strlit("8");
        reveal_strlit("9");
        reveal_strlit("a");
        reveal_strlit("b");
        reveal_strlit("c");
        reveal_strlit("d");
        reveal_strlit("e");
        reveal_strlit("f");
    }
    let r = match n {
        0 => "0",
        1 => "1",
        2 => "2",
        3 => "3",
        4 => "4",
        5 => "5",
        6 => "6",
        7 => "7",
        8 => "8",
        9 => "9",
        10 => "a",
        11 => "b",
        12 => "c",
        13 => "d",
        14 => "e",
        _ => "f",
    };
    proof {
        assert(r@ =~= seq![hex_char(n)]);
    }
    r
}

/// Encodes a byte sequence as lowercase hexadecimal, two characters per
/// byte, most significant half first.
pub fn hex_encode(bytes: &Vec<u8>) -> (r: String)
    ensures
        r@ == hex_of(bytes@),
        r@.len() == 2 * bytes@.len(),
{
    let mut s = String::new();
    let mut i: usize = 0;
    while i < bytes.len()
        invariant
            i <= bytes@.len(),
            s@ == hex_of(bytes@.take(i as int)),
        decreases bytes@.len() - i,
    {
        let b = bytes[i];
        assert(b / 16 < 16 && b % 16 < 16) by (nonlinear_arith);
        s.append(hex_digit_str(b / 16));
        s.append(hex_digit_str(b % 16));
        proof {
            let taken = bytes@.take(i as int + 1);
            assert(taken.drop_last() =~= bytes@.take(i as int));
            assert(taken.last() == bytes@[i as int]);
            assert(s@ =~= hex_of(taken));
        }
        i += 1;
    }
    proof {
        assert(bytes@.take(bytes@.len() as int) =~= bytes@);
        lemma_hex_of_len(bytes@);
    }
    s
}

/// The digest string of a byte sequence: lowercase hexadecimal of its
/// digest under the given algorithm.
pub open spec fn digest_string_of(alg: HashAlgorithm, bytes: Seq<u8>) -> Seq<char> {
    hex_of(digest_of(alg, bytes))
}

/// Computes the digest string of the given content: the digest under the
/// given algorithm, encoded as lowercase hexadecimal.
pub fn digest_content(alg: HashAlgorithm, bytes: &Vec<u8>) -> (r: String)
    ensures
        r@ == digest_string_of(alg, bytes@),
{
    let d = match alg {
        HashAlgorithm::Sha256 => sha256_digest(bytes.as_slice()),
        HashAlgorithm::Sha384 => sha384_digest(bytes.as_slice()),
        HashAlgorithm::Sha512 => sha512_digest(bytes.as_slice()),
    };
    hex_encode(&d)
}

/// The digest string is a function of the content bytes and the algorithm
/// alone: two files with identical byte content get identical digests,
/// whatever their names or paths.
pub proof fn lemma_digest_depends_on_content_alone(
    alg: HashAlgorithm,
    a: Seq<u8>,
    b: Seq<u8>,
)
    requires
        a == b,
    ensures
        digest_string_of(alg, a) == digest_string_of(alg, b),
{
}

} // verus!
