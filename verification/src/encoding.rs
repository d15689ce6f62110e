//! Base64 text and the digests that cluster codes are made of.

use vstd::prelude::*;

verus! {

/// The character that stands for a six-bit value in the URL-safe alphabet:
/// `A`-`Z`, `a`-`z`, `0`-`9`, `-`, `_`.
pub open spec fn sextet_char(v: int) -> char {
    if 0 <= v < 26 {
        (v + 65) as u8 as char
    } else if 26 <= v < 52 {
        (v - 26 + 97) as u8 as char
    } else if 52 <= v < 62 {
        (v - 52 + 48) as u8 as char
    } else if v == 62 {
        '-'
    } else {
        '_'
    }
}

/// The unpadded URL-safe base64 text of a byte sequence: every three bytes
/// give four characters, a last single byte gives two and a last pair three,
/// the unused low bits being zero.
pub open spec fn base64_text(bytes: Seq<u8>) -> Seq<char>
    decreases bytes.len(),
{
    if bytes.len() == 0 {
        Seq::empty()
    } else if bytes.len() == 1 {
        let a = bytes[0] as int;
        seq![sextet_char(a / 4), sextet_char((a % 4) * 16)]
    } else if bytes.len() == 2 {
        let a = bytes[0] as int;
        let b = bytes[1] as int;
        seq![sextet_char(a / 4), sextet_char((a % 4) * 16 + b / 16), sextet_char((b % 16) * 4)]
    } else {
        let a = bytes[0] as int;
        let b = bytes[1] as int;
        let c = bytes[2] as int;
        seq![
            sextet_char(a / 4),
            sextet_char((a % 4) * 16 + b / 16),
            sextet_char((b % 16) * 4 + c / 64),
            sextet_char(c % 64),
        ] + base64_text(bytes.skip(3))
    }
}

/// The length of the base64 text of `n` bytes.
pub open spec fn base64_len(n: nat) -> nat {
    (n / 3) * 4 + if n % 3 == 0 {
        0nat
    } else {
        (n % 3 + 1) as nat
    }
}

/// The base64 text of `n` bytes has four characters for every three
/// bytes, and two or three for what is left.
pub proof fn lemma_base64_len(bytes: Seq<u8>)
    ensures
        base64_text(bytes).len() == base64_len(bytes.len()),
    decreases bytes.len(),
{
    if bytes.len() >= 3 {
        lemma_base64_len(bytes.skip(3));
    }
}

/// Tells whether a character belongs to the URL-safe alphabet.
pub open spec fn is_url_safe(c: char) -> bool {
    ('A' <= c && c <= 'Z') || ('a' <= c && c <= 'z') || ('0' <= c && c <= '9') || c == '-' || c
        == '_'
}

/// Every character that stands for a six-bit value is URL-safe.
pub proof fn lemma_sextet_char_is_url_safe(v: int)
    ensures
        is_url_safe(sextet_char(v)),
{
}

/// Base64 text holds URL-safe characters only.
pub proof fn lemma_base64_is_url_safe(bytes: Seq<u8>, i: int)
    requires
        0 <= i < base64_text(bytes).len(),
    ensures
        is_url_safe(base64_text(bytes)[i]),
    decreases bytes.len(),
{
    let a = bytes[0] as int;
    lemma_sextet_char_is_url_safe(a / 4);
    if bytes.len() == 1 {
        lemma_sextet_char_is_url_safe((a % 4) * 16);
    } else if bytes.len() == 2 {
        let b = bytes[1] as int;
        lemma_sextet_char_is_url_safe((a % 4) * 16 + b / 16);
        lemma_sextet_char_is_url_safe((b % 16) * 4);
    } else if bytes.len() >= 3 {
        let b = bytes[1] as int;
        let c = bytes[2] as int;
        lemma_sextet_char_is_url_safe((a % 4) * 16 + b / 16);
        lemma_sextet_char_is_url_safe((b % 16) * 4 + c / 64);
        lemma_sextet_char_is_url_safe(c % 64);
        if i >= 4 {
            lemma_base64_is_url_safe(bytes.skip(3), i - 4);
        }
    }
}

/// Calls `base64::encode_config` with `base64::URL_SAFE_NO_PAD`.
///
/// Trusted: the text returned is the unpadded URL-safe base64 encoding of
/// the input. The encoder panics when the length of the text does not fit
/// in `usize`, which the precondition rules out.
#[verifier::external_body]
fn encode_url_safe_no_pad(input: &[u8]) -> (text: String)
    requires
        (input@.len() / 3) * 4 + 3 <= usize::MAX,
    ensures
        text@ == base64_text(input@),
{
    base64::encode_config(input, base64::URL_SAFE_NO_PAD)
}

/// Encodes bytes as unpadded URL-safe base64 text.
pub fn base64(input: &[u8]) -> (text: String)
    requires
        (input@.len() / 3) * 4 + 3 <= usize::MAX,
    ensures
        text@ == base64_text(input@),
{
    encode_url_safe_no_pad(input)
}

/// The SHA3-512 digest of a byte sequence.
pub uninterp spec fn sha3_512_digest(input: Seq<u8>) -> Seq<u8>;

/// Calls `sha3::Sha3_512::digest`.
///
/// Trusted: the bytes returned are the SHA3-512 digest of the input, which
/// is always 64 bytes long.
#[verifier::external_body]
fn sha3_512(input: &[u8]) -> (digest: Vec<u8>)
    ensures
        digest@ == sha3_512_digest(input@),
        digest@.len() == 64,
{
    <sha3::Sha3_512 as sha3::Digest>::digest(input).to_vec()
}

/// The text that `base64_sha3` gives for an input: the base64 text of the
/// SHA3-512 digest of the input's UTF-8 bytes.
pub open spec fn base64_sha3_text(input: Seq<char>) -> Seq<char> {
    base64_text(sha3_512_digest(vstd::utf8::encode_utf8(input)))
}

/// Hashes a string with SHA3-512 and encodes the digest as base64 text,
/// which is 86 characters long.
pub fn base64_sha3(input: &str) -> (text: String)
    ensures
        text@ == base64_sha3_text(input@),
        text@.len() == 86,
{
    let digest = sha3_512(input.as_bytes());
    proof {
        lemma_base64_len(digest@);
    }
    base64(digest.as_slice())
}

} // verus!
