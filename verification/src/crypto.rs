//! Digests, message authentication codes and text encodings used to sign
//! requests.

use base64::Engine;
use hmac::{Hmac, Mac};
use sha2::Digest;
use vstd::prelude::*;
use vstd::utf8::encode_utf8;

verus! {

/// The lower-case hexadecimal digit of a value below sixteen.
pub open spec fn hex_digit(v: int) -> char {
    if v < 10 {
        (('0' as int) + v) as char
    } else {
        (('a' as int) + v - 10) as char
    }
}

/// Lower-case hexadecimal text of bytes: two digits per byte, high half first.
pub open spec fn spec_hex_lower(b: Seq<u8>) -> Seq<char>
    decreases b.len(),
{
    if b.len() == 0 {
        Seq::<char>::empty()
    } else {
        seq![hex_digit(b[0] as int / 16), hex_digit(b[0] as int % 16)] + spec_hex_lower(
            b.drop_first(),
        )
    }
}

/// HMAC-SHA256 of a message under a key.
pub uninterp spec fn spec_hmac_sha256(key: Seq<u8>, msg: Seq<u8>) -> Seq<u8>;

/// HMAC-SHA512 of a message under a key.
pub uninterp spec fn spec_hmac_sha512(key: Seq<u8>, msg: Seq<u8>) -> Seq<u8>;

/// SHA-256 digest of a message.
pub uninterp spec fn spec_sha256(msg: Seq<u8>) -> Seq<u8>;

/// MD5 digest of a message.
pub uninterp spec fn spec_md5(msg: Seq<u8>) -> Seq<u8>;

/// The character of a six-bit value in the standard base64 alphabet:
/// `A`-`Z`, `a`-`z`, `0`-`9`, `+`, `/`.
pub open spec fn base64_char(v: int) -> char {
    if v < 26 {
        (('A' as int) + v) as char
    } else if v < 52 {
        (('a' as int) + v - 26) as char
    } else if v < 62 {
        (('0' as int) + v - 52) as char
    } else if v == 62 {
        '+'
    } else {
        '/'
    }
}

/// Standard base64 text of bytes: each group of three bytes gives four
/// characters, six bits each, high bits first; a last group of one or two
/// bytes is filled with zero bits and padded with `=` to four characters.
#[verifier::opaque]
pub open spec fn spec_base64_encode(b: Seq<u8>) -> Seq<char>
    decreases b.len(),
{
    if b.len() == 0 {
        Seq::<char>::empty()
    } else if b.len() == 1 {
        seq![base64_char(b[0] as int / 4), base64_char((b[0] as int % 4) * 16), '=', '=']
    } else if b.len() == 2 {
        seq![
            base64_char(b[0] as int / 4),
            base64_char((b[0] as int % 4) * 16 + b[1] as int / 16),
            base64_char((b[1] as int % 16) * 4),
            '=',
        ]
    } else {
        seq![
            base64_char(b[0] as int / 4),
            base64_char((b[0] as int % 4) * 16 + b[1] as int / 16),
            base64_char((b[1] as int % 16) * 4 + b[2] as int / 64),
            base64_char(b[2] as int % 64),
        ] + spec_base64_encode(b.subrange(3, b.len() as int))
    }
}

/// Bytes that a standard base64 text decodes to, when it is valid.
pub uninterp spec fn spec_base64_decode(s: Seq<u8>) -> Option<Seq<u8>>;

/// The upper-case hexadecimal digit of a value below sixteen.
pub open spec fn hex_digit_upper(v: int) -> char {
    if v < 10 {
        (('0' as int) + v) as char
    } else {
        (('A' as int) + v - 10) as char
    }
}

/// Whether percent-encoding leaves a byte as it is: ASCII letters and
/// digits, `-`, `.`, `_` and `~`.
pub open spec fn url_unreserved(b: u8) -> bool {
    (48 <= b && b <= 57) || (65 <= b && b <= 90) || (97 <= b && b <= 122) || b == 45 || b == 46 || b == 95
        || b == 126
}

/// One byte, percent-encoded: itself when left as it is, else `%` and two
/// upper-case hexadecimal digits, high half first.
pub open spec fn url_byte_text(b: u8) -> Seq<char> {
    if url_unreserved(b) {
        seq![b as char]
    } else {
        seq!['%', hex_digit_upper(b as int / 16), hex_digit_upper(b as int % 16)]
    }
}

/// Percent-encoding of bytes, each in turn.
pub open spec fn url_encode_bytes(b: Seq<u8>) -> Seq<char>
    decreases b.len(),
{
    if b.len() == 0 {
        Seq::<char>::empty()
    } else {
        url_byte_text(b[0]) + url_encode_bytes(b.drop_first())
    }
}

/// Percent-encoding of a text as `urlencoding::encode` writes it: each
/// byte of the text's UTF-8 encoding in turn.
#[verifier::opaque]
pub open spec fn spec_url_encode(s: Seq<char>) -> Seq<char> {
    url_encode_bytes(encode_utf8(s))
}

/// `hex::encode`: lower-case hexadecimal text, two digits per byte
/// (`HEX_CHARS_LOWER`, high half first).
#[verifier::external_body]
pub(crate) fn hex_encode(b: &[u8]) -> (r: String)
    ensures
        r@ == spec_hex_lower(b@),
{
    hex::encode(b)
}

/// `Hmac::<Sha256>::new_from_slice` then `update` and `finalize`: the 32-byte
/// HMAC-SHA256 tag, named `spec_hmac_sha256`. `new_from_slice` accepts keys
/// of every length for HMAC.
#[verifier::external_body]
pub(crate) fn hmac_sha256(key: &[u8], msg: &[u8]) -> (r: Vec<u8>)
    ensures
        r@ == spec_hmac_sha256(key@, msg@),
        r@.len() == 32,
{
    match Hmac::<sha2::Sha256>::new_from_slice(key) {
        Ok(mut mac) => {
            mac.update(msg);
            mac.finalize().into_bytes().to_vec()
        },
        Err(_) => Vec::new(),
    }
}

/// `Hmac::<Sha512>::new_from_slice` then `update` and `finalize`: the 64-byte
/// HMAC-SHA512 tag, named `spec_hmac_sha512`.
#[verifier::external_body]
pub(crate) fn hmac_sha512(key: &[u8], msg: &[u8]) -> (r: Vec<u8>)
    ensures
        r@ == spec_hmac_sha512(key@, msg@),
        r@.len() == 64,
{
    match Hmac::<sha2::Sha512>::new_from_slice(key) {
        Ok(mut mac) => {
            mac.update(msg);
            mac.finalize().into_bytes().to_vec()
        },
        Err(_) => Vec::new(),
    }
}

/// `Sha256::digest`: the 32-byte SHA-256 digest, named `spec_sha256`.
#[verifier::external_body]
pub(crate) fn sha256(msg: &[u8]) -> (r: Vec<u8>)
    ensures
        r@ == spec_sha256(msg@),
        r@.len() == 32,
{
    sha2::Sha256::digest(msg).to_vec()
}

/// `md5::compute`: the 16-byte MD5 digest, named `spec_md5`.
#[verifier::external_body]
pub(crate) fn md5_digest(msg: &[u8]) -> (r: Vec<u8>)
    ensures
        r@ == spec_md5(msg@),
        r@.len() == 16,
{
    md5::compute(msg).0.to_vec()
}

/// `base64::engine::general_purpose::STANDARD.encode`, as
/// `spec_base64_encode` states.
#[verifier::external_body]
pub(crate) fn base64_encode(b: &[u8]) -> (r: String)
    ensures
        r@ == spec_base64_encode(b@),
{
    base64::engine::general_purpose::STANDARD.encode(b)
}

/// `base64::engine::general_purpose::STANDARD.decode`, named
/// `spec_base64_decode`; `None` where the text is no valid base64.
#[verifier::external_body]
pub(crate) fn base64_decode(s: &[u8]) -> (r: Option<Vec<u8>>)
    ensures
        match r {
            Some(v) => spec_base64_decode(s@) == Some(v@),
            None => spec_base64_decode(s@) is None,
        },
{
    base64::engine::general_purpose::STANDARD.decode(s).ok()
}

/// `urlencoding::encode`, as `spec_url_encode` states.
#[verifier::external_body]
pub(crate) fn url_encode(s: &str) -> (r: String)
    ensures
        r@ == spec_url_encode(s@),
{
    urlencoding::encode(s).into_owned()
}


/// `format!("{:x}", md5::compute(msg))`: the MD5 digest written by the
/// digest's `LowerHex`, two lower-case digits per byte (`{:02x}` each).
#[verifier::external_body]
pub(crate) fn md5_hex(msg: &[u8]) -> (r: String)
    ensures
        r@ == spec_hex_lower(spec_md5(msg@)),
        r@.len() == 32,
{
    format!("{:x}", md5::compute(msg))
}

/// Lower-case hexadecimal text has two ASCII characters per byte.
pub proof fn lemma_hex_lower_ascii(b: Seq<u8>)
    ensures
        spec_hex_lower(b).len() == 2 * b.len(),
        forall|i: int| 0 <= i < spec_hex_lower(b).len() ==> (#[trigger] spec_hex_lower(b)[i] as u32) < 128,
    decreases b.len(),
{
    if b.len() > 0 {
        lemma_hex_lower_ascii(b.drop_first());
        let h = seq![hex_digit(b[0] as int / 16), hex_digit(b[0] as int % 16)];
        let t = spec_hex_lower(b.drop_first());
        assert forall|i: int| 0 <= i < (h + t).len() implies ((h + t)[i] as u32) < 128 by {
            if i >= 2 {
                assert((h + t)[i] == t[i - 2]);
            }
        }
    }
}

} // verus!
