//! Encodings and digests: Base64, percent-encoding, UTF-8 and SHA-256, each with its
//! mathematical definition or its name, and the calls into the crates that compute them.

use base64::Engine;
use base64ct::Encoding;
use sha2::Digest;
use vstd::prelude::*;
use vstd::utf8::decode_utf8;
use vstd::utf8::encode_utf8;
use vstd::utf8::valid_utf8;

verus! {

/// The six-bit groups of a byte string, first bits first. Where the bits of the last
/// byte do not fill a group, the group is completed with zero bits.
pub open spec fn sextets(bytes: Seq<u8>) -> Seq<int>
    decreases bytes.len(),
{
    if bytes.len() == 0 {
        seq![]
    } else if bytes.len() == 1 {
        seq![bytes[0] as int / 4, (bytes[0] as int % 4) * 16]
    } else if bytes.len() == 2 {
        seq![
            bytes[0] as int / 4,
            (bytes[0] as int % 4) * 16 + bytes[1] as int / 16,
            (bytes[1] as int % 16) * 4,
        ]
    } else {
        seq![
            bytes[0] as int / 4,
            (bytes[0] as int % 4) * 16 + bytes[1] as int / 16,
            (bytes[1] as int % 16) * 4 + bytes[2] as int / 64,
            bytes[2] as int % 64,
        ] + sextets(bytes.skip(3))
    }
}

/// The symbol of the URL-safe Base64 alphabet for a six-bit value:
/// `A`-`Z`, `a`-`z`, `0`-`9`, `-`, `_`.
pub open spec fn url_symbol(v: int) -> u8 {
    if v < 26 {
        (65 + v) as u8
    } else if v < 52 {
        (71 + v) as u8
    } else if v < 62 {
        (v - 4) as u8
    } else if v == 62 {
        45
    } else {
        95
    }
}

/// The symbol of the standard Base64 alphabet for a six-bit value:
/// `A`-`Z`, `a`-`z`, `0`-`9`, `+`, `/`.
pub open spec fn standard_symbol(v: int) -> u8 {
    if v < 26 {
        (65 + v) as u8
    } else if v < 52 {
        (71 + v) as u8
    } else if v < 62 {
        (v - 4) as u8
    } else if v == 62 {
        43
    } else {
        47
    }
}

/// The `=` signs that complete the Base64 text of `len` bytes to a multiple of four symbols.
pub open spec fn base64_padding(len: nat) -> Seq<u8> {
    if len % 3 == 1 {
        seq![61u8, 61u8]
    } else if len % 3 == 2 {
        seq![61u8]
    } else {
        seq![]
    }
}

/// URL-safe Base64 without padding.
pub open spec fn base64url_unpadded(bytes: Seq<u8>) -> Seq<char> {
    sextets(bytes).map_values(|v: int| url_symbol(v) as char)
}

/// URL-safe Base64 without padding, as ASCII bytes.
pub open spec fn base64url_bytes(bytes: Seq<u8>) -> Seq<u8> {
    sextets(bytes).map_values(|v: int| url_symbol(v))
}

/// Standard Base64 with padding, as ASCII bytes.
pub open spec fn base64_standard(bytes: Seq<u8>) -> Seq<u8> {
    sextets(bytes).map_values(|v: int| standard_symbol(v)) + base64_padding(bytes.len())
}

/// The bytes whose padded standard Base64 text is `text`, if there are any.
pub open spec fn base64_standard_decoded(text: Seq<u8>) -> Option<Seq<u8>> {
    if exists|bytes: Seq<u8>| #[trigger] base64_standard(bytes) == text {
        Some(choose|bytes: Seq<u8>| #[trigger] base64_standard(bytes) == text)
    } else {
        None
    }
}

/// True for the characters of the URL-safe Base64 alphabet.
pub open spec fn is_base64url_char(c: char) -> bool {
    ('A' <= c && c <= 'Z') || ('a' <= c && c <= 'z') || ('0' <= c && c <= '9') || c == '-' || c
        == '_'
}

/// Every six-bit group is below 64, and `n` bytes give `(4n + 2) / 3` groups.
pub proof fn lemma_sextets_shape(bytes: Seq<u8>)
    ensures
        sextets(bytes).len() == (4 * bytes.len() + 2) / 3,
        forall|i: int| 0 <= i < sextets(bytes).len() ==> 0 <= #[trigger] sextets(bytes)[i] < 64,
    decreases bytes.len(),
{
    if bytes.len() >= 3 {
        lemma_sextets_shape(bytes.skip(3));
    }
}

/// Unpadded URL-safe Base64 text of `n` bytes has `(4n + 2) / 3` characters, all of them in
/// the URL-safe alphabet; so none is `+`, `/` or `=`.
pub proof fn lemma_base64url_shape(bytes: Seq<u8>)
    ensures
        base64url_unpadded(bytes).len() == (4 * bytes.len() + 2) / 3,
        forall|i: int|
            0 <= i < base64url_unpadded(bytes).len() ==> is_base64url_char(
                #[trigger] base64url_unpadded(bytes)[i],
            ),
        forall|i: int|
            0 <= i < base64url_unpadded(bytes).len() ==> {
                let c = #[trigger] base64url_unpadded(bytes)[i];
                c != '+' && c != '/' && c != '='
            },
{
    lemma_sextets_shape(bytes);
    assert forall|i: int| 0 <= i < base64url_unpadded(bytes).len() implies is_base64url_char(
        #[trigger] base64url_unpadded(bytes)[i],
    ) by {
        let v = sextets(bytes)[i];
        assert(0 <= v < 64);
        assert(base64url_unpadded(bytes)[i] == url_symbol(v) as char);
    }
}

/// The standard alphabet gives different symbols to different six-bit values, and none
/// of them is the padding sign.
pub proof fn lemma_standard_symbol_injective(a: int, b: int)
    requires
        0 <= a < 64,
        0 <= b < 64,
    ensures
        standard_symbol(a) != 61,
        standard_symbol(a) == standard_symbol(b) ==> a == b,
{
}

/// Byte strings of one length with the same six-bit groups are equal.
pub proof fn lemma_sextets_injective(a: Seq<u8>, b: Seq<u8>)
    requires
        a.len() == b.len(),
        sextets(a) == sextets(b),
    ensures
        a == b,
    decreases a.len(),
{
    if a.len() == 0 {
        assert(a =~= b);
    } else if a.len() == 1 {
        assert(sextets(a)[0] == sextets(b)[0]);
        assert(sextets(a)[1] == sextets(b)[1]);
        assert(a[0] == b[0]);
        assert(a =~= b);
    } else if a.len() == 2 {
        assert(sextets(a)[0] == sextets(b)[0]);
        assert(sextets(a)[1] == sextets(b)[1]);
        assert(sextets(a)[2] == sextets(b)[2]);
        assert(a[0] == b[0]);
        assert(a[1] == b[1]);
        assert(a =~= b);
    } else {
        let head_a = seq![
            a[0] as int / 4,
            (a[0] as int % 4) * 16 + a[1] as int / 16,
            (a[1] as int % 16) * 4 + a[2] as int / 64,
            a[2] as int % 64,
        ];
        let head_b = seq![
            b[0] as int / 4,
            (b[0] as int % 4) * 16 + b[1] as int / 16,
            (b[1] as int % 16) * 4 + b[2] as int / 64,
            b[2] as int % 64,
        ];
        assert(sextets(a) == head_a + sextets(a.skip(3)));
        assert(sextets(b) == head_b + sextets(b.skip(3)));
        assert(sextets(a)[0] == head_a[0] && sextets(b)[0] == head_b[0]);
        assert(sextets(a)[1] == head_a[1] && sextets(b)[1] == head_b[1]);
        assert(sextets(a)[2] == head_a[2] && sextets(b)[2] == head_b[2]);
        assert(sextets(a)[3] == head_a[3] && sextets(b)[3] == head_b[3]);
        assert(a[0] == b[0]);
        assert(a[1] == b[1]);
        assert(a[2] == b[2]);
        assert(sextets(a.skip(3)) =~= sextets(a).skip(4));
        assert(sextets(b.skip(3)) =~= sextets(b).skip(4));
        lemma_sextets_injective(a.skip(3), b.skip(3));
        assert forall|i: int| 0 <= i < a.len() implies a[i] == b[i] by {
            if i >= 3 {
                assert(a[i] == a.skip(3)[i - 3]);
                assert(b[i] == b.skip(3)[i - 3]);
            }
        }
        assert(a =~= b);
    }
}

/// The padded standard text of `n` bytes has `4 * ceil(n / 3)` symbols; those before
/// the padding are no padding signs.
pub proof fn lemma_base64_standard_shape(bytes: Seq<u8>)
    ensures
        base64_standard(bytes).len() == 4 * ((bytes.len() + 2) / 3),
        forall|i: int|
            0 <= i < sextets(bytes).len() ==> #[trigger] base64_standard(bytes)[i]
                == standard_symbol(sextets(bytes)[i]) && base64_standard(bytes)[i] != 61,
        forall|i: int|
            sextets(bytes).len() <= i < base64_standard(bytes).len()
                ==> #[trigger] base64_standard(bytes)[i] == 61,
{
    lemma_sextets_shape(bytes);
    assert forall|i: int| 0 <= i < sextets(bytes).len() implies #[trigger] base64_standard(
        bytes,
    )[i] == standard_symbol(sextets(bytes)[i]) && base64_standard(bytes)[i] != 61 by {
        lemma_standard_symbol_injective(sextets(bytes)[i], 0);
    }
}

/// Different byte strings have different padded standard texts.
pub proof fn lemma_base64_standard_injective(a: Seq<u8>, b: Seq<u8>)
    requires
        base64_standard(a) == base64_standard(b),
    ensures
        a == b,
{
    lemma_base64_standard_shape(a);
    lemma_base64_standard_shape(b);
    lemma_sextets_shape(a);
    lemma_sextets_shape(b);
    let text = base64_standard(a);
    if a.len() != b.len() {
        // Both lengths lie in one block of three; the padding tells them apart.
        let n = text.len() as int;
        assert(n >= 4);
        if sextets(a).len() < sextets(b).len() {
            assert(base64_standard(a)[sextets(a).len() as int] == 61);
            assert(base64_standard(b)[sextets(a).len() as int] != 61);
        } else {
            assert(sextets(b).len() < sextets(a).len());
            assert(base64_standard(b)[sextets(b).len() as int] == 61);
            assert(base64_standard(a)[sextets(b).len() as int] != 61);
        }
        assert(false);
    }
    assert forall|i: int| 0 <= i < sextets(a).len() implies sextets(a)[i] == sextets(b)[i] by {
        assert(base64_standard(a)[i] == base64_standard(b)[i]);
        lemma_standard_symbol_injective(sextets(a)[i], sextets(b)[i]);
    }
    assert(sextets(a) =~= sextets(b));
    lemma_sextets_injective(a, b);
}

/// Decoding undoes encoding.
pub proof fn lemma_base64_decode_encode(bytes: Seq<u8>)
    ensures
        base64_standard_decoded(base64_standard(bytes)) == Some(bytes),
{
    let text = base64_standard(bytes);
    assert(base64_standard(bytes) == text);
    let found = choose|other: Seq<u8>| #[trigger] base64_standard(other) == text;
    lemma_base64_standard_injective(found, bytes);
}

/// The name of the SHA-256 digest of a byte string.
pub uninterp spec fn sha256(data: Seq<u8>) -> Seq<u8>;

/// Calls `Sha256::digest` of the sha2 crate. Trusted: the result is the SHA-256 digest of
/// `data`, which has 32 bytes.
#[verifier::external_body]
pub(crate) fn sha256_digest(data: &[u8]) -> (digest: Vec<u8>)
    ensures
        digest@ == sha256(data@),
        digest@.len() == 32,
{
    sha2::Sha256::digest(data).to_vec()
}

/// Calls `Base64UrlUnpadded::encode_string` of the base64ct crate. Trusted: the result is
/// the URL-safe Base64 text of `bytes` without padding. The call panics on inputs longer
/// than a quarter of the address space, which the precondition leaves out.
#[verifier::external_body]
pub(crate) fn base64url_encode(bytes: &[u8]) -> (text: String)
    requires
        bytes@.len() <= usize::MAX / 4,
    ensures
        text@ == base64url_unpadded(bytes@),
{
    base64ct::Base64UrlUnpadded::encode_string(bytes)
}

/// Calls `decode` of the base64 crate's `STANDARD` engine. Trusted: that engine accepts
/// exactly the canonical padded texts of the standard alphabet, and returns the bytes
/// that such a text stands for.
#[verifier::external_body]
pub(crate) fn base64_decode(text: &[u8]) -> (bytes: Option<Vec<u8>>)
    ensures
        match bytes {
            Some(b) => base64_standard_decoded(text@) == Some(b@),
            None => base64_standard_decoded(text@) is None,
        },
{
    base64::engine::general_purpose::STANDARD.decode(text).ok()
}

/// Calls `String::from_utf8`. Trusted: it succeeds exactly on well-formed UTF-8, and the
/// string then holds the characters that the bytes encode.
#[verifier::external_body]
pub(crate) fn string_from_utf8(bytes: Vec<u8>) -> (text: Option<String>)
    ensures
        text is Some <==> valid_utf8(bytes@),
        text matches Some(s) ==> s@ == decode_utf8(bytes@),
{
    String::from_utf8(bytes).ok()
}

/// True for the bytes that percent-encoding leaves as they are: ASCII letters and digits,
/// `-`, `.`, `_` and `~`.
pub open spec fn is_unreserved(b: u8) -> bool {
    (48 <= b && b <= 57) || (65 <= b && b <= 90) || (97 <= b && b <= 122) || b == 45 || b == 46
        || b == 95 || b == 126
}

/// The upper-case hexadecimal digit for a value below sixteen.
pub open spec fn hex_upper(n: int) -> char {
    if n < 10 {
        (48 + n) as u8 as char
    } else {
        (55 + n) as u8 as char
    }
}

/// One byte, percent-encoded.
pub open spec fn percent_encoded_byte(b: u8) -> Seq<char> {
    if is_unreserved(b) {
        seq![b as char]
    } else {
        seq!['%', hex_upper(b as int / 16), hex_upper(b as int % 16)]
    }
}

/// A byte string, percent-encoded byte by byte.
pub open spec fn percent_encoded(bytes: Seq<u8>) -> Seq<char>
    decreases bytes.len(),
{
    if bytes.len() == 0 {
        seq![]
    } else {
        percent_encoded(bytes.drop_last()) + percent_encoded_byte(bytes.last())
    }
}

/// True for the characters that percent-encoded text is made of: the unreserved ones,
/// `%`, and the upper-case hexadecimal digits.
pub open spec fn is_url_safe(c: char) -> bool {
    ('A' <= c && c <= 'Z') || ('a' <= c && c <= 'z') || ('0' <= c && c <= '9') || c == '-' || c
        == '.' || c == '_' || c == '~' || c == '%'
}

/// Percent-encoded text holds nothing but unreserved characters and `%`; so none of
/// the characters that part the pieces of a URL.
pub proof fn lemma_percent_encoded_is_url_safe(bytes: Seq<u8>)
    ensures
        forall|i: int|
            0 <= i < percent_encoded(bytes).len() ==> is_url_safe(
                #[trigger] percent_encoded(bytes)[i],
            ),
    decreases bytes.len(),
{
    if bytes.len() > 0 {
        lemma_percent_encoded_is_url_safe(bytes.drop_last());
        let head = percent_encoded(bytes.drop_last());
        let last = percent_encoded_byte(bytes.last());
        assert forall|i: int| 0 <= i < last.len() implies is_url_safe(#[trigger] last[i]) by {
            let b = bytes.last();
            if !is_unreserved(b) {
                assert(0 <= b as int / 16 < 16 && 0 <= b as int % 16 < 16);
            }
        }
        assert forall|i: int| 0 <= i < percent_encoded(bytes).len() implies is_url_safe(
            #[trigger] percent_encoded(bytes)[i],
        ) by {
            if i < head.len() {
                assert(percent_encoded(bytes)[i] == head[i]);
            } else {
                assert(percent_encoded(bytes)[i] == last[i - head.len()]);
            }
        }
    }
}

/// The percent-encoding of a string's UTF-8 bytes.
pub open spec fn url_encoded(text: Seq<char>) -> Seq<char> {
    percent_encoded(encode_utf8(text))
}

/// Calls `encode` of the urlencoding crate. Trusted: every byte of the string's UTF-8
/// form other than ASCII letters, digits, `-`, `.`, `_` and `~` is replaced by `%` and
/// its two upper-case hexadecimal digits.
#[verifier::external_body]
pub(crate) fn url_encode(text: &str) -> (encoded: String)
    ensures
        encoded@ == url_encoded(text@),
{
    urlencoding::encode(text).into_owned()
}

} // verus!
