//! Digests of bytes and of documents.
use crate::json::{Json, JsonView};
use crate::text;
use sha2::{Digest, Sha256};
use vstd::prelude::*;
use vstd::utf8::*;

verus! {

broadcast use {vstd::string::group_string_axioms, vstd::utf8::group_utf8_lib};

/// What `sha2::Sha256::digest` gives for some bytes.
pub uninterp spec fn sha256(data: Seq<u8>) -> Seq<u8>;

/// What `serde_json::to_vec` gives for a document.
pub uninterp spec fn compact_json(doc: JsonView) -> Seq<u8>;

/// `sha2::Sha256::digest`: the digest of the bytes, 32 bytes long.
#[verifier::external_body]
fn sha256_bytes(data: &[u8]) -> (r: Vec<u8>)
    ensures
        r@ == sha256(data@),
        r@.len() == 32,
{
    Sha256::digest(data).to_vec()
}

/// `serde_json::Value`, which this library only builds and hands on.
#[verifier::external_type_specification]
#[verifier::external_body]
pub struct ExValue(serde_json::Value);

/// The document as a `serde_json::Value`, made by that type's own conversions, variant by
/// variant. Nothing is claimed of it here.
#[verifier::external_body]
fn to_value(doc: &Json) -> (r: serde_json::Value) {
    match doc {
        Json::Null => serde_json::Value::Null,
        Json::Bool(b) => serde_json::Value::from(*b),
        Json::Int(n) => serde_json::Value::from(*n),
        Json::UInt(n) => serde_json::Value::from(*n),
        Json::Num(n) => serde_json::Value::Number(n.clone()),
        Json::Str(s) => serde_json::Value::from(s.as_str()),
        Json::Arr(items) => items.iter().map(to_value).collect(),
        Json::Obj(fields) => fields.iter().map(|(k, v)| (k.as_str(), to_value(v))).collect(),
    }
}

/// `serde_json::to_vec`: the compact form of a document is a function of the document. It does
/// not fail on a document, whose keys are texts.
#[verifier::external_body]
fn compact(doc: &Json) -> (r: Vec<u8>)
    ensures
        r@ == compact_json(doc.model()),
{
    serde_json::to_vec(&to_value(doc)).unwrap_or_default()
}

/// A lower-case hexadecimal digit.
pub open spec fn hex_digit(n: int) -> char {
    if n < 10 {
        (48 + n) as char
    } else {
        (87 + n) as char
    }
}

/// Bytes in lower-case hexadecimal form, two digits for each.
pub open spec fn hex_form(bytes: Seq<u8>) -> Seq<char> {
    Seq::new(
        2 * bytes.len(),
        |i: int|
            if i % 2 == 0 {
                hex_digit(bytes[i / 2] as int / 16)
            } else {
                hex_digit(bytes[i / 2] as int % 16)
            },
    )
}

fn digit(n: u8) -> (r: char)
    requires
        n < 16,
    ensures
        r == hex_digit(n as int),
{
    if n < 10 {
        (48 + n) as char
    } else {
        (87 + n) as char
    }
}

fn hex_text(bytes: &[u8]) -> (r: String)
    ensures
        r@ == hex_form(bytes@),
{
    let mut out = String::new();
    let mut i: usize = 0;
    while i < bytes.len()
        invariant
            i <= bytes.len(),
            out@ == hex_form(bytes@.take(i as int)),
        decreases bytes.len() - i,
    {
        let b: u8 = bytes[i];
        out.push(digit(b / 16));
        out.push(digit(b % 16));
        i = i + 1;
        assert(out@ =~= hex_form(bytes@.take(i as int)));
    }
    assert(bytes@.take(i as int) =~= bytes@);
    out
}

proof fn hex_form_is_hex(bytes: Seq<u8>)
    requires
        bytes.len() == 32,
    ensures
        text::is_hex(hex_form(bytes)),
{
    let s = hex_form(bytes);
    assert forall|i: int| 0 <= i < s.len() implies 0 <= #[trigger] s[i] as u32 <= 127 && (48 <= s[i] as u32
        <= 57 || 97 <= s[i] as u32 <= 102) by {
        let b = bytes[i / 2] as int;
        assert(0 <= b / 16 < 16 && 0 <= b % 16 < 16);
    }
    assert(is_ascii_chars(s));
    is_ascii_chars_encode_utf8(s);
    assert forall|i: int| 0 <= i < 64 implies text::is_hex_digit(#[trigger] encode_utf8(s)[i]) by {
        assert(encode_utf8(s)[i] == s[i] as u8);
    }
}

/// The SHA-256 digest of bytes, in hexadecimal form.
pub fn sha256_hex(bytes: &[u8]) -> (r: String)
    ensures
        r@ == hex_form(sha256(bytes@)),
        text::is_hex(r@),
{
    let sum = sha256_bytes(bytes);
    proof {
        hex_form_is_hex(sum@);
    }
    hex_text(sum.as_slice())
}

/// The digest of a document in its compact form.
pub open spec fn doc_digest(doc: JsonView) -> Seq<char> {
    hex_form(sha256(compact_json(doc)))
}

/// The digest of a document in its compact form.
pub fn digest_of(doc: &Json) -> (r: String)
    ensures
        r@ == doc_digest(doc.model()),
        text::is_hex(r@),
{
    let bytes = compact(doc);
    sha256_hex(bytes.as_slice())
}

/// The hexadecimal form of bytes has two digits for each byte, the higher half first.
pub proof fn bytes_are_written_in_two_digits(bytes: Seq<u8>, i: int)
    requires
        0 <= i < bytes.len(),
    ensures
        hex_form(bytes).len() == 2 * bytes.len(),
        hex_value(hex_form(bytes)[2 * i]) * 16 + hex_value(hex_form(bytes)[2 * i + 1]) == bytes[i],
        text::is_hex_digit(hex_form(bytes)[2 * i] as u8),
        text::is_hex_digit(hex_form(bytes)[2 * i + 1] as u8),
{
    let b = bytes[i] as int;
    assert((2 * i) % 2 == 0 && (2 * i) / 2 == i);
    assert((2 * i + 1) % 2 == 1 && (2 * i + 1) / 2 == i);
    assert(0 <= b / 16 < 16 && 0 <= b % 16 < 16);
}

/// The value of a digit of lower-case hexadecimal.
pub open spec fn hex_value(c: char) -> int {
    if c <= '9' {
        c as u32 - 48
    } else {
        c as u32 - 87
    }
}

/// A document is known by the digest of its compact form, and bytes that are written alike are alike.
pub proof fn digests_are_of_the_compact_form(doc: JsonView, a: Seq<u8>, b: Seq<u8>)
    ensures
        doc_digest(doc) == hex_form(sha256(compact_json(doc))),
        hex_form(a) == hex_form(b) ==> a == b,
{
    if hex_form(a) == hex_form(b) {
        assert(hex_form(a).len() == 2 * a.len());
        assert(hex_form(b).len() == 2 * b.len());
        assert forall|i: int| 0 <= i < a.len() implies a[i] == b[i] by {
            bytes_are_written_in_two_digits(a, i);
            bytes_are_written_in_two_digits(b, i);
        }
        assert(a =~= b);
    }
}

} // verus!
