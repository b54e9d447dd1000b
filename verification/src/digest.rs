//! The digest record of a rewritten manifest.
//!
//! The record pairs the path of the manifest with the SHA3-384 digest of its
//! content, written in base64 without padding, and is handed to the update
//! client as one line of JSON.

use crate::text::{append_str, chars_of, string_of};
use vstd::prelude::*;

verus! {

/// The SHA3-384 digest of `content`, as `sha3::Sha3_384` computes it.
pub uninterp spec fn sha3_384_digest(content: Seq<u8>) -> Seq<u8>;

/// The padded base64 text of `bytes` in the standard alphabet, as
/// `data_encoding::BASE64` encodes it.
pub uninterp spec fn base64_text(bytes: Seq<u8>) -> Seq<char>;

/// Calls `sha3::Sha3_384::digest`, which hashes the whole of `content` and
/// returns the digest. The digest depends on the content alone: it is
/// `sha3_384_digest` of it.
#[verifier::external_body]
fn sha3_384(content: &[u8]) -> (r: Vec<u8>)
    ensures
        r@ == sha3_384_digest(content@),
{
    <sha3::Sha3_384 as sha3::Digest>::digest(content).to_vec()
}

/// Calls `data_encoding::BASE64.encode`, which returns the encoded input.
/// The text depends on the bytes alone: it is `base64_text` of them.
#[verifier::external_body]
fn base64(bytes: &[u8]) -> (r: String)
    ensures
        r@ == base64_text(bytes@),
{
    data_encoding::BASE64.encode(bytes)
}

/// `text` without the `=` characters at its end.
pub open spec fn unpadded(text: Seq<char>) -> Seq<char>
    decreases text.len(),
{
    if text.len() > 0 && text.last() == '=' {
        unpadded(text.drop_last())
    } else {
        text
    }
}

/// Stripping removes the padding at the end and nothing else: what is left
/// is the beginning of the text and does not end in `=`, and what was removed
/// is `=` throughout.
pub proof fn lemma_unpadded(text: Seq<char>)
    ensures
        unpadded(text).len() <= text.len(),
        unpadded(text) == text.take(unpadded(text).len() as int),
        unpadded(text).len() > 0 ==> unpadded(text).last() != '=',
        forall|j: int| unpadded(text).len() <= j < text.len() ==> text[j] == '=',
    decreases text.len(),
{
    if text.len() > 0 && text.last() == '=' {
        let front = text.drop_last();
        lemma_unpadded(front);
        assert forall|j: int| unpadded(text).len() <= j < text.len() implies text[j] == '=' by {
            if j < front.len() {
                assert(front[j] == text[j]);
            }
        }
    }
}

/// Text that does not end in `=` is left as it is.
pub proof fn lemma_unpadded_keeps_content(text: Seq<char>)
    requires
        text.len() == 0 || text.last() != '=',
    ensures
        unpadded(text) == text,
{
}

/// Strips the `=` characters at the end of `text`.
pub fn strip_padding(text: &str) -> (r: String)
    ensures
        r@ == unpadded(text@),
{
    let chars = chars_of(text);
    let mut end: usize = chars.len();
    proof {
        assert(chars@.take(chars@.len() as int) == chars@);
    }
    while end > 0 && chars[end - 1] == '='
        invariant
            end <= chars.len(),
            unpadded(chars@) == unpadded(chars@.take(end as int)),
        decreases end,
    {
        proof {
            let front = chars@.take(end as int);
            assert(front.drop_last() == chars@.take(end - 1));
        }
        end -= 1;
    }
    let mut kept: Vec<char> = Vec::new();
    let mut i: usize = 0;
    while i < end
        invariant
            i <= end <= chars.len(),
            kept@ == chars@.take(i as int),
        decreases end - i,
    {
        kept.push(chars[i]);
        i += 1;
    }
    string_of(&kept)
}

/// The digit of `value`, which is below 16, in lower-case hexadecimal.
pub open spec fn hex_digit(value: u8) -> char {
    if value < 10 {
        (0x30 + value) as char
    } else {
        (0x57 + value) as char
    }
}

/// How a character stands inside a JSON string: the quotation mark and the
/// backslash behind a backslash, a control character by its short name or as
/// `\u00` and two hexadecimal digits, every other character as it is.
pub open spec fn escaped_char(c: char) -> Seq<char> {
    if c == '"' {
        seq!['\\', '"']
    } else if c == '\\' {
        seq!['\\', '\\']
    } else if c == '\n' {
        seq!['\\', 'n']
    } else if c == '\r' {
        seq!['\\', 'r']
    } else if c == '\t' {
        seq!['\\', 't']
    } else if c == '\u{8}' {
        seq!['\\', 'b']
    } else if c == '\u{c}' {
        seq!['\\', 'f']
    } else if (c as u32) < 0x20 {
        seq!['\\', 'u', '0', '0', hex_digit((c as u8) / 16), hex_digit((c as u8) % 16)]
    } else {
        seq![c]
    }
}

/// `text` as it stands inside a JSON string.
pub open spec fn escaped(text: Seq<char>) -> Seq<char>
    decreases text.len(),
{
    if text.len() == 0 {
        Seq::empty()
    } else {
        escaped(text.drop_last()) + escaped_char(text.last())
    }
}

/// The record as JSON: one object with the key `CatalogHashValues`, whose
/// value is an array of one object with the keys `Key` and `Value`.
pub open spec fn record_json(source_path: Seq<char>, hash: Seq<char>) -> Seq<char> {
    "{\"CatalogHashValues\":[{\"Key\":\""@ + escaped(source_path) + "\",\"Value\":\""@ + escaped(
        hash,
    ) + "\"}]}"@
}

/// The digest of `content` as the record holds it.
pub open spec fn digest_text(content: Seq<u8>) -> Seq<char> {
    unpadded(base64_text(sha3_384_digest(content)))
}

/// The same content has the same digest text.
pub proof fn lemma_digest_is_determined(first: Seq<u8>, second: Seq<u8>)
    requires
        first == second,
    ensures
        digest_text(first) == digest_text(second),
{
}

fn hex_digit_of(value: u8) -> (r: char)
    requires
        value < 16,
    ensures
        r == hex_digit(value),
{
    if value < 10 {
        (0x30 + value) as char
    } else {
        (0x57 + value) as char
    }
}

fn push_escaped(out: &mut Vec<char>, c: char)
    ensures
        final(out)@ == old(out)@ + escaped_char(c),
{
    if c == '"' {
        out.push('\\');
        out.push('"');
    } else if c == '\\' {
        out.push('\\');
        out.push('\\');
    } else if c == '\n' {
        out.push('\\');
        out.push('n');
    } else if c == '\r' {
        out.push('\\');
        out.push('r');
    } else if c == '\t' {
        out.push('\\');
        out.push('t');
    } else if c == '\u{8}' {
        out.push('\\');
        out.push('b');
    } else if c == '\u{c}' {
        out.push('\\');
        out.push('f');
    } else if (c as u32) < 0x20 {
        let code: u8 = c as u8;
        out.push('\\');
        out.push('u');
        out.push('0');
        out.push('0');
        out.push(hex_digit_of(code / 16));
        out.push(hex_digit_of(code % 16));
    } else {
        out.push(c);
    }
}

/// Appends `text` to `out` as it stands inside a JSON string.
pub fn append_escaped(out: &mut Vec<char>, text: &str)
    ensures
        final(out)@ == old(out)@ + escaped(text@),
{
    let chars = chars_of(text);
    let mut i: usize = 0;
    while i < chars.len()
        invariant
            i <= chars.len(),
            chars@ == text@,
            out@ == old(out)@ + escaped(chars@.take(i as int)),
        decreases chars.len() - i,
    {
        proof {
            let next = chars@.take(i + 1);
            assert(next.drop_last() == chars@.take(i as int));
        }
        push_escaped(out, chars[i]);
        i += 1;
    }
    proof {
        assert(chars@.take(chars@.len() as int) == chars@);
    }
}

/// The digest record of a manifest.
#[derive(Debug, PartialEq, Eq)]
pub struct DigestRecord {
    source_path: String,
    hash_base64: String,
}

/// What a digest record holds, as sequences of characters.
pub struct DigestRecordView {
    pub source_path: Seq<char>,
    pub hash_base64: Seq<char>,
}

impl View for DigestRecord {
    type V = DigestRecordView;

    closed spec fn view(&self) -> DigestRecordView {
        DigestRecordView { source_path: self.source_path@, hash_base64: self.hash_base64@ }
    }
}

impl DigestRecord {
    #[verifier::type_invariant]
    spec fn unpadded_hash(&self) -> bool {
        self.hash_base64@.len() == 0 || self.hash_base64@.last() != '='
    }

    /// The record of `source_path` with the digest text `hash`, from which
    /// padding at the end is stripped.
    pub fn new(source_path: &str, hash: &str) -> (r: DigestRecord)
        ensures
            r@ == (DigestRecordView { source_path: source_path@, hash_base64: unpadded(hash@) }),
    {
        proof {
            lemma_unpadded(hash@);
        }
        DigestRecord { source_path: source_path.to_owned(), hash_base64: strip_padding(hash) }
    }

    /// The path of the manifest that the record is about.
    pub fn source_path(&self) -> (r: &str)
        ensures
            r@ == self@.source_path,
    {
        self.source_path.as_str()
    }

    /// The digest text, which carries no padding.
    pub fn hash_base64(&self) -> (r: &str)
        ensures
            r@ == self@.hash_base64,
            r@.len() == 0 || r@.last() != '=',
    {
        proof {
            use_type_invariant(self);
        }
        self.hash_base64.as_str()
    }

    /// The record as one line of JSON.
    pub fn to_json(&self) -> (r: String)
        ensures
            r@ == record_json(self@.source_path, self@.hash_base64),
    {
        let mut out: Vec<char> = Vec::new();
        append_str(&mut out, "{\"CatalogHashValues\":[{\"Key\":\"");
        append_escaped(&mut out, self.source_path.as_str());
        append_str(&mut out, "\",\"Value\":\"");
        append_escaped(&mut out, self.hash_base64.as_str());
        append_str(&mut out, "\"}]}");
        string_of(&out)
    }
}

/// The digest record of the manifest at `source_path` whose content is
/// `content`.
pub fn digest(source_path: &str, content: &[u8]) -> (r: DigestRecord)
    ensures
        r@ == (DigestRecordView { source_path: source_path@, hash_base64: digest_text(content@) }),
{
    let hash = sha3_384(content);
    let text = base64(hash.as_slice());
    DigestRecord::new(source_path, text.as_str())
}

/// The digest record, as JSON, of the manifest at `xml_path` whose content is
/// `content`.
pub fn get_hash_sha384(xml_path: &str, content: &[u8]) -> (r: String)
    ensures
        r@ == record_json(xml_path@, digest_text(content@)),
{
    digest(xml_path, content).to_json()
}

} // verus!
