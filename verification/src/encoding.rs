use base64::Engine;
use vstd::prelude::*;

use crate::text::{chars_of, find_either, find_either_exec, lemma_find_either_bounds, string_of};

verus! {

/// What `base64`'s standard engine (padded, `+` and `/`) encodes `bytes` to.
pub uninterp spec fn base64_encode(bytes: Seq<u8>) -> Seq<char>;

/// What `base64`'s standard engine decodes `text` to: the bytes, or the text of
/// the `DecodeError` it reports.
pub uninterp spec fn base64_decode(text: Seq<char>) -> Result<Seq<u8>, Seq<char>>;

/// A successful decoding to `bytes`.
pub open spec fn decoded(bytes: Seq<u8>) -> Result<Seq<u8>, Seq<char>> {
    Ok(bytes)
}

/// `base64::engine::general_purpose::STANDARD.encode`; the result is named
/// `base64_encode`. The one fact stated beside the name is that decoding the text
/// gives the bytes back, which the crate's round-trip tests check for every engine
/// configuration. The alphabet and layout of the text are not stated.
#[verifier::external_body]
pub fn encode_base64(bytes: &[u8]) -> (r: String)
    ensures
        r@ == base64_encode(bytes@),
        base64_decode(r@) == decoded(bytes@),
{
    base64::engine::general_purpose::STANDARD.encode(bytes)
}

/// `base64::engine::general_purpose::STANDARD.decode` of the text's UTF-8 bytes;
/// the decoded bytes, or the error's `Display` text, are named `base64_decode`.
#[verifier::external_body]
pub fn decode_base64(text: &str) -> (r: Result<Vec<u8>, String>)
    ensures
        match r {
            Ok(b) => base64_decode(text@) == Ok::<Seq<u8>, Seq<char>>(b@),
            Err(m) => base64_decode(text@) == Err::<Seq<u8>, Seq<char>>(m@),
        },
{
    match base64::engine::general_purpose::STANDARD.decode(text) {
        Ok(b) => Ok(b),
        Err(e) => Err(e.to_string()),
    }
}

pub open spec fn png_data_prefix() -> Seq<char> {
    "data:image/png;base64,"@
}

/// A PNG as a `data:` URL. Its payload, decoded as an upload is, gives the PNG back.
pub fn png_data_url(png: &[u8]) -> (r: String)
    ensures
        r@ == png_data_prefix() + base64_encode(png@),
        upload_payload(r@) == decoded(png@),
{
    let mut r = String::from_str("data:image/png;base64,");
    let enc = encode_base64(png);
    r.append(enc.as_str());
    proof {
        lemma_upload_of_data_url(png@, r@);
    }
    r
}

pub open spec fn msg_upload_format() -> Seq<char> {
    "图片数据格式无效"@
}

pub open spec fn msg_upload_decode() -> Seq<char> {
    "图片数据解码失败: "@
}

/// The bytes of an uploaded picture (`data:...;base64,<payload>`): the part after the
/// first comma, base64-decoded.
pub open spec fn upload_payload(upload: Seq<char>) -> Result<Seq<u8>, Seq<char>> {
    match find_either(upload, ',', ',', 0) {
        None => Err(msg_upload_format()),
        Some(i) => match base64_decode(upload.subrange(i + 1, upload.len() as int)) {
            Ok(b) => Ok(b),
            Err(m) => Err(msg_upload_decode() + m),
        },
    }
}

pub open spec fn bytes_result_view(r: Result<Vec<u8>, String>) -> Result<Seq<u8>, Seq<char>> {
    match r {
        Ok(b) => Ok(b@),
        Err(e) => Err(e@),
    }
}

/// Decodes the payload of an uploaded picture's data URL.
pub fn decode_upload_data(upload: &str) -> (r: Result<Vec<u8>, String>)
    ensures
        bytes_result_view(r) == upload_payload(upload@),
{
    let chars = chars_of(upload);
    let comma = match find_either_exec(&chars, ',', ',', 0) {
        Some(i) => i,
        None => {
            return Err(String::from_str("图片数据格式无效"));
        },
    };
    proof {
        lemma_find_either_bounds(chars@, ',', ',', 0);
    }
    let raw = string_of(&chars, comma + 1, chars.len());
    match decode_base64(raw.as_str()) {
        Ok(b) => Ok(b),
        Err(m) => {
            let mut e = String::from_str("图片数据解码失败: ");
            e.append(m.as_str());
            Err(e)
        },
    }
}


/// The payload of a PNG's data URL decodes back to the PNG.
proof fn lemma_upload_of_data_url(png: Seq<u8>, text: Seq<char>)
    requires
        text == png_data_prefix() + base64_encode(png),
        base64_decode(base64_encode(png)) == decoded(png),
    ensures
        upload_payload(text) == Ok::<Seq<u8>, Seq<char>>(png),
{
    reveal_strlit("data:image/png;base64,");
    let p = png_data_prefix();
    assert forall|i: int| 0 <= i < 21 implies text[i] != ',' by {
        assert(text[i] == p[i]);
    }
    assert(text[21] == ',');
    lemma_find_either_walk(text, 0, 21);
    assert(text.subrange(22, text.len() as int) =~= base64_encode(png));
}

proof fn lemma_find_either_walk(s: Seq<char>, from: int, at: int)
    requires
        0 <= from <= at < s.len(),
        s[at] == ',',
        forall|i: int| from <= i < at ==> s[i] != ',',
    ensures
        find_either(s, ',', ',', from) == Some(at),
    decreases at - from,
{
    if from < at {
        lemma_find_either_walk(s, from + 1, at);
    }
}

}
