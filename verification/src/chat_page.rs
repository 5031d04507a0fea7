//! The chat page of the backend, rewritten so that its requests come back
//! through the gateway.

use crate::text::{chars_of, replace_all, replace_all_chars, string_of};
use flate2::read::GzDecoder;
use flate2::write::GzEncoder;
use flate2::Compression;
use std::io::{Read, Write};
use vstd::prelude::*;
use vstd::string::*;
use vstd::utf8::encode_utf8;

verus! {

/// `std::io::Error`, carried through and never looked into.
#[verifier::external_type_specification]
#[verifier::external_body]
pub struct ExIoError(std::io::Error);

/// The text a gzip stream unpacks to, if it unpacks to text.
pub uninterp spec fn gzip_decoded_text(data: Seq<u8>) -> Option<Seq<char>>;

/// What packing data into a gzip stream at the best compression level comes
/// to: the stream, or nothing where packing fails.
pub uninterp spec fn gzip_best_of(data: Seq<u8>) -> Option<Seq<u8>>;

/// `flate2::read::GzDecoder` read to its end as text: the outcome is a
/// function of the bytes alone, the text on success and an error if the
/// bytes are no gzip stream or do not unpack to UTF-8.
#[verifier::external_body]
fn gunzip_text(data: &Vec<u8>) -> (r: Result<String, std::io::Error>)
    ensures
        match r {
            Ok(text) => gzip_decoded_text(data@) == Some(text@),
            Err(_) => gzip_decoded_text(data@) is None,
        },
{
    let mut decoder = GzDecoder::new(&data[..]);
    let mut text = String::new();
    match decoder.read_to_string(&mut text) {
        Ok(_) => Ok(text),
        Err(e) => Err(e),
    }
}

/// `flate2::write::GzEncoder` over a vector, at `Compression::best()`, fed
/// all the data and finished: the outcome is a function of the data alone,
/// the stream on success and an error otherwise. The header it writes is
/// fixed, and it writes to memory only. That it succeeds is not claimed.
#[verifier::external_body]
fn gzip_best(data: &Vec<u8>) -> (r: Result<Vec<u8>, std::io::Error>)
    ensures
        match r {
            Ok(stream) => gzip_best_of(data@) == Some(stream@),
            Err(_) => gzip_best_of(data@) is None,
        },
{
    let mut encoder = GzEncoder::new(Vec::with_capacity(data.len()), Compression::best());
    match encoder.write_all(data) {
        Ok(_) => encoder.finish(),
        Err(e) => Err(e),
    }
}

/// Why the chat page could not be repacked.
#[derive(Debug, Clone, Copy, PartialEq, Eq, Structural)]
pub enum RepackError {
    /// What the backend sent is no gzip stream of text.
    Unpack,
    /// Packing the rewritten page failed.
    Pack,
}

/// The page with the addresses of the backend replaced by those of the
/// gateway: the properties under `/chat`, the API under `/api/1`.
pub open spec fn spec_rewrite(page: Seq<char>) -> Seq<char> {
    let a = replace_all(page, "}/props"@, "}/chat/props"@);
    let b = replace_all(a, "./props"@, "./chat/props"@);
    let c = replace_all(b, "}/v1"@, "}/api/1/v1"@);
    replace_all(c, "./v1"@, "./api/1/v1"@)
}

/// Rewrites the addresses in the chat page.
pub fn rewrite_chat_page(page: &str) -> (r: String)
    ensures
        r@ == spec_rewrite(page@),
{
    proof {
        reveal_strlit("}/props");
        reveal_strlit("./props");
        reveal_strlit("}/v1");
        reveal_strlit("./v1");
    }
    let page = chars_of(page);
    let a = replace_all_chars(&page, &chars_of("}/props"), &chars_of("}/chat/props"));
    let b = replace_all_chars(&a, &chars_of("./props"), &chars_of("./chat/props"));
    let c = replace_all_chars(&b, &chars_of("}/v1"), &chars_of("}/api/1/v1"));
    string_of(&replace_all_chars(&c, &chars_of("./v1"), &chars_of("./api/1/v1")))
}

/// What repacking a stream comes to: a stream that does not unpack to text
/// is refused; else the page is rewritten and packed, and the outcome is
/// that of the packing.
pub open spec fn spec_repack(compressed: Seq<u8>) -> Result<Seq<u8>, RepackError> {
    match gzip_decoded_text(compressed) {
        None => Err(RepackError::Unpack),
        Some(page) => match gzip_best_of(encode_utf8(spec_rewrite(page))) {
            Some(stream) => Ok(stream),
            None => Err(RepackError::Pack),
        },
    }
}

/// What the outcome of repacking stands for.
pub open spec fn repack_view(r: Result<Vec<u8>, RepackError>) -> Result<Seq<u8>, RepackError> {
    match r {
        Ok(stream) => Ok(stream@),
        Err(e) => Err(e),
    }
}

/// Packs a rewritten page, given as text.
pub fn pack_chat_page(page: &str) -> (r: Result<Vec<u8>, RepackError>)
    ensures
        repack_view(r) == match gzip_best_of(encode_utf8(page@)) {
            Some(stream) => Ok::<Seq<u8>, RepackError>(stream),
            None => Err::<Seq<u8>, RepackError>(RepackError::Pack),
        },
{
    let data = page.as_bytes_vec();
    match gzip_best(&data) {
        Ok(stream) => Ok(stream),
        Err(_) => Err(RepackError::Pack),
    }
}

/// Unpacks the gzip stream the backend sent as its chat page, rewrites the
/// addresses in it and packs it again. Fails with [`RepackError::Unpack`]
/// exactly if the stream does not unpack to text, and with
/// [`RepackError::Pack`] exactly if it does and packing the rewritten page
/// fails; else hands back the rewritten page, packed.
pub fn repack_chat_page(compressed: &Vec<u8>) -> (r: Result<Vec<u8>, RepackError>)
    ensures
        repack_view(r) == spec_repack(compressed@),
{
    match gunzip_text(compressed) {
        Ok(page) => {
            let rewritten = rewrite_chat_page(page.as_str());
            pack_chat_page(rewritten.as_str())
        },
        Err(_) => Err(RepackError::Unpack),
    }
}

} // verus!
