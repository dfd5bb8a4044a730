//! gzip compression through the `flate2` crate.
use vstd::prelude::*;

use vstd::utf8::encode_utf8;

verus! {

/// Name for the gzip stream `flate2`'s `GzEncoder` writes for `data` at
/// compression `level`.
pub uninterp spec fn gzip_of(level: u32, data: Seq<u8>) -> Seq<u8>;

/// Name for what `flate2`'s `GzDecoder` gives when `data` is read to a
/// string: the text, or `None` when the stream is not gzip or not UTF-8.
pub uninterp spec fn gunzip_text_of(data: Seq<u8>) -> Option<Seq<char>>;

/// An optional string by its characters.
pub open spec fn text_view(s: Option<String>) -> Option<Seq<char>> {
    match s {
        Some(t) => Some(t@),
        None => None,
    }
}

/// Calls `GzEncoder::new` over a `Vec` at `Compression::new(level)`, writes
/// the UTF-8 bytes of `text` and finishes; the stream is named by
/// `gzip_of`. Levels above 10 are refused (the miniz backend asserts it);
/// writing into a `Vec` does not fail, so a stream is always given.
#[verifier::external_body]
pub fn gzip_text(text: &str, level: u32) -> (r: Option<Vec<u8>>)
    requires
        level <= 10,
    ensures
        r is Some,
        r matches Some(out) ==> out@ == gzip_of(level, encode_utf8(text@)),
{
    let mut encoder = flate2::write::GzEncoder::new(Vec::new(), flate2::Compression::new(level));
    match std::io::Write::write_all(&mut encoder, text.as_bytes()) {
        Ok(()) => {},
        Err(_) => return None,
    }
    encoder.finish().ok()
}

/// Calls `GzDecoder::new` on `data` and `Read::read_to_string`; the outcome
/// is named by `gunzip_text_of`. A stream that `gzip_text` wrote for a text
/// decodes to that text.
#[verifier::external_body]
pub fn gunzip_text(data: &Vec<u8>) -> (r: Option<String>)
    ensures
        text_view(r) == gunzip_text_of(data@),
        forall|level: u32, t: Seq<char>| data@ == #[trigger] gzip_of(level, encode_utf8(t))
            ==> text_view(r) == Some(t),
{
    let mut decoder = flate2::read::GzDecoder::new(&data[..]);
    let mut out = String::new();
    match std::io::Read::read_to_string(&mut decoder, &mut out) {
        Ok(_) => Some(out),
        Err(_) => None,
    }
}

} // verus!
