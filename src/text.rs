//! Turning the engine's raw output bytes into text. The decoding is chosen
//! once per platform and never fails: malformed bytes become U+FFFD.
use vstd::prelude::*;

verus! {

/// How the engine's output bytes are read as text.
#[derive(Clone, Copy, Debug, PartialEq, Eq, Structural)]
pub enum TextDecoding {
    /// The GBK double-byte code page, as the engine speaks on Windows.
    Gbk,
    /// UTF-8, with malformed sequences replaced.
    Utf8Lossy,
}

/// Every byte is below 0x80.
pub open spec fn is_ascii_bytes(bytes: Seq<u8>) -> bool {
    forall|i: int| 0 <= i < bytes.len() ==> #[trigger] bytes[i] < 0x80
}

/// The characters whose code points are the given bytes.
pub open spec fn ascii_chars(bytes: Seq<u8>) -> Seq<char> {
    bytes.map_values(|b: u8| b as char)
}

/// What `encoding_rs` makes of `bytes` read as GBK.
pub uninterp spec fn gbk_decoded(bytes: Seq<u8>) -> Seq<char>;

/// What `String::from_utf8_lossy` makes of `bytes`.
pub uninterp spec fn utf8_lossy_decoded(bytes: Seq<u8>) -> Seq<char>;

/// Relies on `encoding_rs::GBK.decode`: the whole input is decoded (after BOM
/// sniffing) with malformed sequences replaced, never failing. GBK is
/// ASCII-compatible, so ASCII input reads as itself. It panics only when the
/// output size overflows `usize`, which the bound excludes.
#[verifier::external_body]
fn decode_gbk(bytes: &[u8]) -> (r: String)
    requires
        bytes@.len() <= usize::MAX / 4,
    ensures
        r@ == gbk_decoded(bytes@),
        is_ascii_bytes(bytes@) ==> r@ == ascii_chars(bytes@),
{
    let (text, _, _) = encoding_rs::GBK.decode(bytes);
    text.into_owned()
}

/// Relies on `String::from_utf8_lossy`: invalid sequences become U+FFFD, and
/// valid UTF-8 (ASCII among it) reads as itself.
#[verifier::external_body]
fn decode_utf8_lossy(bytes: &[u8]) -> (r: String)
    ensures
        r@ == utf8_lossy_decoded(bytes@),
        is_ascii_bytes(bytes@) ==> r@ == ascii_chars(bytes@),
{
    String::from_utf8_lossy(bytes).into_owned()
}

/// The text of `bytes` under `decoding`.
pub open spec fn decoded(decoding: TextDecoding, bytes: Seq<u8>) -> Seq<char> {
    match decoding {
        TextDecoding::Gbk => gbk_decoded(bytes),
        TextDecoding::Utf8Lossy => utf8_lossy_decoded(bytes),
    }
}

/// Decodes one chunk of engine output. This never fails; ASCII output reads
/// as itself under either decoding.
pub fn decode_output(decoding: TextDecoding, bytes: &[u8]) -> (r: String)
    requires
        bytes@.len() <= usize::MAX / 4,
    ensures
        r@ == decoded(decoding, bytes@),
        is_ascii_bytes(bytes@) ==> r@ == ascii_chars(bytes@),
{
    match decoding {
        TextDecoding::Gbk => decode_gbk(bytes),
        TextDecoding::Utf8Lossy => decode_utf8_lossy(bytes),
    }
}

} // verus!
