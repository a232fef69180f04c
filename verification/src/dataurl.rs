//! Self-contained data URLs for images: base64 encoding of file bytes
//! tagged with a MIME type inferred from the file extension, and the
//! inline SVG placeholder used when an image file cannot be read.

use vstd::prelude::*;
use vstd::utf8::encode_utf8;

use crate::escape::escape_html;
use crate::escape::spec_escape;

verus! {

/// What the base64 crate's STANDARD engine returns for these bytes.
pub uninterp spec fn base64_of(bytes: Seq<u8>) -> Seq<char>;

/// Relies on `base64`'s `STANDARD` engine: encodes arbitrary bytes as
/// standard-alphabet, padded base64; the result is a pure function of the
/// bytes alone.
#[verifier::external_body]
fn b64_encode(data: &[u8]) -> (r: String)
    ensures
        r@ == base64_of(data@),
{
    base64::Engine::encode(&base64::engine::general_purpose::STANDARD, data)
}

/// What `mime_guess` infers from this path: the first MIME type its
/// static table maps the path's extension to, or nothing.
pub uninterp spec fn mime_of(path: Seq<char>) -> Option<Seq<char>>;

/// Relies on `mime_guess::from_path` and `first_raw`: the first MIME type
/// inferred from the path's extension, if one is known; a pure function
/// of the path alone (a static table lookup).
#[verifier::external_body]
fn guess_mime(path: &str) -> (r: Option<String>)
    ensures
        match r {
            Option::Some(m) => mime_of(path@) == Option::Some(m@),
            Option::None => mime_of(path@) is None,
        },
{
    mime_guess::from_path(path).first_raw().map(|m| m.to_string())
}

/// The MIME type a file is served under: what `mime_guess` infers from
/// its path, with `text/plain` standing in when nothing is known.
pub open spec fn mime_or_plain_of(path: Seq<char>) -> Seq<char> {
    match mime_of(path) {
        Option::Some(m) => m,
        Option::None => "text/plain"@,
    }
}

/// A data URL: the MIME type and the base64 encoding of the payload.
pub open spec fn spec_data_url(data: Seq<u8>, mime: Seq<char>) -> Seq<char> {
    "data:"@ + mime + ";base64,"@ + base64_of(data)
}

/// Serializes bytes as a base64 data URL under the given MIME type.
pub fn data_url(data: &[u8], mime_type: &str) -> (r: String)
    ensures
        r@ == spec_data_url(data@, mime_type@),
{
    let mut s = String::from_str("data:");
    s.append(mime_type);
    s.append(";base64,");
    s.append(b64_encode(data).as_str());
    s
}

/// The data URL for the bytes of a file at the given path, with the MIME
/// type inferred from the path's extension.
pub fn file_data_url(path: &str, data: &Vec<u8>) -> (r: String)
    ensures
        r@ == spec_data_url(data@, mime_or_plain_of(path@)),
{
    let mime = match guess_mime(path) {
        Some(m) => m,
        None => String::from_str("text/plain"),
    };
    data_url(data.as_slice(), mime.as_str())
}

/// A solid-color SVG carrying a message, with the color and the message
/// HTML-escaped.
pub open spec fn spec_svg(message: Seq<char>, color: Seq<char>) -> Seq<char> {
    "<svg xmlns=\"http://www.w3.org/2000/svg\" width=\"400\" height=\"100\"><rect width=\"100%\" height=\"100%\" fill=\""@
        + spec_escape(color) + "\" /><text x=\"10\" y=\"55\">"@ + spec_escape(message)
        + "</text></svg>"@
}

/// The placeholder rendered in place of an image that could not be read:
/// a solid-color SVG holding the message, serialized as a data URL.
pub open spec fn spec_message_data_url(message: Seq<char>, color: Seq<char>) -> Seq<char> {
    spec_data_url(encode_utf8(spec_svg(message, color)), "image/svg+xml"@)
}

/// Generates a solid-color SVG image containing a message and serializes
/// it to a data URL.
pub fn generate_message_data_url(message: &str, color: &str) -> (r: String)
    ensures
        r@ == spec_message_data_url(message@, color@),
{
    let mut svg = String::from_str(
        "<svg xmlns=\"http://www.w3.org/2000/svg\" width=\"400\" height=\"100\"><rect width=\"100%\" height=\"100%\" fill=\"",
    );
    svg.append(escape_html(color).as_str());
    svg.append("\" /><text x=\"10\" y=\"55\">");
    svg.append(escape_html(message).as_str());
    svg.append("</text></svg>");
    let bytes = svg.as_str().as_bytes();
    data_url(bytes, "image/svg+xml")
}

} // verus!
