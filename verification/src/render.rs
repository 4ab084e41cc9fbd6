//! Rendering captured container output into display markup.
//!
//! The captured bytes are decoded as UTF-8 with lossy replacement of
//! invalid sequences, terminal styling escapes are rewritten into markup
//! spans, and the result is wrapped as one opaque preformatted block so
//! downstream serialization does not re-tokenize it. The transformation is
//! pure: the same bytes always render to the same markup.

use vstd::prelude::*;

verus! {

/// What lossy UTF-8 decoding returns for these bytes: a pure function of
/// the bytes alone.
pub uninterp spec fn lossy_utf8_of(bytes: Seq<u8>) -> Seq<char>;

/// What the ANSI-to-markup rewrite returns for this text when it succeeds:
/// a pure function of the characters alone.
pub uninterp spec fn ansi_html_of(text: Seq<char>) -> Seq<char>;

/// Whether the ANSI-to-markup rewrite accepts this text: it fails only on
/// an escape sequence it cannot parse, so success too is a pure function
/// of the characters alone.
pub uninterp spec fn ansi_ok(text: Seq<char>) -> bool;

/// ansi_to_html's error: an escape sequence it cannot parse.
#[verifier::external_type_specification]
#[verifier::external_body]
pub struct ExAnsiError(ansi_to_html::Error);

/// Why rendering failed.
#[derive(Debug, Clone, Copy, PartialEq, Eq, Structural)]
pub enum RenderError {
    /// The styling rewrite rejected a malformed escape sequence.
    InvalidAnsi,
    /// The reassembled event stream could not be serialized.
    Serialize,
}

/// Relies on String::from_utf8_lossy: decodes UTF-8, replacing invalid
/// sequences with the replacement character; its documentation makes it a
/// function of the bytes alone, and bytes that are all ASCII decode to
/// themselves.
#[verifier::external_body]
fn utf8_lossy(bytes: &Vec<u8>) -> (r: String)
    ensures
        r@ == lossy_utf8_of(bytes@),
        (forall|i: int| 0 <= i < bytes@.len() ==> bytes@[i] < 0x80) ==> r@ == bytes@.map_values(
            |b: u8| b as char,
        ),
{
    String::from_utf8_lossy(bytes.as_slice()).into_owned()
}

/// Relies on ansi_to_html::convert: rewrites ANSI-styled text into HTML,
/// escaping the special characters; deterministic in its input, failing
/// only on an escape sequence it cannot parse.
#[verifier::external_body]
fn ansi_convert(text: &str) -> (r: Result<String, ansi_to_html::Error>)
    ensures
        r is Ok <==> ansi_ok(text@),
        r matches Ok(h) ==> h@ == ansi_html_of(text@),
{
    ansi_to_html::convert(text)
}

/// Rendered markup is the rewritten text wrapped as one preformatted block.
pub open spec fn wrapped_markup(text: Seq<char>) -> Seq<char> {
    "<pre><code>"@ + text + "</code></pre>"@
}

/// Render captured output: decode the bytes with lossy UTF-8, rewrite the
/// terminal styling into markup, and wrap the result as one opaque block.
/// The same bytes always yield the same markup.
pub fn render_output(bytes: &Vec<u8>) -> (r: Result<String, RenderError>)
    ensures
        r is Ok <==> ansi_ok(lossy_utf8_of(bytes@)),
        r matches Ok(h) ==> h@ == wrapped_markup(ansi_html_of(lossy_utf8_of(bytes@))),
        r matches Err(e) ==> e == RenderError::InvalidAnsi,
{
    let text = utf8_lossy(bytes);
    let converted = match ansi_convert(text.as_str()) {
        Ok(h) => h,
        Err(_) => {
            return Err(RenderError::InvalidAnsi);
        },
    };
    let mut out = String::new();
    out.append("<pre><code>");
    out.append(converted.as_str());
    out.append("</code></pre>");
    Ok(out)
}

} // verus!
