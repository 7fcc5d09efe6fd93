use vstd::prelude::*;
use crate::error::GeminiError;
use crate::json::{json_of, parse_json};
use crate::response::{GeminiJsonOutput, decode_output, spec_decode_output};

verus! {

/// The text that a byte sequence decodes to when every invalid UTF-8 run is
/// replaced; a function of the bytes alone.
pub uninterp spec fn lossy_of(bytes: Seq<u8>) -> Seq<char>;

/// Relies on `String::from_utf8_lossy`: the decoded text is a function of the
/// bytes alone.
#[verifier::external_body]
fn lossy_string(bytes: &[u8]) -> (r: String)
    ensures
        r@ == lossy_of(bytes@),
{
    String::from_utf8_lossy(bytes).into_owned()
}

/// The text with its leading and trailing whitespace removed; a function of
/// the characters alone.
pub uninterp spec fn trim_of(s: Seq<char>) -> Seq<char>;

/// Relies on `str::trim`: the trimmed text is a function of the characters
/// alone.
#[verifier::external_body]
fn trim_string(s: &str) -> (r: String)
    ensures
        r@ == trim_of(s@),
{
    s.trim().to_owned()
}

/// Classify a finished text-mode run. A non-zero exit is a runtime error
/// carrying the whole diagnostic stream as text; a successful exit yields the
/// output stream as text, trimmed at this final boundary.
pub fn finish_text(exit_ok: bool, stdout: Vec<u8>, stderr: Vec<u8>) -> (r: Result<
    String,
    GeminiError,
>)
    ensures
        exit_ok ==> (r matches Ok(t) && t@ == trim_of(lossy_of(stdout@))),
        !exit_ok ==> (r matches Err(e) && e matches GeminiError::RuntimeError(m) && m@
            == lossy_of(stderr@)),
{
    if !exit_ok {
        return Err(GeminiError::RuntimeError(lossy_string(stderr.as_slice())));
    }
    let text = lossy_string(stdout.as_slice());
    Ok(trim_string(text.as_str()))
}

/// Classify a finished JSON-mode run, in order of precedence: a non-zero exit
/// is a runtime error carrying the diagnostic stream; output that is not a
/// well-shaped response document is a decode failure; a well-shaped document
/// carrying a structured remote error is an API error even though the process
/// exited cleanly; anything else is the decoded response.
pub fn finish_json(exit_ok: bool, stdout: Vec<u8>, stderr: Vec<u8>) -> (r: Result<
    GeminiJsonOutput,
    GeminiError,
>)
    ensures
        !exit_ok ==> (r matches Err(e) && e matches GeminiError::RuntimeError(m) && m@
            == lossy_of(stderr@)),
        exit_ok ==> match json_of(stdout@) {
            None => r matches Err(e) && e is JsonParseFailed,
            Some(doc) => match spec_decode_output(doc) {
                None => r matches Err(e) && e is JsonParseFailed,
                Some(o) => match o.error {
                    Some(d) => (r matches Err(e) && e matches GeminiError::ApiError(m) && m@
                        == d.message),
                    None => (r matches Ok(out) && out@ == o),
                },
            },
        },
{
    if !exit_ok {
        return Err(GeminiError::RuntimeError(lossy_string(stderr.as_slice())));
    }
    let doc = match parse_json(stdout.as_slice()) {
        Ok(doc) => doc,
        Err(e) => {
            return Err(GeminiError::JsonParseFailed(e));
        },
    };
    let parsed = match decode_output(&doc) {
        Ok(parsed) => parsed,
        Err(e) => {
            return Err(GeminiError::JsonParseFailed(e));
        },
    };
    match parsed.error {
        Some(detail) => Err(GeminiError::ApiError(detail.message)),
        None => Ok(
            GeminiJsonOutput { response: parsed.response, stats: parsed.stats, error: None },
        ),
    }
}

} // verus!
