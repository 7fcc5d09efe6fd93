use vstd::prelude::*;
use vstd::string::StringExecFns;

verus! {

/// A classified failure of one execution call.
///
/// Every failure a caller can see is exactly one of these four kinds; there is
/// no unclassified fallthrough. Each variant carries its underlying cause as
/// plain text.
#[derive(Debug)]
pub enum GeminiError {
    /// The external program could not be launched; carries the OS cause.
    CliLaunchFailed(String),
    /// Output did not match the expected JSON shape; carries the parser diagnostic.
    JsonParseFailed(String),
    /// The program ran but reported an application-level error in its
    /// structured output; carries the remote message.
    ApiError(String),
    /// The program exited with a non-zero status; carries the captured
    /// diagnostic-stream text.
    RuntimeError(String),
}

impl GeminiError {
    /// Render the error as text: a fixed phrase naming the kind, followed by
    /// the cause where the kind carries one.
    pub fn message(&self) -> (r: String)
        ensures
            match self {
                GeminiError::CliLaunchFailed(_) => r@ == "Failed to start Gemini CLI. Is it installed?"@,
                GeminiError::JsonParseFailed(_) => r@ == "Failed to parse JSON output"@,
                GeminiError::ApiError(m) => r@ == "Gemini API Error: "@ + m@,
                GeminiError::RuntimeError(m) => r@ == "Runtime Error: "@ + m@,
            },
    {
        match self {
            GeminiError::CliLaunchFailed(_) => "Failed to start Gemini CLI. Is it installed?".to_owned(),
            GeminiError::JsonParseFailed(_) => "Failed to parse JSON output".to_owned(),
            GeminiError::ApiError(m) => "Gemini API Error: ".to_owned().concat(m.as_str()),
            GeminiError::RuntimeError(m) => "Runtime Error: ".to_owned().concat(m.as_str()),
        }
    }
}

} // verus!
