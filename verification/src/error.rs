//! Failures of the native engine.

use vstd::prelude::*;
use vstd::string::StringExecFns;

verus! {

/// The text that `{:?}` gives for a string: the string between double quotes,
/// with the characters escaped that the standard library escapes there.
pub uninterp spec fn debug_quoted(text: Seq<char>) -> Seq<char>;

/// Formats `text` with `{:?}`, that is with the standard library's `Debug`
/// for `str`. Nothing is claimed of the text that comes out but that it
/// depends on `text` alone.
#[verifier::external_body]
fn str_debug(text: &str) -> (quoted: String)
    ensures
        quoted@ == debug_quoted(text@),
{
    format!("{:?}", text)
}

/// A failure of the native tensor engine. It carries the engine's diagnostic
/// text and nothing else.
#[derive(Debug, PartialEq, Eq)]
pub enum TchError {
    /// The engine recorded this diagnostic while it ran a primitive.
    Torch(String),
}

impl TchError {
    /// The diagnostic text of the failure.
    pub open spec fn message(self) -> Seq<char> {
        match self {
            TchError::Torch(text) => text@,
        }
    }

    /// How the failure reads when it is shown for debugging: the name of the
    /// variant, and the quoted diagnostic in round brackets.
    pub open spec fn debug_text(self) -> Seq<char> {
        "Torch("@ + debug_quoted(self.message()) + ")"@
    }

    /// The text of the failure for debugging.
    pub fn debug_string(&self) -> (text: String)
        ensures
            text@ == self.debug_text(),
    {
        let quoted = str_debug(self.diagnostic());
        String::from_str("Torch(").concat(quoted.as_str()).concat(")")
    }

    /// The diagnostic text of the failure.
    pub fn diagnostic(&self) -> (text: &str)
        ensures
            text@ == self.message(),
    {
        match self {
            TchError::Torch(text) => text.as_str(),
        }
    }
}

/// A result as its caller sees it: the value, or the diagnostic text of the
/// failure.
pub open spec fn seen<T>(result: Result<T, TchError>) -> Result<T, Seq<char>> {
    match result {
        Ok(value) => Ok(value),
        Err(err) => Err(err.message()),
    }
}

} // verus!
