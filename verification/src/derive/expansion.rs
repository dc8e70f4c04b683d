//! The outcome of expanding an attribute macro.

use vstd::prelude::*;

verus! {

/// What expanding an attribute gives, as mathematical values: the
/// generated code, an error reported as a compile error, or an abort of
/// the macro with a message (the expansion panics).
pub enum Outcome {
    Tokens(Seq<char>),
    Error(syn::Error),
    Abort(Seq<char>),
}

/// What expanding an attribute gives.
pub enum Expanded {
    /// The generated code.
    Tokens(String),
    /// An error, reported as a compile error.
    Error(syn::Error),
    /// An abort of the macro, with its message.
    Abort(String),
}

impl View for Expanded {
    type V = Outcome;

    open spec fn view(&self) -> Outcome {
        match self {
            Expanded::Tokens(s) => Outcome::Tokens(s@),
            Expanded::Error(e) => Outcome::Error(*e),
            Expanded::Abort(s) => Outcome::Abort(s@),
        }
    }
}

/// Whether an expansion's result is what the outcome says, for an outcome
/// that is not an abort.
pub open spec fn result_matches(r: Result<String, syn::Error>, o: Outcome) -> bool {
    match r {
        Ok(code) => o == Outcome::Tokens(code@),
        Err(e) => o == Outcome::Error(e),
    }
}

/// The result of an expansion that does not abort.
pub fn into_result(e: Expanded) -> (r: Result<String, syn::Error>)
    requires
        !(e@ is Abort),
    ensures
        result_matches(r, e@),
{
    match e {
        Expanded::Tokens(s) => Ok(s),
        Expanded::Error(e) => Err(e),
        Expanded::Abort(s) => Ok(s),
    }
}

} // verus!
