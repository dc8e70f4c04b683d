//! Attribute arguments, macro output, and the errors of `syn` that code
//! generation carries.

use vstd::prelude::*;

verus! {

/// `syn::Error`: one or more messages, each with the span it points at.
/// The library carries such errors unchanged from where they arise to the
/// macro's output.
#[verifier::external_type_specification]
#[verifier::external_body]
pub struct ExSynError(syn::Error);

/// The error of parsing `code` as a Rust type, or `None` when it parses.
///
/// Calls `syn::parse_str::<syn::Type>`. Whether a text parses depends on
/// how it lexes, which `proc-macro2` leaves to the compiler inside a macro
/// and does itself elsewhere, so nothing is claimed of the outcome; the
/// functions that use it take it as an argument.
#[verifier::external_body]
pub(crate) fn type_parse_error(code: &str) -> Option<syn::Error> {
    syn::parse_str::<syn::Type>(code).err()
}

/// What an attribute macro hands back: generated code, or an error to be
/// reported with `compile_error!` at its spans.
pub enum MacroOutput {
    Code(String),
    CompileError(syn::Error),
}

/// The output of an attribute macro: the generated code, or, when
/// generation failed, the error, to be reported with `compile_error!` (one
/// per message, at each message's span).
pub fn into_macro_output(input: Result<String, syn::Error>) -> (out: MacroOutput)
    ensures
        match input {
            Ok(code) => out matches MacroOutput::Code(c) && c@ == code@,
            Err(e) => out == MacroOutput::CompileError(e),
        },
{
    match input {
        Ok(code) => MacroOutput::Code(code),
        Err(e) => MacroOutput::CompileError(e),
    }
}

/// One argument of an attribute: `name = value` or a bare expression.
pub enum Arg {
    NameValue { name: String, value: String },
    Value(String),
}

/// The arguments of an attribute, separated by commas.
pub struct Args(pub Vec<Arg>);

/// The argument tokens of an attribute as the macro receives them.
pub enum AttrArgs {
    /// No tokens.
    Empty,
    /// Some tokens, with the outcome of parsing them as [`Args`]: the
    /// arguments, or the parse error.
    Parsed(Result<Args, syn::Error>),
}

/// Whether an attribute's arguments are rejected.
pub open spec fn attr_args_rejected(args: AttrArgs) -> bool {
    args matches AttrArgs::Parsed(Err(_))
}

/// The error with which an attribute's arguments are rejected.
pub open spec fn attr_args_err(args: AttrArgs) -> syn::Error {
    args->Parsed_0->Err_0
}

/// Reads an attribute's arguments: none when there are no tokens,
/// otherwise the parsed arguments or the parse error.
pub fn parse_attr_args(input: AttrArgs) -> (r: Result<Option<Args>, syn::Error>)
    ensures
        match input {
            AttrArgs::Empty => r is Ok && r->Ok_0 is None,
            AttrArgs::Parsed(Ok(args)) => r is Ok && r->Ok_0 == Some(args),
            AttrArgs::Parsed(Err(e)) => r is Err && r->Err_0 == e,
        },
{
    match input {
        AttrArgs::Empty => Ok(None),
        AttrArgs::Parsed(Ok(args)) => Ok(Some(args)),
        AttrArgs::Parsed(Err(e)) => Err(e),
    }
}

} // verus!
