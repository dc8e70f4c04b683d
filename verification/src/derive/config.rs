//! The `config` attribute.

use vstd::prelude::*;
use super::model::Item;
use super::syn_utils::AttrArgs;

verus! {

/// What the `config` attribute generates, whatever its arguments and item:
/// an empty `Config` struct.
pub open spec fn config_struct_text() -> Seq<char> {
    "struct Config {}"@
}

/// Expands the `config` attribute.
pub fn expand_config_token_stream(attr_args: AttrArgs, item: Item) -> (r: Result<String, syn::Error>)
    ensures
        r is Ok && r->Ok_0@ == config_struct_text(),
        r is Ok && r->Ok_0@ == "struct Config {}"@,
{
    Ok(String::from_str("struct Config {}"))
}

} // verus!
