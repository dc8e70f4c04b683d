//! The `controller` attribute: a struct is kept as it is; an impl block is
//! marked as an OpenAPI controller.

use vstd::prelude::*;
use super::model::{Item, ItemImpl, ItemStruct};
use super::syn_utils::{attr_args_err, attr_args_rejected, AttrArgs};
use super::struct_text::{struct_string, struct_text};
use super::expansion::{into_result, result_matches, Expanded, Outcome};

verus! {

/// What `controller` on a struct gives: the struct unchanged.
pub open spec fn controller_struct_outcome(args: AttrArgs, item: ItemStruct) -> Outcome {
    if attr_args_rejected(args) {
        Outcome::Error(attr_args_err(args))
    } else {
        Outcome::Tokens(struct_text(item, item.ident@, false))
    }
}

/// What `controller` on an impl block gives: the block marked
/// `#[::anaheim::web::OpenApi]`.
pub open spec fn controller_impl_outcome(args: AttrArgs, item: ItemImpl) -> Outcome {
    if attr_args_rejected(args) {
        Outcome::Error(attr_args_err(args))
    } else {
        Outcome::Tokens("#[::anaheim::web::OpenApi] "@ + item.source@)
    }
}

/// What the `controller` attribute gives on an item: the expansion for a
/// struct or an impl block; an abort on any other item.
pub open spec fn controller_attribute_outcome(args: AttrArgs, item: Item) -> Outcome {
    match item {
        Item::Struct(s) => controller_struct_outcome(args, s),
        Item::Impl(i) => controller_impl_outcome(args, i),
        _ => Outcome::Abort("Controller attribute not supported on this type"@),
    }
}

fn controller_struct_expanded(args: AttrArgs, item: &ItemStruct) -> (e: Expanded)
    ensures
        e@ == controller_struct_outcome(args, *item),
{
    match args {
        AttrArgs::Parsed(Err(e)) => Expanded::Error(e),
        _ => Expanded::Tokens(struct_string(item, item.ident.as_str(), false)),
    }
}

fn controller_impl_expanded(args: AttrArgs, item: &ItemImpl) -> (e: Expanded)
    ensures
        e@ == controller_impl_outcome(args, *item),
{
    match args {
        AttrArgs::Parsed(Err(e)) => Expanded::Error(e),
        _ => {
            let s = String::from_str("#[::anaheim::web::OpenApi] ");
            Expanded::Tokens(s.concat(item.source.as_str()))
        },
    }
}

/// Expands the `controller` attribute on any item: the generated code, the
/// error to report, or the message with which the expansion aborts.
pub fn controller_attribute_expanded(attr_args: AttrArgs, item: &Item) -> (e: Expanded)
    ensures
        e@ == controller_attribute_outcome(attr_args, *item),
{
    match item {
        Item::Struct(s) => controller_struct_expanded(attr_args, s),
        Item::Impl(i) => controller_impl_expanded(attr_args, i),
        _ => Expanded::Abort(String::from_str("Controller attribute not supported on this type")),
    }
}

/// Expands `controller` on a struct.
pub fn expand_controller_struct(attr_args: AttrArgs, item: ItemStruct) -> (r: Result<String, syn::Error>)
    ensures
        result_matches(r, controller_struct_outcome(attr_args, item)),
{
    into_result(controller_struct_expanded(attr_args, &item))
}

/// Expands `controller` on an impl block.
pub fn expand_controller_impl(attr_args: AttrArgs, item: ItemImpl) -> (r: Result<String, syn::Error>)
    ensures
        result_matches(r, controller_impl_outcome(attr_args, item)),
{
    into_result(controller_impl_expanded(attr_args, &item))
}

/// Expands the `controller` attribute.
pub fn expand_controller_attribute(attr_args: AttrArgs, item: Item) -> (r: Result<String, syn::Error>)
    requires
        !(controller_attribute_outcome(attr_args, item) is Abort),
    ensures
        result_matches(r, controller_attribute_outcome(attr_args, item)),
{
    into_result(controller_attribute_expanded(attr_args, &item))
}

/// Law: `controller` on an impl block whose arguments are accepted gives
/// the block unchanged behind the `#[::anaheim::web::OpenApi]` marker; on
/// a struct it gives the struct under its own name with every field
/// attribute kept; rejected arguments give their error on either.
pub proof fn lemma_controller_marks_impl_and_keeps_struct(args: AttrArgs, item: Item)
    ensures
        match item {
            Item::Impl(i) => controller_attribute_outcome(args, item) == if attr_args_rejected(args) {
                Outcome::Error(attr_args_err(args))
            } else {
                Outcome::Tokens("#[::anaheim::web::OpenApi] "@ + i.source@)
            },
            Item::Struct(st) => controller_attribute_outcome(args, item) == if attr_args_rejected(args) {
                Outcome::Error(attr_args_err(args))
            } else {
                Outcome::Tokens(struct_text(st, st.ident@, false))
            },
            _ => controller_attribute_outcome(args, item) is Abort,
        },
{
}

} // verus!
