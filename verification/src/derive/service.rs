//! The `service` attribute. On a struct it turns the struct into the
//! service's implementation (`{Name}Impl`) and generates a cloneable
//! handle `Name` that holds it behind a trait object; on an impl block it
//! moves the public methods into the service trait (`{Name}Trait`),
//! implemented by the implementation struct and, by delegation, by the
//! handle; on a trait it generates the handle for that trait.

use vstd::prelude::*;
use super::model::{Field, Fields, FnArg, ImplItem, ImplItemFn, Item, ItemImpl, ItemStruct, ItemTrait, Pat, Signature, TraitItem, Visibility};
use super::tokens::{contains_text, lemma_contains_middle, impl_name, join, join_strings, mock_name, service_impl_name, service_mock_name, service_trait_name, texts, trait_name};
use super::syn_utils::{attr_args_err, attr_args_rejected, type_parse_error, AttrArgs};
use super::struct_text::{struct_string, struct_text};
use super::reading::{attr_list_args, fields_list_args, fields_str_values, lexed_values, list_args_of, read_struct, Reading, ReadingView};
use super::struct_new::{delegate_new_named, delegate_new_text, field_attr_outcome, field_attrs_ok, fields_named, fields_ok, fields_seq, struct_new_named, struct_new_text, FieldAttr};
use super::expansion::{into_result, result_matches, Expanded, Outcome};

verus! {

/// The message of a failed `Option::unwrap`.
pub open spec fn unwrap_none_message() -> Seq<char> {
    "called `Option::unwrap()` on a `None` value"@
}

/// The message for a method whose arguments cannot be passed on.
pub open spec fn pattern_abort_message() -> Seq<char> {
    "Service attribute not supported for functions with non identifier argument patterns"@
}

/// Whether every typed argument of a signature is bound to an identifier,
/// so that a call can pass it on.
pub open spec fn delegate_args_ok(inputs: Seq<FnArg>) -> bool {
    forall|i: int| 0 <= i < inputs.len() ==> !(#[trigger] inputs[i] matches FnArg::Typed(Pat::Other))
}

/// The arguments a delegating call passes on: the identifier patterns of
/// the typed arguments, in order; the receiver is not passed.
pub open spec fn call_args(inputs: Seq<FnArg>) -> Seq<Seq<char>>
    decreases inputs.len(),
{
    if inputs.len() == 0 {
        Seq::empty()
    } else {
        let rest = call_args(inputs.drop_last());
        match inputs.last() {
            FnArg::Typed(Pat::Ident(src)) => rest.push(src@),
            _ => rest,
        }
    }
}

/// `.await` for an `async` method, nothing otherwise.
pub open spec fn await_suffix(is_async: bool) -> Seq<char> {
    if is_async {
        ".await"@
    } else {
        ""@
    }
}

/// A method that forwards to the same method of `self.inner`:
/// `sig { self.inner.name(args) }`, with `.await` for an `async` method.
pub open spec fn delegate_method_text(sig: Signature) -> Seq<char> {
    sig.source@ + " { self.inner."@ + sig.ident@ + "("@ + join(call_args(sig.inputs@), ", "@) + ")"@
        + await_suffix(sig.is_async) + " }"@
}

fn delegate_args_ok_exec(inputs: &Vec<FnArg>) -> (r: bool)
    ensures
        r == delegate_args_ok(inputs@),
{
    let n = inputs.len();
    let mut i: usize = 0;
    while i < n
        invariant
            n == inputs@.len(),
            i <= n,
            forall|k: int| 0 <= k < i ==> !(#[trigger] inputs@[k] matches FnArg::Typed(Pat::Other)),
        decreases n - i,
    {
        match &inputs[i] {
            FnArg::Typed(Pat::Other) => {
                return false;
            },
            _ => {},
        }
        i = i + 1;
    }
    true
}

fn call_args_exec(inputs: &Vec<FnArg>) -> (r: Vec<String>)
    ensures
        texts(r@) == call_args(inputs@),
{
    let mut r: Vec<String> = Vec::new();
    let n = inputs.len();
    let mut i: usize = 0;
    while i < n
        invariant
            n == inputs@.len(),
            i <= n,
            texts(r@) =~= call_args(inputs@.take(i as int)),
        decreases n - i,
    {
        proof {
            assert(inputs@.take(i as int + 1).drop_last() =~= inputs@.take(i as int));
        }
        match &inputs[i] {
            FnArg::Typed(Pat::Ident(src)) => {
                r.push(src.clone());
            },
            _ => {},
        }
        i = i + 1;
    }
    assert(inputs@.take(n as int) =~= inputs@);
    r
}

/// A method of the service trait implemented by forwarding to the
/// service's inner object.
pub struct DelegateTraitMethodImpl(pub Signature);

impl DelegateTraitMethodImpl {
    /// Appends the forwarding method to `tokens`.
    pub fn to_tokens(&self, tokens: &mut String)
        requires
            delegate_args_ok(self.0.inputs@),
        ensures
            final(tokens)@ == old(tokens)@ + delegate_method_text(self.0),
    {
        let sig = &self.0;
        let mut s = sig.source.clone();
        s.append(" { self.inner.");
        s.append(sig.ident.as_str());
        s.append("(");
        let args = join_strings(&call_args_exec(&sig.inputs), ", ");
        s.append(args.as_str());
        s.append(")");
        let suffix = if sig.is_async { ".await" } else { "" };
        s.append(suffix);
        s.append(" }");
        tokens.append(s.as_str());
    }
}

fn delegate_method_string(sig: &Signature) -> (s: String)
    requires
        delegate_args_ok(sig.inputs@),
    ensures
        s@ == delegate_method_text(*sig),
{
    let d = DelegateTraitMethodImpl(Signature {
        source: sig.source.clone(),
        ident: sig.ident.clone(),
        is_async: sig.is_async,
        inputs: clone_inputs(&sig.inputs),
    });
    let mut s = String::new();
    d.to_tokens(&mut s);
    s
}

fn clone_inputs(inputs: &Vec<FnArg>) -> (r: Vec<FnArg>)
    ensures
        r@ == inputs@,
{
    let mut r: Vec<FnArg> = Vec::new();
    let n = inputs.len();
    let mut i: usize = 0;
    while i < n
        invariant
            n == inputs@.len(),
            i <= n,
            r@ =~= inputs@.take(i as int),
        decreases n - i,
    {
        let a = match &inputs[i] {
            FnArg::Receiver => FnArg::Receiver,
            FnArg::Typed(Pat::Ident(src)) => FnArg::Typed(Pat::Ident(src.clone())),
            FnArg::Typed(Pat::Other) => FnArg::Typed(Pat::Other),
        };
        r.push(a);
        i = i + 1;
    }
    assert(inputs@.take(n as int) =~= inputs@);
    r
}

/// The handle struct: `#[derive(Clone)] vis struct Name { inner: ::std::sync::Arc<dyn NameTrait + Send + Sync>, }`.
pub open spec fn handle_struct_text(vis: Seq<char>, name: Seq<char>, tr: Seq<char>) -> Seq<char> {
    "#[derive(Clone)] "@ + vis + " struct "@ + name + " { inner: ::std::sync::Arc<dyn "@ + tr
        + " + Send + Sync>, }"@
}

/// The test-only constructor from the trait's mock.
pub open spec fn from_mock_text(name: Seq<char>, mock: Seq<char>) -> Seq<char> {
    "impl "@ + name + " { #[cfg(test)] fn from_mock(mock: "@ + mock
        + ") -> Self { Self { inner: ::std::sync::Arc::new(mock), } } }"@
}

/// The conversion into the handle from any implementation of the trait.
pub open spec fn from_impl_text(name: Seq<char>, tr: Seq<char>) -> Seq<char> {
    "impl<T> ::std::convert::From<T> for "@ + name + " where T: "@ + tr
        + " + Send + Sync { fn from(value: T) -> Self { Self { inner: ::std::sync::Arc::new(value), } } }"@
}

fn handle_struct_string(vis: &str, name: &str, tr: &str) -> (s: String)
    ensures
        s@ == handle_struct_text(vis@, name@, tr@),
{
    let mut s = String::from_str("#[derive(Clone)] ");
    s.append(vis);
    s.append(" struct ");
    s.append(name);
    s.append(" { inner: ::std::sync::Arc<dyn ");
    s.append(tr);
    s.append(" + Send + Sync>, }");
    s
}

fn from_mock_string(name: &str, mock: &str) -> (s: String)
    ensures
        s@ == from_mock_text(name@, mock@),
{
    let mut s = String::from_str("impl ");
    s.append(name);
    s.append(" { #[cfg(test)] fn from_mock(mock: ");
    s.append(mock);
    s.append(") -> Self { Self { inner: ::std::sync::Arc::new(mock), } } }");
    s
}

fn from_impl_string(name: &str, tr: &str) -> (s: String)
    ensures
        s@ == from_impl_text(name@, tr@),
{
    let mut s = String::from_str("impl<T> ::std::convert::From<T> for ");
    s.append(name);
    s.append(" where T: ");
    s.append(tr);
    s.append(" + Send + Sync { fn from(value: T) -> Self { Self { inner: ::std::sync::Arc::new(value), } } }");
    s
}

// ---------------------------------------------------------------------
// On a struct.

/// The message with which a field stops generation, if any: its rejected
/// `#[new(..)]` attributes, or a missing name in a struct with named
/// fields.
pub open spec fn field_abort(f: Field, named: bool, reading: ReadingView) -> Option<Seq<char>> {
    match field_attr_outcome(f.attrs@, reading) {
        Err(m) => Some(m),
        Ok(_) => if named && f.ident.is_none() {
            Some(unwrap_none_message())
        } else {
            None
        },
    }
}

/// The message with which the first field that stops generation does so.
pub open spec fn fields_abort(fields: Seq<Field>, named: bool, reading: ReadingView) -> Option<Seq<char>>
    decreases fields.len(),
{
    if fields.len() == 0 {
        None
    } else {
        match fields_abort(fields.drop_last(), named, reading) {
            Some(m) => Some(m),
            None => field_abort(fields.last(), named, reading),
        }
    }
}

/// When no field stops generation, every field is accepted.
proof fn lemma_fields_abort_none(fields: Seq<Field>, named: bool, reading: ReadingView)
    requires
        fields_abort(fields, named, reading).is_none(),
    ensures
        forall|i: int| 0 <= i < fields.len() ==> {
            &&& field_attrs_ok(#[trigger] fields[i].attrs@, reading)
            &&& named ==> fields[i].ident.is_some()
        },
    decreases fields.len(),
{
    if fields.len() > 0 {
        lemma_fields_abort_none(fields.drop_last(), named, reading);
        assert forall|i: int| 0 <= i < fields.len() implies {
            &&& field_attrs_ok(#[trigger] fields[i].attrs@, reading)
            &&& named ==> fields[i].ident.is_some()
        } by {
            if i < fields.len() - 1 {
                assert(fields[i] == fields.drop_last()[i]);
            }
        }
    }
}

/// What `service` generates for a struct `Name`: the handle `Name`, its
/// `new` (which builds `NameImpl` and wraps it), its test-only
/// `from_mock`, its `From` any implementation of `NameTrait`, the struct
/// itself renamed to `NameImpl` with its fields' `#[new(..)]` attributes
/// dropped (they only direct constructor generation), and `NameImpl::new`.
pub open spec fn service_struct_text(item: ItemStruct, reading: ReadingView) -> Seq<char> {
    let name = item.ident@;
    let imp = impl_name(name);
    let tr = trait_name(name);
    handle_struct_text(item.vis@, name, tr) + " "@ + delegate_new_text(item, imp, name, reading) + " "@
        + from_mock_text(name, mock_name(name)) + " "@ + from_impl_text(name, tr) + " "@
        + struct_text(item, imp, true) + " "@ + struct_new_text(item, imp, reading)
}

/// What `service` on a struct gives.
pub open spec fn service_struct_outcome(args: AttrArgs, item: ItemStruct, reading: ReadingView) -> Outcome {
    if attr_args_rejected(args) {
        Outcome::Error(attr_args_err(args))
    } else {
        match fields_abort(fields_seq(item.fields), fields_named(item.fields), reading) {
            Some(m) => Outcome::Abort(m),
            None => Outcome::Tokens(service_struct_text(item, reading)),
        }
    }
}

fn field_list_abort(fields: &Vec<Field>, named: bool, reading: &Reading) -> (r: Option<String>)
    ensures
        match r {
            Some(m) => fields_abort(fields@, named, reading@) == Some(m@),
            None => fields_abort(fields@, named, reading@).is_none(),
        },
{
    let n = fields.len();
    let mut i: usize = 0;
    while i < n
        invariant
            n == fields@.len(),
            i <= n,
            fields_abort(fields@.take(i as int), named, reading@).is_none(),
        decreases n - i,
    {
        proof {
            assert(fields@.take(i as int + 1).drop_last() =~= fields@.take(i as int));
            if i == 0 {
                assert(fields@.take(0) =~= Seq::<Field>::empty());
            }
        }
        let f = &fields[i];
        match FieldAttr::parse_checked_with(&f.attrs, reading) {
            Err(m) => {
                proof { lemma_fields_abort_persists(fields@, i as int + 1, named, m@, reading@); }
                return Some(m);
            },
            Ok(_) => {
                if named && f.ident.is_none() {
                    let m = String::from_str("called `Option::unwrap()` on a `None` value");
                    proof { lemma_fields_abort_persists(fields@, i as int + 1, named, m@, reading@); }
                    return Some(m);
                }
            },
        }
        i = i + 1;
    }
    assert(fields@.take(n as int) =~= fields@);
    None
}

proof fn lemma_fields_abort_persists(fields: Seq<Field>, k: int, named: bool, m: Seq<char>, reading: ReadingView)
    requires
        0 <= k <= fields.len(),
        fields_abort(fields.take(k), named, reading) == Some(m),
    ensures
        fields_abort(fields, named, reading) == Some(m),
    decreases fields.len() - k,
{
    if k < fields.len() {
        assert(fields.take(k + 1).drop_last() =~= fields.take(k));
        lemma_fields_abort_persists(fields, k + 1, named, m, reading);
    } else {
        assert(fields.take(k) =~= fields);
    }
}

fn struct_fields_abort(fields: &Fields, reading: &Reading) -> (r: Option<String>)
    ensures
        match r {
            Some(m) => fields_abort(fields_seq(*fields), fields_named(*fields), reading@) == Some(m@),
            None => fields_abort(fields_seq(*fields), fields_named(*fields), reading@).is_none(),
        },
{
    match fields {
        Fields::Named(v) => field_list_abort(v, true, reading),
        Fields::Unnamed(v) => field_list_abort(v, false, reading),
        Fields::Unit => None,
    }
}

fn service_struct_expanded(args: AttrArgs, item: &ItemStruct, reading: &Reading) -> (e: Expanded)
    ensures
        e@ == service_struct_outcome(args, *item, reading@),
{
    match args {
        AttrArgs::Parsed(Err(e)) => {
            return Expanded::Error(e);
        },
        _ => {},
    }
    match struct_fields_abort(&item.fields, reading) {
        Some(m) => {
            return Expanded::Abort(m);
        },
        None => {},
    }
    proof {
        let fs = fields_seq(item.fields);
        let named = fields_named(item.fields);
        lemma_fields_abort_none(fs, named, reading@);
        assert forall|i: int| 0 <= i < fs.len() implies {
            &&& field_attrs_ok(#[trigger] fs[i].attrs@, reading@)
            &&& named ==> fs[i].ident.is_some()
        } by {
            assert(field_attrs_ok(fs[i].attrs@, reading@));
        }
        assert(fields_ok(item.fields, reading@));
    }
    let name = item.ident.as_str();
    let imp = service_impl_name(name);
    let tr = service_trait_name(name);
    let mock = service_mock_name(name);
    let mut s = handle_struct_string(item.vis.as_str(), name, tr.as_str());
    s.append(" ");
    let d = delegate_new_named(item, imp.as_str(), name, reading);
    s.append(d.as_str());
    s.append(" ");
    let fm = from_mock_string(name, mock.as_str());
    s.append(fm.as_str());
    s.append(" ");
    let fi = from_impl_string(name, tr.as_str());
    s.append(fi.as_str());
    s.append(" ");
    let it = struct_string(item, imp.as_str(), true);
    s.append(it.as_str());
    s.append(" ");
    let sn = struct_new_named(item, imp.as_str(), reading);
    s.append(sn.as_str());
    Expanded::Tokens(s)
}

/// Expands `service` on a struct, given the outcomes `reading` of parsing attribute arguments and lexing the
/// string values of its fields' attributes.
pub fn expand_service_struct(attr_args: AttrArgs, item: ItemStruct, reading: &Reading) -> (r: Result<String, syn::Error>)
    requires
        !(service_struct_outcome(attr_args, item, reading@) is Abort),
    ensures
        result_matches(r, service_struct_outcome(attr_args, item, reading@)),
{
    into_result(service_struct_expanded(attr_args, &item, reading))
}

// ---------------------------------------------------------------------
// On an impl block.

/// Whether an impl item is a `pub` method, which joins the service trait.
pub open spec fn is_trait_method(i: ImplItem) -> bool {
    i matches ImplItem::Fn(f) && f.vis is Public
}

/// The token text of a visibility.
pub open spec fn vis_text(v: Visibility) -> Seq<char> {
    match v {
        Visibility::Public => "pub"@,
        Visibility::Restricted(s) => s@,
        Visibility::Inherited => ""@,
    }
}

/// The text of a method with the visibility `vis`.
pub open spec fn method_text(m: ImplItemFn, vis: Seq<char>) -> Seq<char> {
    m.attrs@ + " "@ + vis + " "@ + m.defaultness@ + " "@ + m.sig.source@ + " "@ + m.block@
}

/// For the trait methods among `items`, in order, the text `f(items[i])`;
/// the other items give nothing.
pub open spec fn trait_method_parts(items: Seq<ImplItem>, part: spec_fn(ImplItemFn) -> Seq<char>) -> Seq<Seq<char>>
    decreases items.len(),
{
    if items.len() == 0 {
        Seq::empty()
    } else {
        let rest = trait_method_parts(items.drop_last(), part);
        match items.last() {
            ImplItem::Fn(f) => if f.vis is Public {
                rest.push(part(f))
            } else {
                rest
            },
            ImplItem::Other => rest,
        }
    }
}

/// The texts of the methods among `items` that stay in the inherent impl
/// (the ones that are not `pub`), in order, with their visibility.
pub open spec fn inherent_method_texts(items: Seq<ImplItem>) -> Seq<Seq<char>>
    decreases items.len(),
{
    if items.len() == 0 {
        Seq::empty()
    } else {
        let rest = inherent_method_texts(items.drop_last());
        match items.last() {
            ImplItem::Fn(f) => if f.vis is Public {
                rest
            } else {
                rest.push(method_text(f, vis_text(f.vis)))
            },
            ImplItem::Other => rest,
        }
    }
}

/// A trait method's declaration `sig;`.
pub open spec fn sig_decl(f: ImplItemFn) -> Seq<char> {
    f.sig.source@ + ";"@
}

/// A trait method's forwarding implementation in the handle.
pub open spec fn method_delegate(f: ImplItemFn) -> Seq<char> {
    delegate_method_text(f.sig)
}

/// A trait method as the implementation struct implements it (no
/// visibility).
pub open spec fn trait_method_text(f: ImplItemFn) -> Seq<char> {
    method_text(f, ""@)
}

/// Whether every item of the impl block is a method.
pub open spec fn all_methods(items: Seq<ImplItem>) -> bool {
    forall|i: int| 0 <= i < items.len() ==> #[trigger] items[i] is Fn
}

/// Whether every trait method's arguments can be passed on.
pub open spec fn trait_methods_delegable(items: Seq<ImplItem>) -> bool {
    forall|i: int| 0 <= i < items.len() ==> (#[trigger] is_trait_method(items[i])
        ==> delegate_args_ok(items[i]->Fn_0.sig.inputs@))
}

/// What `service` generates for `impl Name { .. }`: the trait
/// `NameTrait` declaring the `pub` methods, its implementation for the
/// handle `Name` by forwarding, its implementation for `NameImpl` with
/// those methods, and an inherent impl of `NameImpl` with the others.
pub open spec fn service_impl_text(name: Seq<char>, items: Seq<ImplItem>) -> Seq<char> {
    let imp = impl_name(name);
    let tr = trait_name(name);
    "#[cfg(test, ::anaheim::automock)] #[::anaheim::async_trait] pub trait "@ + tr + " { "@
        + join(trait_method_parts(items, |f: ImplItemFn| sig_decl(f)), " "@)
        + " } #[::anaheim::async_trait] impl "@ + tr + " for "@ + name + " { "@
        + join(trait_method_parts(items, |f: ImplItemFn| method_delegate(f)), " "@)
        + " } #[::anaheim::async_trait] impl "@ + tr + " for "@ + imp + " { "@
        + join(trait_method_parts(items, |f: ImplItemFn| trait_method_text(f)), " "@)
        + " } impl "@ + imp + " { "@ + join(inherent_method_texts(items), " "@) + " }"@
}

/// What `service` on an impl block gives, where `type_error` is the
/// outcome of parsing `NameImpl` as a type. The block must be for a type
/// named by a single identifier; a type that is not a path, and a path of
/// another shape, abort the expansion.
pub open spec fn service_impl_outcome(args: AttrArgs, item: ItemImpl, type_error: Option<syn::Error>) -> Outcome {
    if attr_args_rejected(args) {
        Outcome::Error(attr_args_err(args))
    } else {
        match item.self_ty.path {
            None => Outcome::Abort("Service attribute doesn't support type"@),
            Some(p) => match p.spec_get_ident() {
                None => Outcome::Abort(unwrap_none_message()),
                Some(name) => match type_error {
                    Some(e) => Outcome::Error(e),
                    None => if !all_methods(item.items@) {
                        Outcome::Abort("Service attribute not supported for non-function impl items"@)
                    } else if !trait_methods_delegable(item.items@) {
                        Outcome::Abort(pattern_abort_message())
                    } else {
                        Outcome::Tokens(service_impl_text(name, item.items@))
                    },
                },
            },
        }
    }
}

/// The name of the type an impl block is for, when its type is a path
/// that is a single identifier.
fn impl_self_ident(item: &ItemImpl) -> (r: Option<&String>)
    ensures
        match r {
            Some(name) => item.self_ty.path matches Some(p) && p.spec_get_ident() == Some(name@),
            None => !(item.self_ty.path matches Some(p) && p.spec_get_ident() is Some),
        },
{
    match &item.self_ty.path {
        Some(p) => {
            if !p.leading_colon && p.segments.len() == 1 && !p.segments[0].has_arguments {
                Some(&p.segments[0].ident)
            } else {
                None
            }
        },
        None => None,
    }
}

fn all_methods_exec(items: &Vec<ImplItem>) -> (r: bool)
    ensures
        r == all_methods(items@),
{
    let n = items.len();
    let mut i: usize = 0;
    while i < n
        invariant
            n == items@.len(),
            i <= n,
            forall|k: int| 0 <= k < i ==> #[trigger] items@[k] is Fn,
        decreases n - i,
    {
        match &items[i] {
            ImplItem::Other => {
                return false;
            },
            _ => {},
        }
        i = i + 1;
    }
    true
}

fn trait_methods_delegable_exec(items: &Vec<ImplItem>) -> (r: bool)
    ensures
        r == trait_methods_delegable(items@),
{
    let n = items.len();
    let mut i: usize = 0;
    while i < n
        invariant
            n == items@.len(),
            i <= n,
            forall|k: int| 0 <= k < i ==> (#[trigger] is_trait_method(items@[k])
                ==> delegate_args_ok(items@[k]->Fn_0.sig.inputs@)),
        decreases n - i,
    {
        match &items[i] {
            ImplItem::Fn(f) => {
                match f.vis {
                    Visibility::Public => {
                        if !delegate_args_ok_exec(&f.sig.inputs) {
                            assert(is_trait_method(items@[i as int]));
                            return false;
                        }
                    },
                    _ => {},
                }
            },
            _ => {},
        }
        i = i + 1;
    }
    true
}

fn vis_string(v: &Visibility) -> (s: String)
    ensures
        s@ == vis_text(*v),
{
    match v {
        Visibility::Public => String::from_str("pub"),
        Visibility::Restricted(s) => s.clone(),
        Visibility::Inherited => String::from_str(""),
    }
}

fn method_string(m: &ImplItemFn, vis: &str) -> (s: String)
    ensures
        s@ == method_text(*m, vis@),
{
    let mut s = m.attrs.clone();
    s.append(" ");
    s.append(vis);
    s.append(" ");
    s.append(m.defaultness.as_str());
    s.append(" ");
    s.append(m.sig.source.as_str());
    s.append(" ");
    s.append(m.block.as_str());
    s
}

/// The four lists of an impl block's expansion: trait declarations,
/// forwarding methods, trait methods and inherent methods.
fn impl_method_lists(items: &Vec<ImplItem>) -> (r: (Vec<String>, Vec<String>, Vec<String>, Vec<String>))
    requires
        trait_methods_delegable(items@),
    ensures
        texts(r.0@) == trait_method_parts(items@, |f: ImplItemFn| sig_decl(f)),
        texts(r.1@) == trait_method_parts(items@, |f: ImplItemFn| method_delegate(f)),
        texts(r.2@) == trait_method_parts(items@, |f: ImplItemFn| trait_method_text(f)),
        texts(r.3@) == inherent_method_texts(items@),
{
    let mut decls: Vec<String> = Vec::new();
    let mut delegates: Vec<String> = Vec::new();
    let mut methods: Vec<String> = Vec::new();
    let mut inherent: Vec<String> = Vec::new();
    let n = items.len();
    let mut i: usize = 0;
    while i < n
        invariant
            n == items@.len(),
            i <= n,
            trait_methods_delegable(items@),
            texts(decls@) =~= trait_method_parts(items@.take(i as int), |f: ImplItemFn| sig_decl(f)),
            texts(delegates@) =~= trait_method_parts(items@.take(i as int), |f: ImplItemFn| method_delegate(f)),
            texts(methods@) =~= trait_method_parts(items@.take(i as int), |f: ImplItemFn| trait_method_text(f)),
            texts(inherent@) =~= inherent_method_texts(items@.take(i as int)),
        decreases n - i,
    {
        proof {
            let t = items@.take(i as int + 1);
            assert(t.drop_last() =~= items@.take(i as int));
            assert(t.last() == items@[i as int]);
        }
        match &items[i] {
            ImplItem::Fn(f) => {
                match f.vis {
                    Visibility::Public => {
                        assert(is_trait_method(items@[i as int]));
                        let d = f.sig.source.clone().concat(";");
                        decls.push(d);
                        delegates.push(delegate_method_string(&f.sig));
                        methods.push(method_string(f, ""));
                    },
                    _ => {
                        let v = vis_string(&f.vis);
                        inherent.push(method_string(f, v.as_str()));
                    },
                }
            },
            ImplItem::Other => {},
        }
        i = i + 1;
    }
    assert(items@.take(n as int) =~= items@);
    (decls, delegates, methods, inherent)
}

/// Expands `service` on an impl block given the outcome of parsing the
/// implementation struct's name as a type.
fn service_impl_body(args: AttrArgs, item: &ItemImpl, type_error: Option<syn::Error>) -> (e: Expanded)
    ensures
        e@ == service_impl_outcome(args, *item, type_error),
{
    match args {
        AttrArgs::Parsed(Err(e)) => {
            return Expanded::Error(e);
        },
        _ => {},
    }
    let name: &String = match &item.self_ty.path {
        None => {
            return Expanded::Abort(String::from_str("Service attribute doesn't support type"));
        },
        Some(_) => match impl_self_ident(item) {
            None => {
                return Expanded::Abort(String::from_str("called `Option::unwrap()` on a `None` value"));
            },
            Some(name) => name,
        },
    };
    let imp = service_impl_name(name.as_str());
    let tr = service_trait_name(name.as_str());
    match type_error {
        Some(e) => {
            return Expanded::Error(e);
        },
        None => {},
    }
    if !all_methods_exec(&item.items) {
        return Expanded::Abort(String::from_str("Service attribute not supported for non-function impl items"));
    }
    if !trait_methods_delegable_exec(&item.items) {
        return Expanded::Abort(
            String::from_str("Service attribute not supported for functions with non identifier argument patterns"),
        );
    }
    let (decls, delegates, methods, inherent) = impl_method_lists(&item.items);
    let mut s = String::from_str("#[cfg(test, ::anaheim::automock)] #[::anaheim::async_trait] pub trait ");
    s.append(tr.as_str());
    s.append(" { ");
    s.append(join_strings(&decls, " ").as_str());
    s.append(" } #[::anaheim::async_trait] impl ");
    s.append(tr.as_str());
    s.append(" for ");
    s.append(name.as_str());
    s.append(" { ");
    s.append(join_strings(&delegates, " ").as_str());
    s.append(" } #[::anaheim::async_trait] impl ");
    s.append(tr.as_str());
    s.append(" for ");
    s.append(imp.as_str());
    s.append(" { ");
    s.append(join_strings(&methods, " ").as_str());
    s.append(" } impl ");
    s.append(imp.as_str());
    s.append(" { ");
    s.append(join_strings(&inherent, " ").as_str());
    s.append(" }");
    Expanded::Tokens(s)
}

/// Expands `service` on an impl block: parses the implementation struct's
/// name `NameImpl` as a type (as the expansion requires) and expands with
/// that outcome. Whether the name parses is left to `syn`, so the result is
/// the expansion for one of its outcomes.
fn service_impl_expanded(args: AttrArgs, item: &ItemImpl) -> (e: Expanded)
    ensures
        exists|t: Option<syn::Error>| e@ == #[trigger] service_impl_outcome(args, *item, t),
{
    let ghost a = args;
    let t = if attr_args_rejected_exec(&args) {
        None
    } else {
        match impl_self_ident(item) {
            Some(name) => {
                let imp = service_impl_name(name.as_str());
                type_parse_error(imp.as_str())
            },
            None => None,
        }
    };
    let ghost tg = t;
    let e = service_impl_body(args, item, t);
    assert(e@ == service_impl_outcome(a, *item, tg));
    e
}

fn attr_args_rejected_exec(args: &AttrArgs) -> (r: bool)
    ensures
        r == attr_args_rejected(*args),
{
    match args {
        AttrArgs::Parsed(Err(_)) => true,
        _ => false,
    }
}

/// Where an impl block does not abort when its implementation struct's
/// name parses as a type, it does not abort whatever that parse gives.
proof fn lemma_impl_abort_independent(args: AttrArgs, item: ItemImpl, t: Option<syn::Error>)
    requires
        !(service_impl_outcome(args, item, None) is Abort),
    ensures
        !(service_impl_outcome(args, item, t) is Abort),
{
}

/// Expands `service` on an impl block, given the outcome `type_error` of
/// parsing the implementation struct's name `NameImpl` as a type.
pub fn expand_service_impl_with(attr_args: AttrArgs, item: ItemImpl, type_error: Option<syn::Error>) -> (r: Result<String, syn::Error>)
    requires
        !(service_impl_outcome(attr_args, item, type_error) is Abort),
    ensures
        result_matches(r, service_impl_outcome(attr_args, item, type_error)),
{
    into_result(service_impl_body(attr_args, &item, type_error))
}

/// Expands `service` on an impl block.
pub fn expand_service_impl(attr_args: AttrArgs, item: ItemImpl) -> (r: Result<String, syn::Error>)
    requires
        !(service_impl_outcome(attr_args, item, None) is Abort),
    ensures
        exists|t: Option<syn::Error>| result_matches(r, #[trigger] service_impl_outcome(attr_args, item, t)),
{
    let ghost a = attr_args;
    let e = service_impl_expanded(attr_args, &item);
    let ghost t = choose|t: Option<syn::Error>| e@ == #[trigger] service_impl_outcome(a, item, t);
    proof { lemma_impl_abort_independent(a, item, t); }
    let r = into_result(e);
    assert(result_matches(r, service_impl_outcome(a, item, t)));
    r
}

// ---------------------------------------------------------------------
// On a trait.

/// The token texts of a trait's items, in order.
pub open spec fn trait_item_texts(items: Seq<TraitItem>) -> Seq<Seq<char>> {
    items.map_values(|t: TraitItem| t.source@)
}

/// The forwarding implementations of a trait's methods, in order.
pub open spec fn trait_delegates(items: Seq<TraitItem>) -> Seq<Seq<char>>
    decreases items.len(),
{
    if items.len() == 0 {
        Seq::empty()
    } else {
        let rest = trait_delegates(items.drop_last());
        match items.last().fn_sig {
            Some(sig) => rest.push(delegate_method_text(sig)),
            None => rest,
        }
    }
}

/// Whether every method of the trait can have its arguments passed on.
pub open spec fn trait_items_delegable(items: Seq<TraitItem>) -> bool {
    forall|i: int| 0 <= i < items.len() ==> (#[trigger] items[i].fn_sig matches Some(sig)
        ==> delegate_args_ok(sig.inputs@))
}

/// What `service` generates for `trait Name { .. }`: the handle `Name`,
/// its test-only `from_mock`, the trait renamed to `NameTrait`, its
/// implementation for the handle by forwarding, and the handle's `From`
/// any implementation.
pub open spec fn service_trait_text(item: ItemTrait) -> Seq<char> {
    let name = item.ident@;
    let tr = trait_name(name);
    handle_struct_text(item.vis@, name, tr) + " "@ + from_mock_text(name, mock_name(name))
        + " #[cfg(test, ::anaheim::automock)] #[::anaheim::async_trait] "@ + item.vis@ + " trait "@ + tr
        + " { "@ + join(trait_item_texts(item.items@), " "@) + " } #[::anaheim::async_trait] impl "@ + tr
        + " for "@ + name + " { "@ + join(trait_delegates(item.items@), " "@) + " } "@
        + from_impl_text(name, tr)
}

/// What `service` on a trait gives.
pub open spec fn service_trait_outcome(args: AttrArgs, item: ItemTrait) -> Outcome {
    if attr_args_rejected(args) {
        Outcome::Error(attr_args_err(args))
    } else if !trait_items_delegable(item.items@) {
        Outcome::Abort(pattern_abort_message())
    } else {
        Outcome::Tokens(service_trait_text(item))
    }
}

fn trait_items_delegable_exec(items: &Vec<TraitItem>) -> (r: bool)
    ensures
        r == trait_items_delegable(items@),
{
    let n = items.len();
    let mut i: usize = 0;
    while i < n
        invariant
            n == items@.len(),
            i <= n,
            forall|k: int| 0 <= k < i ==> (#[trigger] items@[k].fn_sig matches Some(sig)
                ==> delegate_args_ok(sig.inputs@)),
        decreases n - i,
    {
        match &items[i].fn_sig {
            Some(sig) => {
                if !delegate_args_ok_exec(&sig.inputs) {
                    return false;
                }
            },
            None => {},
        }
        i = i + 1;
    }
    true
}

fn trait_lists(items: &Vec<TraitItem>) -> (r: (Vec<String>, Vec<String>))
    requires
        trait_items_delegable(items@),
    ensures
        texts(r.0@) == trait_item_texts(items@),
        texts(r.1@) == trait_delegates(items@),
{
    let mut sources: Vec<String> = Vec::new();
    let mut delegates: Vec<String> = Vec::new();
    let n = items.len();
    let mut i: usize = 0;
    while i < n
        invariant
            n == items@.len(),
            i <= n,
            trait_items_delegable(items@),
            sources@.len() == i,
            texts(sources@) =~= trait_item_texts(items@.take(i as int)),
            texts(delegates@) =~= trait_delegates(items@.take(i as int)),
        decreases n - i,
    {
        proof {
            let t = items@.take(i as int + 1);
            assert(t.drop_last() =~= items@.take(i as int));
            assert(t.last() == items@[i as int]);
        }
        let ghost old_sources = sources@;
        let src = items[i].source.clone();
        sources.push(src);
        proof {
            assert forall|k: int| 0 <= k < i + 1 implies texts(sources@)[k] == trait_item_texts(items@.take(i as int + 1))[k] by {
                if k < i {
                    assert(texts(old_sources)[k] == trait_item_texts(items@.take(i as int))[k]);
                }
            }
        }
        match &items[i].fn_sig {
            Some(sig) => {
                delegates.push(delegate_method_string(sig));
            },
            None => {},
        }
        i = i + 1;
    }
    assert(items@.take(n as int) =~= items@);
    (sources, delegates)
}

fn service_trait_expanded(args: AttrArgs, item: &ItemTrait) -> (e: Expanded)
    ensures
        e@ == service_trait_outcome(args, *item),
{
    match args {
        AttrArgs::Parsed(Err(e)) => {
            return Expanded::Error(e);
        },
        _ => {},
    }
    if !trait_items_delegable_exec(&item.items) {
        return Expanded::Abort(
            String::from_str("Service attribute not supported for functions with non identifier argument patterns"),
        );
    }
    let name = item.ident.as_str();
    let tr = service_trait_name(name);
    let mock = service_mock_name(name);
    let (sources, delegates) = trait_lists(&item.items);
    let mut s = handle_struct_string(item.vis.as_str(), name, tr.as_str());
    s.append(" ");
    s.append(from_mock_string(name, mock.as_str()).as_str());
    s.append(" #[cfg(test, ::anaheim::automock)] #[::anaheim::async_trait] ");
    s.append(item.vis.as_str());
    s.append(" trait ");
    s.append(tr.as_str());
    s.append(" { ");
    s.append(join_strings(&sources, " ").as_str());
    s.append(" } #[::anaheim::async_trait] impl ");
    s.append(tr.as_str());
    s.append(" for ");
    s.append(name);
    s.append(" { ");
    s.append(join_strings(&delegates, " ").as_str());
    s.append(" } ");
    s.append(from_impl_string(name, tr.as_str()).as_str());
    Expanded::Tokens(s)
}

/// Expands `service` on a trait.
pub fn expand_service_trait(attr_args: AttrArgs, item: ItemTrait) -> (r: Result<String, syn::Error>)
    requires
        !(service_trait_outcome(attr_args, item) is Abort),
    ensures
        result_matches(r, service_trait_outcome(attr_args, item)),
{
    into_result(service_trait_expanded(attr_args, &item))
}

// ---------------------------------------------------------------------
// Dispatch.

/// What the `service` attribute gives on an item: the expansion for a
/// struct, an impl block (with `type_error` the outcome of parsing its
/// implementation struct's name as a type) or a trait; an abort on any
/// other item.
pub open spec fn service_attribute_outcome(args: AttrArgs, item: Item, type_error: Option<syn::Error>, reading: ReadingView) -> Outcome {
    match item {
        Item::Struct(s) => service_struct_outcome(args, s, reading),
        Item::Impl(i) => service_impl_outcome(args, i, type_error),
        Item::Trait(t) => service_trait_outcome(args, t),
        Item::Other => Outcome::Abort("Service attribute not supported on this type"@),
    }
}

/// Whether `r` records the outcomes of reading exactly what expanding
/// `service` on the item reads: for a struct, the argument lists of its
/// attributes and of its fields' attributes, in order, and the string
/// values among its fields' attribute arguments, in order; nothing for any
/// other item.
pub open spec fn reads_item(item: Item, r: ReadingView) -> bool {
    match item {
        Item::Struct(s) => {
            &&& list_args_of(r.lists) == attr_list_args(s.attrs@) + fields_list_args(fields_seq(s.fields))
            &&& lexed_values(r.lexed) == fields_str_values(fields_seq(s.fields), r.lists)
        },
        _ => r.lists.len() == 0 && r.lexed.len() == 0,
    }
}

/// Expands the `service` attribute on any item, given the outcomes
/// `reading` of lexing the string values of its fields' attributes.
fn service_attribute_expanded_with(attr_args: AttrArgs, item: &Item, reading: &Reading) -> (e: Expanded)
    ensures
        exists|t: Option<syn::Error>| e@ == #[trigger] service_attribute_outcome(attr_args, *item, t, reading@),
{
    let ghost a = attr_args;
    match item {
        Item::Struct(s) => {
            let e = service_struct_expanded(attr_args, s, reading);
            assert(e@ == service_attribute_outcome(a, *item, None, reading@));
            e
        },
        Item::Impl(i) => {
            let e = service_impl_expanded(attr_args, i);
            let ghost t = choose|t: Option<syn::Error>| e@ == #[trigger] service_impl_outcome(a, *i, t);
            assert(e@ == service_attribute_outcome(a, *item, t, reading@));
            e
        },
        Item::Trait(t) => {
            let e = service_trait_expanded(attr_args, t);
            assert(e@ == service_attribute_outcome(a, *item, None, reading@));
            e
        },
        Item::Other => {
            let e = Expanded::Abort(String::from_str("Service attribute not supported on this type"));
            assert(e@ == service_attribute_outcome(a, *item, None, reading@));
            e
        },
    }
}

/// Expands the `service` attribute on any item: the generated code, the
/// error to report, or the message with which the expansion aborts. A
/// struct's attribute argument lists are parsed and the string values in
/// its fields' attributes lexed, and an impl block's implementation struct
/// name is parsed as a type; how those turn out is left to `syn` and the
/// lexer, so the result is the expansion for some outcome of reading
/// exactly those parts and of that parse.
pub fn service_attribute_expanded(attr_args: AttrArgs, item: &Item) -> (e: Expanded)
    ensures
        exists|t: Option<syn::Error>, r: ReadingView|
            reads_item(*item, r) && e@ == #[trigger] service_attribute_outcome(attr_args, *item, t, r),
{
    let reading = match item {
        Item::Struct(s) => read_struct(s),
        _ => Reading { lists: Vec::new(), lexed: Vec::new() },
    };
    assert(reads_item(*item, reading@));
    service_attribute_expanded_with(attr_args, item, &reading)
}

/// Expands the `service` attribute, given the outcomes `reading` of
/// reading a struct's attribute argument lists and string values.
pub fn expand_service_attribute(attr_args: AttrArgs, item: Item, reading: &Reading) -> (r: Result<String, syn::Error>)
    requires
        !(service_attribute_outcome(attr_args, item, None, reading@) is Abort),
    ensures
        exists|t: Option<syn::Error>| result_matches(r, #[trigger] service_attribute_outcome(attr_args, item, t, reading@)),
{
    let ghost a = attr_args;
    let e = service_attribute_expanded_with(attr_args, &item, reading);
    let ghost t = choose|t: Option<syn::Error>| e@ == #[trigger] service_attribute_outcome(a, item, t, reading@);
    proof {
        if let Item::Impl(i) = item {
            lemma_impl_abort_independent(a, i, t);
        }
    }
    let r = into_result(e);
    assert(result_matches(r, service_attribute_outcome(a, item, t, reading@)));
    r
}

// ---------------------------------------------------------------------
// Laws.

/// The identifier pattern texts of the typed arguments among `inputs`, in
/// order.
pub open spec fn typed_arg_patterns(inputs: Seq<FnArg>) -> Seq<Seq<char>> {
    inputs.filter(|a: FnArg| a is Typed).map_values(|a: FnArg| a->Typed_0->Ident_0@)
}

/// Law: a forwarding method calls the method of the same name on
/// `self.inner`, passing the identifier of every typed argument in order
/// (the receiver is not passed), and awaits the call exactly when the
/// method is `async`.
pub proof fn lemma_forwarding_call(sig: Signature)
    requires
        delegate_args_ok(sig.inputs@),
    ensures
        call_args(sig.inputs@) == typed_arg_patterns(sig.inputs@),
        delegate_method_text(sig) == sig.source@ + " { self.inner."@ + sig.ident@ + "("@
            + join(typed_arg_patterns(sig.inputs@), ", "@) + ")"@ + (if sig.is_async { ".await"@ } else { ""@ })
            + " }"@,
{
    lemma_call_args_are_patterns(sig.inputs@);
}

proof fn lemma_call_args_are_patterns(inputs: Seq<FnArg>)
    requires
        delegate_args_ok(inputs),
    ensures
        call_args(inputs) == typed_arg_patterns(inputs),
    decreases inputs.len(),
{
    reveal(Seq::filter);
    if inputs.len() == 0 {
        assert(typed_arg_patterns(inputs) =~= Seq::<Seq<char>>::empty());
    } else {
        let d = inputs.drop_last();
        assert(delegate_args_ok(d)) by {
            assert forall|i: int| 0 <= i < d.len() implies !(#[trigger] d[i] matches FnArg::Typed(Pat::Other)) by {
                assert(d[i] == inputs[i]);
            }
        }
        lemma_call_args_are_patterns(d);
        assert(!(inputs[inputs.len() - 1] matches FnArg::Typed(Pat::Other)));
        let fd = d.filter(|a: FnArg| a is Typed);
        let f = inputs.filter(|a: FnArg| a is Typed);
        assert(f == if inputs.last() is Typed { fd.push(inputs.last()) } else { fd });
        assert(typed_arg_patterns(inputs) =~= call_args(inputs));
    }
}

/// Law: `service` on an impl block begins with the service trait
/// `pub trait NameTrait`, which declares each `pub` method by its signature
/// followed by `;`, in order, and then implements that trait for the handle
/// `Name` with one forwarding method per `pub` method, in the same order.
pub proof fn lemma_impl_trait_declares_and_forwards(name: Seq<char>, items: Seq<ImplItem>)
    ensures
        ("#[cfg(test, ::anaheim::automock)] #[::anaheim::async_trait] pub trait "@ + trait_name(name) + " { "@
            + join(trait_method_parts(items, |f: ImplItemFn| f.sig.source@ + ";"@), " "@)
            + " } #[::anaheim::async_trait] impl "@ + trait_name(name) + " for "@ + name + " { "@
            + join(trait_method_parts(items, |f: ImplItemFn| delegate_method_text(f.sig)), " "@)
            + " } #[::anaheim::async_trait] impl "@).is_prefix_of(service_impl_text(name, items)),
{
    let tr = trait_name(name);
    let imp = impl_name(name);
    assert((|f: ImplItemFn| sig_decl(f)) =~= (|f: ImplItemFn| f.sig.source@ + ";"@));
    assert((|f: ImplItemFn| method_delegate(f)) =~= (|f: ImplItemFn| delegate_method_text(f.sig)));
    let p = "#[cfg(test, ::anaheim::automock)] #[::anaheim::async_trait] pub trait "@ + tr + " { "@
        + join(trait_method_parts(items, |f: ImplItemFn| f.sig.source@ + ";"@), " "@)
        + " } #[::anaheim::async_trait] impl "@ + tr + " for "@ + name + " { "@
        + join(trait_method_parts(items, |f: ImplItemFn| delegate_method_text(f.sig)), " "@)
        + " } #[::anaheim::async_trait] impl "@;
    let rest = tr + " for "@ + imp + " { "@ + join(trait_method_parts(items, |f: ImplItemFn| trait_method_text(f)), " "@)
        + " } impl "@ + imp + " { "@ + join(inherent_method_texts(items), " "@) + " }"@;
    assert forall|x: Seq<char>, y: Seq<char>, z: Seq<char>| #[trigger] (x + (y + z)) == (x + y) + z by {
        vstd::seq_lib::lemma_concat_associative(x, y, z);
    }
    assert(service_impl_text(name, items) == p + rest);
    assert((p + rest).subrange(0, p.len() as int) =~= p);
}

/// Law: `service` on a trait implements the renamed trait for the handle
/// by forwarding each method of the trait, in order.
pub proof fn lemma_trait_forwards(item: ItemTrait)
    ensures
        contains_text(
            service_trait_text(item),
            " } #[::anaheim::async_trait] impl "@ + trait_name(item.ident@) + " for "@ + item.ident@ + " { "@
                + join(trait_delegates(item.items@), " "@) + " } "@,
        ),
        forall|i: int| 0 <= i < item.items@.len() && item.items@[i].fn_sig is None
            ==> trait_delegates(item.items@) == trait_delegates(item.items@.remove(i)),
{
    let name = item.ident@;
    let tr = trait_name(name);
    let t = " } #[::anaheim::async_trait] impl "@ + tr + " for "@ + name + " { "@
        + join(trait_delegates(item.items@), " "@) + " } "@;
    let decl = " #[cfg(test, ::anaheim::automock)] #[::anaheim::async_trait] "@ + item.vis@;
    let a = handle_struct_text(item.vis@, name, tr) + " "@ + from_mock_text(name, mock_name(name)) + decl
        + " trait "@ + tr + " { "@ + join(trait_item_texts(item.items@), " "@);
    let b = from_impl_text(name, tr);
    assert forall|x: Seq<char>, y: Seq<char>, z: Seq<char>| #[trigger] (x + (y + z)) == (x + y) + z by {
        vstd::seq_lib::lemma_concat_associative(x, y, z);
    }
    assert(service_trait_text(item) == a + t + b);
    lemma_contains_middle(a, t, b);
    assert forall|i: int| 0 <= i < item.items@.len() && item.items@[i].fn_sig is None
        implies trait_delegates(item.items@) == trait_delegates(item.items@.remove(i)) by {
        lemma_delegates_skip_non_fn(item.items@, i);
    }
}

proof fn lemma_delegates_skip_non_fn(items: Seq<TraitItem>, i: int)
    requires
        0 <= i < items.len(),
        items[i].fn_sig is None,
    ensures
        trait_delegates(items) == trait_delegates(items.remove(i)),
    decreases items.len(),
{
    if i == items.len() - 1 {
        assert(items.remove(i) =~= items.drop_last());
    } else {
        lemma_delegates_skip_non_fn(items.drop_last(), i);
        assert(items.remove(i).drop_last() =~= items.drop_last().remove(i));
        assert(items.remove(i).last() == items.last());
    }
}

/// The text a `pub` method has in the implementation struct's trait impl:
/// its attributes, no visibility, its defaultness, signature and body.
pub open spec fn moved_method_text(f: ImplItemFn) -> Seq<char> {
    f.attrs@ + " "@ + ""@ + " "@ + f.defaultness@ + " "@ + f.sig.source@ + " "@ + f.block@
}

/// Law: `service` on a struct keeps the struct's visibility on the handle
/// it generates: the output begins with `#[derive(Clone)] vis struct Name`
/// and the handle's `inner` field.
pub proof fn lemma_struct_handle_keeps_visibility(item: ItemStruct, r: ReadingView)
    ensures
        ("#[derive(Clone)] "@ + item.vis@ + " struct "@ + item.ident@ + " { inner: ::std::sync::Arc<dyn "@)
            .is_prefix_of(service_struct_text(item, r)),
{
    let p = "#[derive(Clone)] "@ + item.vis@ + " struct "@ + item.ident@ + " { inner: ::std::sync::Arc<dyn "@;
    let s = service_struct_text(item, r);
    assert(s.subrange(0, p.len() as int) =~= p);
}

/// Law: `service` on a struct generates, besides the handle, the handle's
/// `new` (building `NameImpl` and wrapping it), the struct itself renamed
/// to `NameImpl` with its `#[new(..)]` field attributes dropped, and
/// `NameImpl::new`.
pub proof fn lemma_struct_parts_generated(item: ItemStruct, r: ReadingView)
    ensures
        contains_text(service_struct_text(item, r), delegate_new_text(item, impl_name(item.ident@), item.ident@, r)),
        contains_text(service_struct_text(item, r), struct_text(item, impl_name(item.ident@), true)),
        contains_text(service_struct_text(item, r), struct_new_text(item, impl_name(item.ident@), r)),
{
    let name = item.ident@;
    let imp = impl_name(name);
    let tr = trait_name(name);
    let h = handle_struct_text(item.vis@, name, tr) + " "@;
    let d = delegate_new_text(item, imp, name, r);
    let m = " "@ + from_mock_text(name, mock_name(name)) + " "@ + from_impl_text(name, tr) + " "@;
    let st = struct_text(item, imp, true);
    let sn = struct_new_text(item, imp, r);
    assert forall|x: Seq<char>, y: Seq<char>, z: Seq<char>| #[trigger] (x + (y + z)) == (x + y) + z by {
        vstd::seq_lib::lemma_concat_associative(x, y, z);
    }
    let s = service_struct_text(item, r);
    assert(s == h + d + (m + st + " "@ + sn));
    lemma_contains_middle(h, d, m + st + " "@ + sn);
    assert(s == (h + d + m) + st + (" "@ + sn));
    lemma_contains_middle(h + d + m, st, " "@ + sn);
    assert(s == (h + d + m + st + " "@) + sn + Seq::<char>::empty());
    lemma_contains_middle(h + d + m + st + " "@, sn, Seq::empty());
}

/// Law: `service` on a trait keeps the trait's visibility, both on the
/// handle (the output begins with `#[derive(Clone)] vis struct Name`) and
/// on the renamed trait, which is declared as `vis trait NameTrait` with
/// the trait's items unchanged.
pub proof fn lemma_trait_keeps_visibility(item: ItemTrait)
    ensures
        ("#[derive(Clone)] "@ + item.vis@ + " struct "@ + item.ident@ + " { inner: ::std::sync::Arc<dyn "@)
            .is_prefix_of(service_trait_text(item)),
        contains_text(
            service_trait_text(item),
            " #[cfg(test, ::anaheim::automock)] #[::anaheim::async_trait] "@ + item.vis@ + " trait "@
                + trait_name(item.ident@) + " { "@ + join(item.items@.map_values(|t: TraitItem| t.source@), " "@)
                + " } #[::anaheim::async_trait] impl "@,
        ),
{
    let p = "#[derive(Clone)] "@ + item.vis@ + " struct "@ + item.ident@ + " { inner: ::std::sync::Arc<dyn "@;
    let s = service_trait_text(item);
    assert(s.subrange(0, p.len() as int) =~= p);
    let name = item.ident@;
    let tr = trait_name(name);
    assert(trait_item_texts(item.items@) =~= item.items@.map_values(|t: TraitItem| t.source@));
    let t = " #[cfg(test, ::anaheim::automock)] #[::anaheim::async_trait] "@ + item.vis@ + " trait "@ + tr
        + " { "@ + join(item.items@.map_values(|t: TraitItem| t.source@), " "@) + " } #[::anaheim::async_trait] impl "@;
    let a = handle_struct_text(item.vis@, name, tr) + " "@ + from_mock_text(name, mock_name(name));
    let b = tr + " for "@ + name + " { "@ + join(trait_delegates(item.items@), " "@) + " } "@ + from_impl_text(name, tr);
    assert forall|x: Seq<char>, y: Seq<char>, z: Seq<char>| #[trigger] (x + (y + z)) == (x + y) + z by {
        vstd::seq_lib::lemma_concat_associative(x, y, z);
    }
    assert(s == a + t + b);
    lemma_contains_middle(a, t, b);
}

/// Law: every `pub` method moves into the implementation struct's trait
/// impl whole but for its visibility: its attributes, defaultness,
/// signature and body all stay. The trait impl `impl NameTrait for
/// NameImpl { .. }` in the output holds exactly those texts, in order.
pub proof fn lemma_moved_methods_keep_attributes(name: Seq<char>, items: Seq<ImplItem>)
    ensures
        forall|f: ImplItemFn| #[trigger] trait_method_text(f) == moved_method_text(f),
        contains_text(
            service_impl_text(name, items),
            " } #[::anaheim::async_trait] impl "@ + trait_name(name) + " for "@ + impl_name(name) + " { "@
                + join(trait_method_parts(items, |f: ImplItemFn| moved_method_text(f)), " "@) + " } impl "@,
        ),
{
    let tr = trait_name(name);
    let imp = impl_name(name);
    assert((|f: ImplItemFn| trait_method_text(f)) =~= (|f: ImplItemFn| moved_method_text(f)));
    let t = " } #[::anaheim::async_trait] impl "@ + tr + " for "@ + imp + " { "@
        + join(trait_method_parts(items, |f: ImplItemFn| moved_method_text(f)), " "@) + " } impl "@;
    let a = "#[cfg(test, ::anaheim::automock)] #[::anaheim::async_trait] pub trait "@ + tr + " { "@
        + join(trait_method_parts(items, |f: ImplItemFn| sig_decl(f)), " "@)
        + " } #[::anaheim::async_trait] impl "@ + tr + " for "@ + name + " { "@
        + join(trait_method_parts(items, |f: ImplItemFn| method_delegate(f)), " "@);
    let b = imp + " { "@ + join(inherent_method_texts(items), " "@) + " }"@;
    assert forall|x: Seq<char>, y: Seq<char>, z: Seq<char>| #[trigger] (x + (y + z)) == (x + y) + z by {
        vstd::seq_lib::lemma_concat_associative(x, y, z);
    }
    assert(service_impl_text(name, items) == a + t + b);
    lemma_contains_middle(a, t, b);
}

/// The number of typed (non-receiver) arguments of a signature.
pub open spec fn count_typed(inputs: Seq<FnArg>) -> nat
    decreases inputs.len(),
{
    if inputs.len() == 0 {
        0
    } else {
        count_typed(inputs.drop_last()) + if inputs.last() is Typed { 1nat } else { 0nat }
    }
}

/// Law: a forwarding method passes on every typed argument and nothing
/// else (the receiver is not passed).
pub proof fn lemma_call_args_cover_typed(inputs: Seq<FnArg>)
    requires
        delegate_args_ok(inputs),
    ensures
        call_args(inputs).len() == count_typed(inputs),
    decreases inputs.len(),
{
    if inputs.len() > 0 {
        assert(delegate_args_ok(inputs.drop_last())) by {
            assert forall|i: int| 0 <= i < inputs.drop_last().len() implies
                !(#[trigger] inputs.drop_last()[i] matches FnArg::Typed(Pat::Other)) by {
                assert(inputs.drop_last()[i] == inputs[i]);
            }
        }
        lemma_call_args_cover_typed(inputs.drop_last());
        assert(!(inputs[inputs.len() - 1] matches FnArg::Typed(Pat::Other)));
    }
}

/// The number of `pub` methods among an impl block's items.
pub open spec fn count_trait_methods(items: Seq<ImplItem>) -> nat
    decreases items.len(),
{
    if items.len() == 0 {
        0
    } else {
        count_trait_methods(items.drop_last()) + if is_trait_method(items.last()) { 1nat } else { 0nat }
    }
}

/// Law: `service` on an impl block places every method exactly once: each
/// `pub` method is declared in the trait, forwarded by the handle and
/// implemented by the implementation struct; each other method stays in
/// the implementation struct's inherent impl.
pub proof fn lemma_methods_partitioned(items: Seq<ImplItem>)
    requires
        all_methods(items),
    ensures
        trait_method_parts(items, |f: ImplItemFn| sig_decl(f)).len() == count_trait_methods(items),
        trait_method_parts(items, |f: ImplItemFn| method_delegate(f)).len() == count_trait_methods(items),
        trait_method_parts(items, |f: ImplItemFn| trait_method_text(f)).len() == count_trait_methods(items),
        count_trait_methods(items) + inherent_method_texts(items).len() == items.len(),
    decreases items.len(),
{
    if items.len() > 0 {
        assert(all_methods(items.drop_last())) by {
            assert forall|i: int| 0 <= i < items.drop_last().len() implies #[trigger] items.drop_last()[i] is Fn by {
                assert(items.drop_last()[i] == items[i]);
            }
        }
        lemma_methods_partitioned(items.drop_last());
        assert(items[items.len() - 1] is Fn);
    }
}

} // verus!
