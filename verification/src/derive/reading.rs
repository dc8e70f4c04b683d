//! What reading an attribute's arguments takes from outside the library:
//! parsing the parenthesized arguments of an attribute as a comma
//! separated list, and lexing the value of a `name = "string"` argument.
//! Both are left to `syn` and `proc-macro2`, whose outcome depends on which
//! lexer runs (the compiler's inside a macro, proc-macro2's own elsewhere),
//! so their outcomes are recorded in a [`Reading`] that code generation
//! takes as data.

use vstd::prelude::*;
use super::model;
use super::model::{Attribute, Field, Fields, ItemStruct, MetaValue, NestedMeta, Path, PathSegment};
use super::tokens::text_eq;
use super::struct_new::fields_seq;

verus! {

/// `syn::Meta`: one argument inside an attribute's parentheses.
#[verifier::external_type_specification]
#[verifier::external_body]
pub struct ExMeta(syn::Meta);

/// Parses `args` as a comma separated list of `syn::Meta` (with an
/// optional trailing comma): the items, or the parse error's message.
///
/// Calls `syn::parse::Parser::parse_str` with
/// `Punctuated::<syn::Meta, syn::token::Comma>::parse_terminated`. Whether
/// a text parses depends on how it lexes, which is left to the compiler
/// inside a macro, so nothing is claimed of the outcome.
#[verifier::external_body]
fn parse_meta_list(args: &str) -> Result<Vec<syn::Meta>, String> {
    let parser = syn::punctuated::Punctuated::<syn::Meta, syn::token::Comma>::parse_terminated;
    match syn::parse::Parser::parse_str(parser, args) {
        Ok(items) => Ok(items.into_iter().collect()),
        Err(e) => Err(e.to_string()),
    }
}

/// The path of a `syn::Meta` (`Meta::path`), as the library's [`Path`]:
/// each segment's identifier and whether it has generic arguments.
#[verifier::external_body]
fn meta_path(m: &syn::Meta) -> Path {
    let p = m.path();
    Path {
        leading_colon: p.leading_colon.is_some(),
        segments: p.segments.iter().map(|s| PathSegment {
            ident: s.ident.to_string(),
            has_arguments: !s.arguments.is_empty(),
        }).collect(),
    }
}

/// The shape of a `syn::Meta`.
pub enum MetaShape {
    /// `path`
    Path,
    /// `path(..)`
    List,
    /// `path = value`, with the value of a string literal value.
    NameValue(Option<String>),
}

/// Tells the variants of a `syn::Meta` apart, with the unescaped value of
/// a `name = "string"` argument's string literal (`LitStr::value`).
#[verifier::external_body]
fn meta_shape(m: &syn::Meta) -> MetaShape {
    match m {
        syn::Meta::Path(_) => MetaShape::Path,
        syn::Meta::List(_) => MetaShape::List,
        syn::Meta::NameValue(nv) => MetaShape::NameValue(match &nv.value {
            syn::Expr::Lit(syn::ExprLit { lit: syn::Lit::Str(s), .. }) => Some(s.value()),
            _ => None,
        }),
    }
}

/// The token text `code` lexes to, or `None` when it does not lex.
///
/// Calls `FromStr` of `proc_macro2::TokenStream` and renders the tokens
/// with `to_string`. Inside a macro the compiler lexes and elsewhere
/// proc-macro2's own lexer does, so nothing is claimed of which outcome
/// comes back.
#[verifier::external_body]
fn lit_str_to_token_stream(code: &str) -> Option<String> {
    match code.parse::<proc_macro2::TokenStream>() {
        Ok(tokens) => Some(tokens.to_string()),
        Err(_) => None,
    }
}

/// One argument read from a `syn::Meta`.
fn nested_meta(m: &syn::Meta) -> NestedMeta {
    let p = meta_path(m);
    match meta_shape(m) {
        MetaShape::Path => NestedMeta::Path(p),
        MetaShape::List => NestedMeta::List(p),
        MetaShape::NameValue(Some(v)) => NestedMeta::NameValue(p, MetaValue::Str(v)),
        MetaShape::NameValue(None) => NestedMeta::NameValue(p, MetaValue::Other),
    }
}

/// Reads `args` as a comma separated list of arguments: the arguments, or
/// the parse error's message.
fn parse_nested(args: &str) -> Result<Vec<NestedMeta>, String> {
    match parse_meta_list(args) {
        Err(e) => Err(e),
        Ok(items) => {
            let mut r: Vec<NestedMeta> = Vec::new();
            let n = items.len();
            let mut i: usize = 0;
            while i < n
                invariant
                    n == items@.len(),
                    i <= n,
                decreases n - i,
            {
                r.push(nested_meta(&items[i]));
                i = i + 1;
            }
            Ok(r)
        },
    }
}

/// The outcome of reading one attribute's parenthesized arguments: their
/// token text, and the arguments or the parse error's message.
pub struct ParsedList {
    pub args: String,
    pub nested: Result<Vec<NestedMeta>, String>,
}

/// The outcome of lexing a string literal's value: the value, and the
/// token text it lexed to (`None` when it did not lex).
pub struct Lexed {
    pub value: String,
    pub tokens: Option<String>,
}

/// The recorded outcomes of parsing attribute argument lists and of
/// lexing string values.
pub struct Reading {
    pub lists: Vec<ParsedList>,
    pub lexed: Vec<Lexed>,
}

/// A [`Reading`] as sequences.
pub struct ReadingView {
    pub lists: Seq<ParsedList>,
    pub lexed: Seq<Lexed>,
}

impl View for Reading {
    type V = ReadingView;

    open spec fn view(&self) -> ReadingView {
        ReadingView { lists: self.lists@, lexed: self.lexed@ }
    }
}

/// A parse outcome as sequences.
pub open spec fn nested_view(n: Result<Vec<NestedMeta>, String>) -> Result<Seq<NestedMeta>, Seq<char>> {
    match n {
        Ok(v) => Ok(v@),
        Err(m) => Err(m@),
    }
}

/// What `lists` records for the argument text `args`: the outcome of its
/// first entry; an error with an empty message where it has none.
pub open spec fn list_nested(lists: Seq<ParsedList>, args: Seq<char>) -> Result<Seq<NestedMeta>, Seq<char>>
    decreases lists.len(),
{
    if lists.len() == 0 {
        Err(Seq::empty())
    } else if lists[0].args@ == args {
        nested_view(lists[0].nested)
    } else {
        list_nested(lists.drop_first(), args)
    }
}

/// What `lexed` records for the string `value`: the tokens of its first
/// entry; `None`, as for a value that does not lex, where it has none.
pub open spec fn lexed_tokens(lexed: Seq<Lexed>, value: Seq<char>) -> Option<Seq<char>>
    decreases lexed.len(),
{
    if lexed.len() == 0 {
        None
    } else if lexed[0].value@ == value {
        match lexed[0].tokens {
            Some(t) => Some(t@),
            None => None,
        }
    } else {
        lexed_tokens(lexed.drop_first(), value)
    }
}

/// The argument texts that `lists` records outcomes for, in order.
pub open spec fn list_args_of(lists: Seq<ParsedList>) -> Seq<Seq<char>> {
    lists.map_values(|l: ParsedList| l.args@)
}

/// The values that `lexed` records outcomes for, in order.
pub open spec fn lexed_values(lexed: Seq<Lexed>) -> Seq<Seq<char>> {
    lexed.map_values(|l: Lexed| l.value@)
}

/// The argument texts of the attributes with parentheses, in order.
pub open spec fn attr_list_args(attrs: Seq<Attribute>) -> Seq<Seq<char>>
    decreases attrs.len(),
{
    if attrs.len() == 0 {
        Seq::empty()
    } else {
        let rest = attr_list_args(attrs.drop_last());
        match attrs.last().meta {
            model::AttrMeta::List { args, .. } => rest.push(args@),
            _ => rest,
        }
    }
}

/// The argument texts of all the fields' attributes, field by field.
pub open spec fn fields_list_args(fields: Seq<Field>) -> Seq<Seq<char>>
    decreases fields.len(),
{
    if fields.len() == 0 {
        Seq::empty()
    } else {
        fields_list_args(fields.drop_last()) + attr_list_args(fields.last().attrs@)
    }
}

/// The values of the `name = "string"` arguments among `items`, in order.
pub open spec fn nested_str_values(items: Seq<NestedMeta>) -> Seq<Seq<char>>
    decreases items.len(),
{
    if items.len() == 0 {
        Seq::empty()
    } else {
        let rest = nested_str_values(items.drop_last());
        match items.last() {
            NestedMeta::NameValue(_, MetaValue::Str(v)) => rest.push(v@),
            _ => rest,
        }
    }
}

/// The values of the `name = "string"` arguments inside the attributes'
/// parentheses, as `lists` reads them, in order.
pub open spec fn attr_str_values(attrs: Seq<Attribute>, lists: Seq<ParsedList>) -> Seq<Seq<char>>
    decreases attrs.len(),
{
    if attrs.len() == 0 {
        Seq::empty()
    } else {
        attr_str_values(attrs.drop_last(), lists) + match attrs.last().meta {
            model::AttrMeta::List { args, .. } => match list_nested(lists, args@) {
                Ok(items) => nested_str_values(items),
                Err(_) => Seq::empty(),
            },
            _ => Seq::empty(),
        }
    }
}

/// The string argument values of all the fields' attributes, field by
/// field, in order.
pub open spec fn fields_str_values(fields: Seq<Field>, lists: Seq<ParsedList>) -> Seq<Seq<char>>
    decreases fields.len(),
{
    if fields.len() == 0 {
        Seq::empty()
    } else {
        fields_str_values(fields.drop_last(), lists) + attr_str_values(fields.last().attrs@, lists)
    }
}

/// The index of the first entry of `lists` from `i` on for `args`.
pub(crate) fn lookup_list(lists: &Vec<ParsedList>, args: &str, i: usize) -> (r: Option<usize>)
    requires
        i <= lists@.len(),
    ensures
        match r {
            Some(k) => k < lists@.len() && list_nested(lists@.subrange(i as int, lists@.len() as int), args@)
                == nested_view(lists@[k as int].nested),
            None => list_nested(lists@.subrange(i as int, lists@.len() as int), args@) == Err::<Seq<NestedMeta>, Seq<char>>(Seq::empty()),
        },
    decreases lists@.len() - i,
{
    if i == lists.len() {
        None
    } else {
        let ghost rest = lists@.subrange(i as int, lists@.len() as int);
        assert(rest.drop_first() =~= lists@.subrange(i as int + 1, lists@.len() as int));
        assert(rest[0] == lists@[i as int]);
        if text_eq(lists[i].args.as_str(), args) {
            Some(i)
        } else {
            lookup_list(lists, args, i + 1)
        }
    }
}

/// The tokens recorded for `value` in `lexed` from entry `i` on.
pub(crate) fn lookup_lexed(lexed: &Vec<Lexed>, value: &str, i: usize) -> (r: Option<String>)
    requires
        i <= lexed@.len(),
    ensures
        match r {
            Some(t) => lexed_tokens(lexed@.subrange(i as int, lexed@.len() as int), value@) == Some(t@),
            None => lexed_tokens(lexed@.subrange(i as int, lexed@.len() as int), value@).is_none(),
        },
    decreases lexed@.len() - i,
{
    if i == lexed.len() {
        None
    } else {
        let ghost rest = lexed@.subrange(i as int, lexed@.len() as int);
        assert(rest.drop_first() =~= lexed@.subrange(i as int + 1, lexed@.len() as int));
        assert(rest[0] == lexed@[i as int]);
        if text_eq(lexed[i].value.as_str(), value) {
            match &lexed[i].tokens {
                Some(t) => Some(t.clone()),
                None => None,
            }
        } else {
            lookup_lexed(lexed, value, i + 1)
        }
    }
}

/// Parses the argument list of each attribute with parentheses, appending
/// the outcomes in order.
fn parse_lists_into(attrs: &Vec<Attribute>, out: &mut Vec<ParsedList>)
    ensures
        list_args_of(final(out)@) == list_args_of(old(out)@) + attr_list_args(attrs@),
{
    let ghost start = list_args_of(out@);
    let n = attrs.len();
    let mut i: usize = 0;
    assert(attrs@.take(0) =~= Seq::<Attribute>::empty());
    assert(start + attr_list_args(attrs@.take(0)) =~= list_args_of(out@));
    while i < n
        invariant
            n == attrs@.len(),
            i <= n,
            list_args_of(out@) == start + attr_list_args(attrs@.take(i as int)),
        decreases n - i,
    {
        proof {
            assert(attrs@.take(i as int + 1).drop_last() =~= attrs@.take(i as int));
            assert(attrs@.take(i as int + 1).last() == attrs@[i as int]);
        }
        let ghost before = out@;
        match &attrs[i].meta {
            model::AttrMeta::List { args, .. } => {
                let l = ParsedList { args: args.clone(), nested: parse_nested(args.as_str()) };
                out.push(l);
                assert(list_args_of(out@) =~= list_args_of(before).push(args@));
            },
            _ => {},
        }
        assert(list_args_of(out@) =~= start + attr_list_args(attrs@.take(i as int + 1)));
        i = i + 1;
    }
    assert(attrs@.take(n as int) =~= attrs@);
}

/// Lexes the value of each `name = "string"` argument among `items`,
/// appending the outcomes in order.
fn lex_nested_values(items: &Vec<NestedMeta>, out: &mut Vec<Lexed>)
    ensures
        lexed_values(final(out)@) == lexed_values(old(out)@) + nested_str_values(items@),
{
    let ghost start = lexed_values(out@);
    let n = items.len();
    let mut j: usize = 0;
    assert(items@.take(0) =~= Seq::<NestedMeta>::empty());
    assert(start + nested_str_values(items@.take(0)) =~= lexed_values(out@));
    while j < n
        invariant
            n == items@.len(),
            j <= n,
            lexed_values(out@) == start + nested_str_values(items@.take(j as int)),
        decreases n - j,
    {
        proof {
            assert(items@.take(j as int + 1).drop_last() =~= items@.take(j as int));
        }
        match &items[j] {
            NestedMeta::NameValue(_, MetaValue::Str(v)) => {
                let ghost before = out@;
                let l = Lexed { value: v.clone(), tokens: lit_str_to_token_stream(v.as_str()) };
                out.push(l);
                assert(lexed_values(out@) =~= lexed_values(before).push(v@));
                assert(lexed_values(out@) =~= start + nested_str_values(items@.take(j as int + 1)));
            },
            _ => {
                assert(lexed_values(out@) =~= start + nested_str_values(items@.take(j as int + 1)));
            },
        }
        j = j + 1;
    }
    assert(items@.take(n as int) =~= items@);
}

/// Lexes the string argument values of `attrs`, as `lists` reads their
/// argument lists, appending the outcomes in order.
fn lex_attr_values_into(attrs: &Vec<Attribute>, lists: &Vec<ParsedList>, out: &mut Vec<Lexed>)
    ensures
        lexed_values(final(out)@) == lexed_values(old(out)@) + attr_str_values(attrs@, lists@),
{
    let ghost start = lexed_values(out@);
    let n = attrs.len();
    let mut i: usize = 0;
    assert(attrs@.take(0) =~= Seq::<Attribute>::empty());
    assert(start + attr_str_values(attrs@.take(0), lists@) =~= lexed_values(out@));
    while i < n
        invariant
            n == attrs@.len(),
            i <= n,
            lexed_values(out@) == start + attr_str_values(attrs@.take(i as int), lists@),
        decreases n - i,
    {
        proof {
            assert(attrs@.take(i as int + 1).drop_last() =~= attrs@.take(i as int));
            assert(attrs@.take(i as int + 1).last() == attrs@[i as int]);
        }
        match &attrs[i].meta {
            model::AttrMeta::List { args, .. } => {
                assert(lists@.subrange(0, lists@.len() as int) =~= lists@);
                match lookup_list(lists, args.as_str(), 0) {
                    Some(k) => match &lists[k].nested {
                        Ok(items) => {
                            lex_nested_values(items, out);
                        },
                        Err(_) => {},
                    },
                    None => {},
                }
            },
            _ => {},
        }
        assert(lexed_values(out@) =~= start + attr_str_values(attrs@.take(i as int + 1), lists@));
        i = i + 1;
    }
    assert(attrs@.take(n as int) =~= attrs@);
}

/// Reads attributes: parses the argument list of each attribute with
/// parentheses, then lexes the value of each `name = "string"` argument
/// found in them, recording every outcome in order.
pub fn read_attrs(attrs: &Vec<Attribute>) -> (r: Reading)
    ensures
        list_args_of(r@.lists) == attr_list_args(attrs@),
        lexed_values(r@.lexed) == attr_str_values(attrs@, r@.lists),
{
    let mut lists: Vec<ParsedList> = Vec::new();
    parse_lists_into(attrs, &mut lists);
    assert(list_args_of(Seq::<ParsedList>::empty()) + attr_list_args(attrs@) =~= attr_list_args(attrs@));
    let mut lexed: Vec<Lexed> = Vec::new();
    lex_attr_values_into(attrs, &lists, &mut lexed);
    assert(lexed_values(Seq::<Lexed>::empty()) + attr_str_values(attrs@, lists@) =~= attr_str_values(attrs@, lists@));
    Reading { lists, lexed }
}

/// Reads a struct's attributes and its fields' attributes: parses every
/// argument list (the struct's first, then field by field), then lexes
/// the string argument values of the fields' attributes.
pub fn read_struct(item: &ItemStruct) -> (r: Reading)
    ensures
        list_args_of(r@.lists) == attr_list_args(item.attrs@) + fields_list_args(fields_seq(item.fields)),
        lexed_values(r@.lexed) == fields_str_values(fields_seq(item.fields), r@.lists),
{
    let empty: Vec<Field> = Vec::new();
    let fields = match &item.fields {
        Fields::Named(v) => v,
        Fields::Unnamed(v) => v,
        Fields::Unit => &empty,
    };
    assert(fields@ =~= fields_seq(item.fields));
    let mut lists: Vec<ParsedList> = Vec::new();
    parse_lists_into(&item.attrs, &mut lists);
    let n = fields.len();
    let mut i: usize = 0;
    assert(fields@.take(0) =~= Seq::<Field>::empty());
    assert(list_args_of(lists@) =~= attr_list_args(item.attrs@) + fields_list_args(fields@.take(0)));
    while i < n
        invariant
            n == fields@.len(),
            i <= n,
            list_args_of(lists@) == attr_list_args(item.attrs@) + fields_list_args(fields@.take(i as int)),
        decreases n - i,
    {
        proof {
            assert(fields@.take(i as int + 1).drop_last() =~= fields@.take(i as int));
            assert(fields@.take(i as int + 1).last() == fields@[i as int]);
        }
        parse_lists_into(&fields[i].attrs, &mut lists);
        assert(list_args_of(lists@) =~= attr_list_args(item.attrs@) + fields_list_args(fields@.take(i as int + 1)));
        i = i + 1;
    }
    assert(fields@.take(n as int) =~= fields@);
    let mut lexed: Vec<Lexed> = Vec::new();
    let mut j: usize = 0;
    assert(lexed_values(lexed@) =~= fields_str_values(fields@.take(0), lists@));
    while j < n
        invariant
            n == fields@.len(),
            j <= n,
            lexed_values(lexed@) == fields_str_values(fields@.take(j as int), lists@),
        decreases n - j,
    {
        proof {
            assert(fields@.take(j as int + 1).drop_last() =~= fields@.take(j as int));
            assert(fields@.take(j as int + 1).last() == fields@[j as int]);
        }
        lex_attr_values_into(&fields[j].attrs, &lists, &mut lexed);
        j = j + 1;
    }
    Reading { lists, lexed }
}

} // verus!
