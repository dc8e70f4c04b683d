//! Generating `new` constructors: for a struct, one that takes every field
//! without a `#[new(..)]` attribute that is not `PhantomData` and fills in
//! the rest; for a service, one that builds the implementation struct and
//! wraps it.

use vstd::prelude::*;
use super::model::{Attribute, Field, Fields, ItemStruct, AttrMeta, MetaValue, NestedMeta, Path, Type};
use super::tokens::{contains_text, join, join_strings, lemma_contains_middle, path_to_string, spec_path_to_string, text_eq, texts};
use crate::text::{decimal, decimal_string};
use super::reading::{attr_list_args, attr_str_values, list_args_of, list_nested, lexed_tokens, lexed_values, lookup_lexed, lookup_list, read_attrs, ParsedList, Reading, ReadingView};

verus! {

/// How a field marked `#[new(..)]` is initialized.
pub enum FieldAttr {
    /// `#[new(default)]`: with `Default::default()`.
    Default,
    /// `#[new(value = "expr")]`: with the tokens the expression lexes to,
    /// as text.
    Value(String),
}

/// A [`FieldAttr`] as a mathematical value.
pub enum FieldAttrView {
    Default,
    Value(Seq<char>),
}

impl View for FieldAttr {
    type V = FieldAttrView;

    open spec fn view(&self) -> FieldAttrView {
        match self {
            FieldAttr::Default => FieldAttrView::Default,
            FieldAttr::Value(s) => FieldAttrView::Value(s@),
        }
    }
}

pub open spec fn opt_attr_view(a: Option<FieldAttr>) -> Option<FieldAttrView> {
    match a {
        Some(x) => Some(x@),
        None => None,
    }
}


/// What reading a field's attributes gives: the initializer they ask for
/// (if any), or the message with which the attributes are rejected.
pub type AttrOutcome = Result<Option<FieldAttrView>, Seq<char>>;

/// The initializer one argument of `#[new(..)]` asks for, or its rejection.
pub open spec fn new_arg_outcome(item: NestedMeta, reading: ReadingView) -> AttrOutcome {
    match item {
        NestedMeta::Path(p) => if p.spec_is_ident("default"@) {
            Ok(Some(FieldAttrView::Default))
        } else {
            Err("Invalid #[new] attribute: #[new("@ + spec_path_to_string(p) + ")]"@)
        },
        NestedMeta::NameValue(p, v) => match v {
            MetaValue::Str(value) => if p.spec_is_ident("value"@) {
                match lexed_tokens(reading.lexed, value@) {
                    Some(t) => Ok(Some(FieldAttrView::Value(t))),
                    None => Err("Invalid expression in #[new]: `"@ + value@ + "`"@),
                }
            } else {
                Err("Invalid #[new] attribute: #[new("@ + spec_path_to_string(p) + " = ..)]"@)
            },
            MetaValue::Other => Err("Non-string literal value in #[new] attribute"@),
        },
        NestedMeta::List(p) => Err("Invalid #[new] attribute: #[new("@ + spec_path_to_string(p) + "(..))]"@),
    }
}

/// The arguments of one `#[new(..)]` read in order, starting from `acc`:
/// each replaces the initializer; the first rejected one rejects all.
pub open spec fn new_args_outcome(acc: Option<FieldAttrView>, items: Seq<NestedMeta>, reading: ReadingView) -> AttrOutcome
    decreases items.len(),
{
    if items.len() == 0 {
        Ok(acc)
    } else {
        match new_args_outcome(acc, items.drop_last(), reading) {
            Err(e) => Err(e),
            Ok(_) => new_arg_outcome(items.last(), reading),
        }
    }
}

/// The last segment's identifier of an attribute's path.
pub open spec fn attr_last_ident(attr: Attribute) -> Seq<char> {
    attr.meta.spec_path().segments@.last().ident@
}

/// One attribute read with the initializer found so far, `acc`. Inner
/// attributes and attributes whose path does not end in `new` are passed
/// over; `#[new]` without parentheses, a second `#[new(..)]` after one
/// that set an initializer, and unreadable arguments are rejected.
pub open spec fn new_attr_outcome(acc: Option<FieldAttrView>, attr: Attribute, reading: ReadingView) -> AttrOutcome {
    if !attr.outer {
        Ok(acc)
    } else if attr.meta.spec_path().segments@.len() == 0 {
        Err("Expected at least one segment where #[segment[::segment*](..)]"@)
    } else if attr_last_ident(attr) != "new"@ {
        Ok(acc)
    } else {
        match attr.meta {
            AttrMeta::List { path, args } => if acc.is_some() {
                Err("Expected at most one #[new] attribute"@)
            } else {
                match list_nested(reading.lists, args@) {
                    Err(e) => Err("Invalid #[new] attribute: "@ + e),
                    Ok(items) => new_args_outcome(acc, items, reading),
                }
            },
            _ => if attr.meta.spec_path().spec_is_ident("new"@) {
                Err("Invalid #[new] attribute, expected #[new(..)]"@)
            } else {
                Ok(acc)
            },
        }
    }
}

/// What a field's attributes, read in order, give.
pub open spec fn field_attr_outcome(attrs: Seq<Attribute>, reading: ReadingView) -> AttrOutcome
    decreases attrs.len(),
{
    if attrs.len() == 0 {
        Ok(None)
    } else {
        match field_attr_outcome(attrs.drop_last(), reading) {
            Err(e) => Err(e),
            Ok(acc) => new_attr_outcome(acc, attrs.last(), reading),
        }
    }
}

/// Whether the field's attributes are accepted.
pub open spec fn field_attrs_ok(attrs: Seq<Attribute>, reading: ReadingView) -> bool {
    field_attr_outcome(attrs, reading) is Ok
}

fn message3(a: &str, b: &str, c: &str) -> (m: String)
    ensures
        m@ == a@ + b@ + c@,
{
    let m = String::from_str(a);
    let m = m.concat(b);
    m.concat(c)
}

fn nested_outcome(item: &NestedMeta, reading: &Reading) -> (r: Result<Option<FieldAttr>, String>)
    ensures
        match r {
            Ok(a) => new_arg_outcome(*item, reading@) == Ok::<Option<FieldAttrView>, Seq<char>>(opt_attr_view(a)),
            Err(m) => new_arg_outcome(*item, reading@) == Err::<Option<FieldAttrView>, Seq<char>>(m@),
        },
{
    match item {
        NestedMeta::Path(p) => {
            if p.is_ident("default") {
                Ok(Some(FieldAttr::Default))
            } else {
                let ps = path_to_string(p);
                Err(message3("Invalid #[new] attribute: #[new(", ps.as_str(), ")]"))
            }
        },
        NestedMeta::NameValue(p, v) => match v {
            MetaValue::Str(value) => {
                if p.is_ident("value") {
                    assert(reading.lexed@.subrange(0, reading.lexed@.len() as int) =~= reading.lexed@);
                    match lookup_lexed(&reading.lexed, value.as_str(), 0) {
                        Some(t) => Ok(Some(FieldAttr::Value(t))),
                        None => Err(message3("Invalid expression in #[new]: `", value.as_str(), "`")),
                    }
                } else {
                    let ps = path_to_string(p);
                    Err(message3("Invalid #[new] attribute: #[new(", ps.as_str(), " = ..)]"))
                }
            },
            MetaValue::Other => Err(String::from_str("Non-string literal value in #[new] attribute")),
        },
        NestedMeta::List(p) => {
            let ps = path_to_string(p);
            Err(message3("Invalid #[new] attribute: #[new(", ps.as_str(), "(..))]"))
        },
    }
}

fn new_args_checked(items: &Vec<NestedMeta>, reading: &Reading) -> (r: Result<Option<FieldAttr>, String>)
    ensures
        match r {
            Ok(a) => new_args_outcome(None, items@, reading@) == Ok::<Option<FieldAttrView>, Seq<char>>(opt_attr_view(a)),
            Err(m) => new_args_outcome(None, items@, reading@) == Err::<Option<FieldAttrView>, Seq<char>>(m@),
        },
{
    let mut result: Option<FieldAttr> = None;
    let n = items.len();
    let mut i: usize = 0;
    assert(items@.take(0) =~= Seq::<NestedMeta>::empty());
    while i < n
        invariant
            n == items@.len(),
            i <= n,
            new_args_outcome(None, items@.take(i as int), reading@) == Ok::<Option<FieldAttrView>, Seq<char>>(opt_attr_view(result)),
        decreases n - i,
    {
        proof {
            assert(items@.take(i as int + 1).drop_last() =~= items@.take(i as int));
        }
        match nested_outcome(&items[i], reading) {
            Ok(a) => {
                result = a;
            },
            Err(m) => {
                proof {
                    lemma_args_error_persists(None, items@, i as int + 1, m@, reading@);
                }
                return Err(m);
            },
        }
        i = i + 1;
    }
    assert(items@.take(n as int) =~= items@);
    Ok(result)
}

fn attr_outcome(acc: Option<FieldAttr>, attr: &Attribute, reading: &Reading) -> (r: Result<Option<FieldAttr>, String>)
    ensures
        match r {
            Ok(a) => new_attr_outcome(opt_attr_view(acc), *attr, reading@) == Ok::<Option<FieldAttrView>, Seq<char>>(opt_attr_view(a)),
            Err(m) => new_attr_outcome(opt_attr_view(acc), *attr, reading@) == Err::<Option<FieldAttrView>, Seq<char>>(m@),
        },
{
    if !attr.outer {
        return Ok(acc);
    }
    let path = attr.meta.path();
    let nseg = path.segments.len();
    if nseg == 0 {
        return Err(String::from_str("Expected at least one segment where #[segment[::segment*](..)]"));
    }
    if !text_eq(path.segments[nseg - 1].ident.as_str(), "new") {
        return Ok(acc);
    }
    match &attr.meta {
        AttrMeta::List { path: _, args } => {
            if acc.is_some() {
                return Err(String::from_str("Expected at most one #[new] attribute"));
            }
            assert(reading.lists@.subrange(0, reading.lists@.len() as int) =~= reading.lists@);
            match lookup_list(&reading.lists, args.as_str(), 0) {
                None => Err(String::from_str("Invalid #[new] attribute: ")),
                Some(k) => match &reading.lists[k].nested {
                    Err(e) => Err(String::from_str("Invalid #[new] attribute: ").concat(e.as_str())),
                    Ok(items) => new_args_checked(items, reading),
                },
            }
        },
        _ => {
            if path.is_ident("new") {
                Err(String::from_str("Invalid #[new] attribute, expected #[new(..)]"))
            } else {
                Ok(acc)
            }
        },
    }
}

/// Once some prefix of the arguments is rejected, every longer prefix is
/// rejected with the same message.
proof fn lemma_args_error_persists(acc: Option<FieldAttrView>, items: Seq<NestedMeta>, k: int, m: Seq<char>, reading: ReadingView)
    requires
        0 <= k <= items.len(),
        new_args_outcome(acc, items.take(k), reading) == Err::<Option<FieldAttrView>, Seq<char>>(m),
    ensures
        new_args_outcome(acc, items, reading) == Err::<Option<FieldAttrView>, Seq<char>>(m),
    decreases items.len() - k,
{
    if k < items.len() {
        assert(items.take(k + 1).drop_last() =~= items.take(k));
        lemma_args_error_persists(acc, items, k + 1, m, reading);
    } else {
        assert(items.take(k) =~= items);
    }
}

/// Once some prefix of the attributes is rejected, every longer prefix is
/// rejected with the same message.
proof fn lemma_attrs_error_persists(attrs: Seq<Attribute>, k: int, m: Seq<char>, reading: ReadingView)
    requires
        0 <= k <= attrs.len(),
        field_attr_outcome(attrs.take(k), reading) == Err::<Option<FieldAttrView>, Seq<char>>(m),
    ensures
        field_attr_outcome(attrs, reading) == Err::<Option<FieldAttrView>, Seq<char>>(m),
    decreases attrs.len() - k,
{
    if k < attrs.len() {
        assert(attrs.take(k + 1).drop_last() =~= attrs.take(k));
        lemma_attrs_error_persists(attrs, k + 1, m, reading);
    } else {
        assert(attrs.take(k) =~= attrs);
    }
}

impl FieldAttr {
    /// The initializer's code: `::core::default::Default::default()` or
    /// the given expression.
    pub open spec fn spec_tokens(a: FieldAttrView) -> Seq<char> {
        match a {
            FieldAttrView::Default => "::core::default::Default::default()"@,
            FieldAttrView::Value(s) => s,
        }
    }

    /// The initializer's code.
    pub fn as_tokens(&self) -> (s: String)
        ensures
            s@ == Self::spec_tokens(self@),
    {
        match self {
            FieldAttr::Default => String::from_str("::core::default::Default::default()"),
            FieldAttr::Value(s) => s.clone(),
        }
    }

    /// Reads a field's attributes, given the outcomes `reading` of parsing attribute arguments and lexing
    /// their string values: the initializer they ask for, `None` when there
    /// is no `#[new(..)]`, or the message with which the attributes are
    /// rejected.
    pub fn parse_checked_with(attrs: &Vec<Attribute>, reading: &Reading) -> (r: Result<Option<FieldAttr>, String>)
        ensures
            match r {
                Ok(a) => field_attr_outcome(attrs@, reading@) == Ok::<Option<FieldAttrView>, Seq<char>>(opt_attr_view(a)),
                Err(m) => field_attr_outcome(attrs@, reading@) == Err::<Option<FieldAttrView>, Seq<char>>(m@),
            },
    {
        let mut result: Option<FieldAttr> = None;
        let n = attrs.len();
        let mut i: usize = 0;
        while i < n
            invariant
                n == attrs@.len(),
                i <= n,
                field_attr_outcome(attrs@.take(i as int), reading@) == Ok::<Option<FieldAttrView>, Seq<char>>(opt_attr_view(result)),
            decreases n - i,
        {
            proof {
                assert(attrs@.take(i as int + 1).drop_last() =~= attrs@.take(i as int));
                if i == 0 {
                    assert(attrs@.take(0) =~= Seq::<Attribute>::empty());
                }
            }
            match attr_outcome(result, &attrs[i], reading) {
                Ok(a) => {
                    result = a;
                },
                Err(m) => {
                    proof {
                        lemma_attrs_error_persists(attrs@, i as int + 1, m@, reading@);
                    }
                    return Err(m);
                },
            }
            i = i + 1;
        }
        assert(attrs@.take(n as int) =~= attrs@);
        Ok(result)
    }

    /// Reads the attributes of a field whose attributes are accepted, given
    /// the outcomes `reading` of parsing attribute arguments and lexing their string values.
    pub fn parse(attrs: &Vec<Attribute>, reading: &Reading) -> (r: Option<FieldAttr>)
        requires
            field_attrs_ok(attrs@, reading@),
        ensures
            field_attr_outcome(attrs@, reading@) == Ok::<Option<FieldAttrView>, Seq<char>>(opt_attr_view(r)),
    {
        match Self::parse_checked_with(attrs, reading) {
            Ok(a) => a,
            Err(_) => None,
        }
    }

    /// Reads a field's attributes, lexing their string values: the
    /// initializer they ask for, `None` when there is no `#[new(..)]`, or
    /// the message with which the attributes are rejected. Which way each
    /// value lexes is left to the lexer, so the result is the reading for
    /// some outcome of lexing exactly those values.
    pub fn parse_checked(attrs: &Vec<Attribute>) -> (r: Result<Option<FieldAttr>, String>)
        ensures
            exists|t: ReadingView| {
                &&& list_args_of(t.lists) == attr_list_args(attrs@)
                &&& lexed_values(t.lexed) == attr_str_values(attrs@, t.lists)
                &&& match r {
                    Ok(a) => #[trigger] field_attr_outcome(attrs@, t) == Ok::<Option<FieldAttrView>, Seq<char>>(opt_attr_view(a)),
                    Err(m) => field_attr_outcome(attrs@, t) == Err::<Option<FieldAttrView>, Seq<char>>(m@),
                }
            },
    {
        let reading = read_attrs(attrs);
        let r = Self::parse_checked_with(attrs, &reading);
        assert(lexed_values(reading@.lexed) == attr_str_values(attrs@, reading@.lists));
        r
    }
}

/// The initializer a field's accepted attributes ask for.
pub open spec fn field_attr_of(f: Field, reading: ReadingView) -> Option<FieldAttrView> {
    field_attr_outcome(f.attrs@, reading)->Ok_0
}

/// The name by which a field is known in generated code: its own name,
/// or `f{index}` in a tuple struct.
pub open spec fn field_ident(f: Field, idx: nat, named: bool) -> Seq<char> {
    if named {
        f.ident.unwrap()@
    } else {
        "f"@ + decimal(idx)
    }
}

/// Whether a type is a path type without a qualified self whose last
/// segment is `PhantomData`.
pub open spec fn spec_is_phantom_data(ty: Type) -> bool {
    &&& !ty.qself
    &&& ty.path matches Some(p)
    &&& p.segments@.len() > 0
    &&& p.segments@.last().ident@ == "PhantomData"@
}

/// Whether `new` takes the field as a parameter: it has no `#[new(..)]`
/// initializer and is not `PhantomData`.
pub open spec fn needs_arg(f: Field, reading: ReadingView) -> bool {
    field_attr_of(f, reading).is_none() && !spec_is_phantom_data(f.ty)
}

/// The parameter `name: Type` for a field.
pub open spec fn field_arg(f: Field, idx: nat, named: bool) -> Seq<char> {
    field_ident(f, idx, named) + ": "@ + f.ty.source@
}

/// The value a field is initialized with.
pub open spec fn field_init_value(f: Field, idx: nat, named: bool, reading: ReadingView) -> Seq<char> {
    if spec_is_phantom_data(f.ty) {
        "::core::marker::PhantomData"@
    } else {
        match field_attr_of(f, reading) {
            None => field_ident(f, idx, named),
            Some(a) => FieldAttr::spec_tokens(a),
        }
    }
}

/// The initializer of a field in the constructor expression: `name: value`
/// for a named field, `value` for a tuple field.
pub open spec fn field_init(f: Field, idx: nat, named: bool, reading: ReadingView) -> Seq<char> {
    if named {
        field_ident(f, idx, named) + ": "@ + field_init_value(f, idx, named, reading)
    } else {
        field_init_value(f, idx, named, reading)
    }
}

/// A field of a struct seen by the constructor generator: its type, its
/// `#[new(..)]` initializer, the name it is known by, and whether the
/// struct's fields are named.
pub struct FieldExt<'a> {
    pub ty: &'a Type,
    pub attr: Option<FieldAttr>,
    pub ident: String,
    pub named: bool,
}

impl<'a> FieldExt<'a> {
    /// Reads field number `idx` of a struct, given the outcomes `reading` of
    /// lexing the string values of its attributes.
    pub fn new(field: &'a Field, idx: usize, named: bool, reading: &Reading) -> (r: FieldExt<'a>)
        requires
            field_attrs_ok(field.attrs@, reading@),
            named ==> field.ident.is_some(),
        ensures
            *r.ty == field.ty,
            opt_attr_view(r.attr) == field_attr_of(*field, reading@),
            r.ident@ == field_ident(*field, idx as nat, named),
            r.named == named,
    {
        let ident = if named {
            match &field.ident {
                Some(name) => name.clone(),
                None => String::new(),
            }
        } else {
            let digits = decimal_string(idx as u64);
            String::from_str("f").concat(digits.as_str())
        };
        FieldExt { ty: &field.ty, attr: FieldAttr::parse(&field.attrs, reading), ident, named }
    }

    /// Whether the field has a `#[new(..)]` initializer.
    pub fn has_attr(&self) -> (r: bool)
        ensures
            r == self.attr.is_some(),
    {
        self.attr.is_some()
    }

    /// Whether the field's type is `PhantomData`.
    pub fn is_phantom_data(&self) -> (r: bool)
        ensures
            r == spec_is_phantom_data(*self.ty),
    {
        if self.ty.qself {
            return false;
        }
        match &self.ty.path {
            Some(p) => {
                let n = p.segments.len();
                n > 0 && text_eq(p.segments[n - 1].ident.as_str(), "PhantomData")
            },
            None => false,
        }
    }

    /// Whether `new` takes the field as a parameter.
    pub fn needs_arg(&self) -> (r: bool)
        ensures
            r == (!self.attr.is_some() && !spec_is_phantom_data(*self.ty)),
    {
        !self.has_attr() && !self.is_phantom_data()
    }

    /// The parameter `name: Type`.
    pub fn as_arg(&self) -> (s: String)
        ensures
            s@ == self.ident@ + ": "@ + self.ty.source@,
    {
        let s = self.ident.clone();
        let s = s.concat(": ");
        s.concat(self.ty.source.as_str())
    }

    /// The field's initializer in the constructor expression.
    pub fn as_init(&self) -> (s: String)
        ensures
            ({
                let value = if spec_is_phantom_data(*self.ty) {
                    "::core::marker::PhantomData"@
                } else {
                    match self.attr {
                        None => self.ident@,
                        Some(a) => FieldAttr::spec_tokens(a@),
                    }
                };
                s@ == if self.named { self.ident@ + ": "@ + value } else { value }
            }),
    {
        let value = if self.is_phantom_data() {
            String::from_str("::core::marker::PhantomData")
        } else {
            match &self.attr {
                None => self.ident.clone(),
                Some(a) => a.as_tokens(),
            }
        };
        if self.named {
            let s = self.ident.clone();
            let s = s.concat(": ");
            s.concat(value.as_str())
        } else {
            value
        }
    }
}

/// Whether a path is one of the lint attributes `allow`, `deny`, `forbid`
/// and `warn`.
pub open spec fn is_lint_path(p: Path) -> bool {
    p.spec_is_ident("allow"@) || p.spec_is_ident("deny"@) || p.spec_is_ident("forbid"@)
        || p.spec_is_ident("warn"@)
}

/// Whether an attribute is a lint: `#[allow(..)]`, `#[deny(..)]`,
/// `#[forbid(..)]` or `#[warn(..)]`.
pub open spec fn is_lint(meta: AttrMeta) -> bool {
    meta matches AttrMeta::List { path, .. } && is_lint_path(path)
}

/// Whether an attribute is a conditional lint: `#[cfg_attr(cond, lint(..))]`
/// with exactly two arguments, the second a lint.
pub open spec fn is_cfg_attr_lint(meta: AttrMeta, lists: Seq<ParsedList>) -> bool {
    match meta {
        AttrMeta::List { path, args } => path.spec_is_ident("cfg_attr"@) && match list_nested(lists, args@) {
            Ok(items) => items.len() == 2 && (items[1] matches NestedMeta::List(p) && is_lint_path(p)),
            Err(_) => false,
        },
        _ => false,
    }
}

/// The token text of the lint attributes among `attrs`, in order.
pub open spec fn lint_attr_sources(attrs: Seq<Attribute>, lists: Seq<ParsedList>) -> Seq<Seq<char>>
    decreases attrs.len(),
{
    if attrs.len() == 0 {
        Seq::empty()
    } else {
        let rest = lint_attr_sources(attrs.drop_last(), lists);
        let a = attrs.last();
        if is_lint(a.meta) || is_cfg_attr_lint(a.meta, lists) {
            rest.push(a.source@)
        } else {
            rest
        }
    }
}

fn is_lint_path_exec(p: &Path) -> (r: bool)
    ensures
        r == is_lint_path(*p),
{
    p.is_ident("allow") || p.is_ident("deny") || p.is_ident("forbid") || p.is_ident("warn")
}

fn is_lint_exec(meta: &AttrMeta, lists: &Vec<ParsedList>) -> (r: bool)
    ensures
        r == (is_lint(*meta) || is_cfg_attr_lint(*meta, lists@)),
{
    match meta {
        AttrMeta::List { path, args } => {
            if is_lint_path_exec(path) {
                true
            } else if path.is_ident("cfg_attr") {
                assert(lists@.subrange(0, lists@.len() as int) =~= lists@);
                let found = match lookup_list(lists, args.as_str(), 0) {
                    Some(k) => &lists[k].nested,
                    None => {
                        return false;
                    },
                };
                match found {
                    Ok(items) => {
                        if items.len() == 2 {
                            match &items[1] {
                                NestedMeta::List(p) => is_lint_path_exec(p),
                                _ => false,
                            }
                        } else {
                            false
                        }
                    },
                    Err(_) => false,
                }
            } else {
                false
            }
        },
        _ => false,
    }
}

/// The token text of the lint attributes of an item, which its generated
/// constructor carries too, given the outcomes `reading` of parsing the
/// attributes' argument lists.
pub fn collect_parent_lint_attrs_with(attrs: &Vec<Attribute>, reading: &Reading) -> (r: Vec<String>)
    ensures
        texts(r@) == lint_attr_sources(attrs@, reading@.lists),
{
    let mut r: Vec<String> = Vec::new();
    let n = attrs.len();
    let mut i: usize = 0;
    while i < n
        invariant
            n == attrs@.len(),
            i <= n,
            texts(r@) =~= lint_attr_sources(attrs@.take(i as int), reading@.lists),
        decreases n - i,
    {
        proof {
            assert(attrs@.take(i as int + 1).drop_last() =~= attrs@.take(i as int));
        }
        if is_lint_exec(&attrs[i].meta, &reading.lists) {
            r.push(attrs[i].source.clone());
        }
        i = i + 1;
    }
    assert(attrs@.take(n as int) =~= attrs@);
    r
}

/// The token text of the lint attributes of an item, which its generated
/// constructor carries too. The attributes' argument lists are parsed
/// here; how that turns out is left to `syn`, so the result is the one for
/// some outcome of parsing exactly those lists.
pub fn collect_parent_lint_attrs(attrs: &Vec<Attribute>) -> (r: Vec<String>)
    ensures
        exists|t: ReadingView| list_args_of(t.lists) == attr_list_args(attrs@)
            && texts(r@) == #[trigger] lint_attr_sources(attrs@, t.lists),
{
    let reading = read_attrs(attrs);
    collect_parent_lint_attrs_with(attrs, &reading)
}

/// The fields of a struct in order.
pub open spec fn fields_seq(fields: Fields) -> Seq<Field> {
    match fields {
        Fields::Named(v) => v@,
        Fields::Unnamed(v) => v@,
        Fields::Unit => Seq::empty(),
    }
}

/// Whether a struct's fields are named.
pub open spec fn fields_named(fields: Fields) -> bool {
    fields is Named
}

/// Whether constructors can be generated for a struct with these fields:
/// every field's attributes are accepted and named fields have names.
pub open spec fn fields_ok(fields: Fields, reading: ReadingView) -> bool {
    forall|i: int| 0 <= i < fields_seq(fields).len() ==> {
        &&& field_attrs_ok(#[trigger] fields_seq(fields)[i].attrs@, reading)
        &&& fields_named(fields) ==> fields_seq(fields)[i].ident.is_some()
    }
}

/// The parameters of `new`: `name: Type` for each field that needs one,
/// in field order.
pub open spec fn new_params(fields: Seq<Field>, named: bool, reading: ReadingView) -> Seq<Seq<char>>
    decreases fields.len(),
{
    if fields.len() == 0 {
        Seq::empty()
    } else {
        let rest = new_params(fields.drop_last(), named, reading);
        let i = (fields.len() - 1) as nat;
        if needs_arg(fields.last(), reading) {
            rest.push(field_arg(fields.last(), i, named))
        } else {
            rest
        }
    }
}

/// The names of the parameters of `new`, in field order.
pub open spec fn new_param_names(fields: Seq<Field>, named: bool, reading: ReadingView) -> Seq<Seq<char>>
    decreases fields.len(),
{
    if fields.len() == 0 {
        Seq::empty()
    } else {
        let rest = new_param_names(fields.drop_last(), named, reading);
        let i = (fields.len() - 1) as nat;
        if needs_arg(fields.last(), reading) {
            rest.push(field_ident(fields.last(), i, named))
        } else {
            rest
        }
    }
}

/// The initializers of all fields, in field order.
pub open spec fn new_inits(fields: Seq<Field>, named: bool, reading: ReadingView) -> Seq<Seq<char>> {
    Seq::new(fields.len(), |i: int| field_init(fields[i], i as nat, named, reading))
}

/// The doc attribute of a generated constructor of `name`.
pub open spec fn doc_attr(name: Seq<char>) -> Seq<char> {
    "#[doc = \"Constructs a new `"@ + name + "`.\"]"@
}

/// The constructor expression: the struct's name followed by the
/// initializers in braces (named fields) or parentheses (tuple fields),
/// or the name alone for a unit struct.
pub open spec fn constructor_expr(name: Seq<char>, fields: Fields, reading: ReadingView) -> Seq<char> {
    let inits = join(new_inits(fields_seq(fields), fields_named(fields), reading), ", "@);
    match fields {
        Fields::Named(_) => name + " { "@ + inits + " }"@,
        Fields::Unnamed(_) => name + " ("@ + inits + ")"@,
        Fields::Unit => name,
    }
}

/// The impl block header `impl<..> Name<..> where .. {`.
pub open spec fn impl_header(item: ItemStruct, name: Seq<char>) -> Seq<char> {
    "impl "@ + item.impl_generics@ + " "@ + name + " "@ + item.ty_generics@ + " "@ + item.where_clause@ + " {"@
}

/// The generated `new` of a struct named `name`:
/// `impl<..> Name<..> where .. { #[doc = ".."] lints pub fn new(params) -> Self { Name inits } }`.
pub open spec fn struct_new_text(item: ItemStruct, name: Seq<char>, reading: ReadingView) -> Seq<char> {
    impl_header(item, name) + " "@ + doc_attr(name) + " "@
        + join(lint_attr_sources(item.attrs@, reading.lists), ", "@) + " pub fn new("@
        + join(new_params(fields_seq(item.fields), fields_named(item.fields), reading), ", "@)
        + ") -> Self { "@ + constructor_expr(name, item.fields, reading) + " } }"@
}

/// The generated `new` of a struct.
pub open spec fn spec_struct_new_impl(item: ItemStruct, reading: ReadingView) -> Seq<char> {
    struct_new_text(item, item.ident@, reading)
}

/// The generated `new` of a service named `delegate`, which builds the
/// implementation struct `item`, named `impl_name`, and wraps it in an
/// `Arc`: `impl<..> Service<..> where .. { #[doc = ".."] lints
/// pub fn new(params) -> Self { Self { inner: ::std::sync::Arc::new(Impl::new(names)), } } }`.
pub open spec fn delegate_new_text(item: ItemStruct, impl_name: Seq<char>, delegate: Seq<char>, reading: ReadingView) -> Seq<char> {
    impl_header(item, delegate) + " "@ + doc_attr(delegate) + " "@
        + join(lint_attr_sources(item.attrs@, reading.lists), ", "@) + " pub fn new("@
        + join(new_params(fields_seq(item.fields), fields_named(item.fields), reading), ", "@)
        + ") -> Self { Self { inner: ::std::sync::Arc::new("@ + impl_name + "::new("@
        + join(new_param_names(fields_seq(item.fields), fields_named(item.fields), reading), ", "@)
        + ")), } }"@ + " }"@
}

/// The generated `new` of the service `delegate` whose implementation
/// struct is `item`.
pub open spec fn spec_delegate_new_impl(item: ItemStruct, delegate: Seq<char>, reading: ReadingView) -> Seq<char> {
    delegate_new_text(item, item.ident@, delegate, reading)
}

fn doc_attr_string(name: &str) -> (s: String)
    ensures
        s@ == doc_attr(name@),
{
    let s = String::from_str("#[doc = \"Constructs a new `");
    let s = s.concat(name);
    s.concat("`.\"]")
}

fn impl_header_string(item: &ItemStruct, name: &str) -> (s: String)
    ensures
        s@ == impl_header(*item, name@),
{
    let mut s = String::from_str("impl ");
    s.append(item.impl_generics.as_str());
    s.append(" ");
    s.append(name);
    s.append(" ");
    s.append(item.ty_generics.as_str());
    s.append(" ");
    s.append(item.where_clause.as_str());
    s.append(" {");
    s
}

/// The parameters, parameter names and initializers of a struct's fields.
fn field_lists(fields: &Vec<Field>, named: bool, reading: &Reading) -> (r: (Vec<String>, Vec<String>, Vec<String>))
    requires
        forall|i: int| 0 <= i < fields@.len() ==> {
            &&& field_attrs_ok(#[trigger] fields@[i].attrs@, reading@)
            &&& named ==> fields@[i].ident.is_some()
        },
    ensures
        texts(r.0@) == new_params(fields@, named, reading@),
        texts(r.1@) == new_param_names(fields@, named, reading@),
        texts(r.2@) == new_inits(fields@, named, reading@),
{
    let mut params: Vec<String> = Vec::new();
    let mut names: Vec<String> = Vec::new();
    let mut inits: Vec<String> = Vec::new();
    let n = fields.len();
    let mut i: usize = 0;
    while i < n
        invariant
            n == fields@.len(),
            i <= n,
            forall|k: int| 0 <= k < fields@.len() ==> {
                &&& field_attrs_ok(#[trigger] fields@[k].attrs@, reading@)
                &&& named ==> fields@[k].ident.is_some()
            },
            texts(params@) =~= new_params(fields@.take(i as int), named, reading@),
            texts(names@) =~= new_param_names(fields@.take(i as int), named, reading@),
            inits@.len() == i,
            texts(inits@) =~= new_inits(fields@.take(i as int), named, reading@),
        decreases n - i,
    {
        let ext = FieldExt::new(&fields[i], i, named, reading);
        proof {
            let t = fields@.take(i as int + 1);
            assert(t.drop_last() =~= fields@.take(i as int));
            assert(t.last() == fields@[i as int]);
        }
        if ext.needs_arg() {
            params.push(ext.as_arg());
            names.push(ext.ident.clone());
        }
        let ghost old_inits = inits@;
        let init = ext.as_init();
        inits.push(init);
        proof {
            assert forall|k: int| 0 <= k < i + 1 implies texts(inits@)[k] == new_inits(fields@.take(i as int + 1), named, reading@)[k] by {
                if k < i {
                    assert(texts(old_inits)[k] == new_inits(fields@.take(i as int), named, reading@)[k]);
                }
            }
        }
        i = i + 1;
    }
    assert(fields@.take(n as int) =~= fields@);
    (params, names, inits)
}

fn constructor_expr_string(name: &str, fields: &Fields, inits: &Vec<String>, reading: &Reading) -> (s: String)
    requires
        texts(inits@) == new_inits(fields_seq(*fields), fields_named(*fields), reading@),
    ensures
        s@ == constructor_expr(name@, *fields, reading@),
{
    let joined = join_strings(inits, ", ");
    match fields {
        Fields::Named(_) => {
            let s = String::from_str(name);
            let s = s.concat(" { ");
            let s = s.concat(joined.as_str());
            s.concat(" }")
        },
        Fields::Unnamed(_) => {
            let s = String::from_str(name);
            let s = s.concat(" (");
            let s = s.concat(joined.as_str());
            s.concat(")")
        },
        Fields::Unit => String::from_str(name),
    }
}

fn struct_field_lists(item: &ItemStruct, reading: &Reading) -> (r: (Vec<String>, Vec<String>, Vec<String>))
    requires
        fields_ok(item.fields, reading@),
    ensures
        texts(r.0@) == new_params(fields_seq(item.fields), fields_named(item.fields), reading@),
        texts(r.1@) == new_param_names(fields_seq(item.fields), fields_named(item.fields), reading@),
        texts(r.2@) == new_inits(fields_seq(item.fields), fields_named(item.fields), reading@),
{
    match &item.fields {
        Fields::Named(v) => field_lists(v, true, reading),
        Fields::Unnamed(v) => field_lists(v, false, reading),
        Fields::Unit => {
            let empty: Vec<Field> = Vec::new();
            let r = field_lists(&empty, false, reading);
            assert(empty@ =~= Seq::<Field>::empty());
            r
        },
    }
}

/// Generates `new` for a struct, naming the struct `name`.
pub(crate) fn struct_new_named(item: &ItemStruct, name: &str, reading: &Reading) -> (s: String)
    requires
        fields_ok(item.fields, reading@),
    ensures
        s@ == struct_new_text(*item, name@, reading@),
{
    let (params, _names, inits) = struct_field_lists(item, reading);
    let mut s = impl_header_string(item, name);
    s.append(" ");
    let doc = doc_attr_string(name);
    s.append(doc.as_str());
    s.append(" ");
    let lints = join_strings(&collect_parent_lint_attrs_with(&item.attrs, reading), ", ");
    s.append(lints.as_str());
    s.append(" pub fn new(");
    let ps = join_strings(&params, ", ");
    s.append(ps.as_str());
    s.append(") -> Self { ");
    let ctor = constructor_expr_string(name, &item.fields, &inits, reading);
    s.append(ctor.as_str());
    s.append(" } }");
    s
}

/// Generates `new` for the service `delegate` whose implementation struct
/// `item` is named `impl_name`.
pub(crate) fn delegate_new_named(item: &ItemStruct, impl_name: &str, delegate: &str, reading: &Reading) -> (s: String)
    requires
        fields_ok(item.fields, reading@),
    ensures
        s@ == delegate_new_text(*item, impl_name@, delegate@, reading@),
{
    let (params, names, _inits) = struct_field_lists(item, reading);
    let mut s = impl_header_string(item, delegate);
    s.append(" ");
    let doc = doc_attr_string(delegate);
    s.append(doc.as_str());
    s.append(" ");
    let lints = join_strings(&collect_parent_lint_attrs_with(&item.attrs, reading), ", ");
    s.append(lints.as_str());
    s.append(" pub fn new(");
    let ps = join_strings(&params, ", ");
    s.append(ps.as_str());
    s.append(") -> Self { Self { inner: ::std::sync::Arc::new(");
    s.append(impl_name);
    s.append("::new(");
    let ns = join_strings(&names, ", ");
    s.append(ns.as_str());
    s.append(")), } }");
    s.append(" }");
    s
}

/// Generates `new` for a struct, given the outcomes `reading` of parsing attribute arguments and lexing the
/// string values of its fields' attributes.
pub fn expand_struct_new_impl(item: &ItemStruct, reading: &Reading) -> (s: String)
    requires
        fields_ok(item.fields, reading@),
    ensures
        s@ == spec_struct_new_impl(*item, reading@),
{
    struct_new_named(item, item.ident.as_str(), reading)
}

/// Generates `new` for the service `delegate` whose implementation struct
/// is `item`, given the outcomes `reading` of parsing attribute arguments and lexing the string values of its
/// fields' attributes.
pub fn expand_delegate_new_impl(item: &ItemStruct, delegate: &str, reading: &Reading) -> (s: String)
    requires
        fields_ok(item.fields, reading@),
    ensures
        s@ == spec_delegate_new_impl(*item, delegate@, reading@),
{
    delegate_new_named(item, item.ident.as_str(), delegate, reading)
}

/// Law: an inner attribute, or one whose path does not end in `new`,
/// never changes what a field's attributes give.
pub proof fn lemma_unrelated_attr_ignored(attrs: Seq<Attribute>, a: Attribute, reading: ReadingView)
    requires
        !a.outer || (a.meta.spec_path().segments@.len() > 0 && attr_last_ident(a) != "new"@),
    ensures
        field_attr_outcome(attrs.push(a), reading) == field_attr_outcome(attrs, reading),
{
    assert(attrs.push(a).drop_last() =~= attrs);
}

/// Law: a field takes at most one initializer attribute: a `#[new(..)]`
/// that follows one which set an initializer is rejected.
pub proof fn lemma_second_new_attr_rejected(attrs: Seq<Attribute>, a: Attribute, reading: ReadingView)
    requires
        field_attr_outcome(attrs, reading) matches Ok(Some(_)),
        a.outer,
        a.meta is List,
        a.meta.spec_path().segments@.len() > 0,
        attr_last_ident(a) == "new"@,
    ensures
        field_attr_outcome(attrs.push(a), reading) == Err::<Option<FieldAttrView>, Seq<char>>("Expected at most one #[new] attribute"@),
{
    assert(attrs.push(a).drop_last() =~= attrs);
}

/// Law: the lint attributes `#[allow(..)]`, `#[deny(..)]`, `#[forbid(..)]`
/// and `#[warn(..)]` of a struct are all carried onto its generated
/// constructor, in order; an attribute without parentheses never is.
pub proof fn lemma_lint_attrs_carried(attrs: Seq<Attribute>, a: Attribute, lists: Seq<ParsedList>)
    ensures
        (a.meta matches AttrMeta::List { path, .. } && (path.spec_is_ident("allow"@) || path.spec_is_ident("deny"@)
            || path.spec_is_ident("forbid"@) || path.spec_is_ident("warn"@)))
            ==> lint_attr_sources(attrs.push(a), lists) == lint_attr_sources(attrs, lists).push(a.source@),
        !(a.meta is List) ==> lint_attr_sources(attrs.push(a), lists) == lint_attr_sources(attrs, lists),
{
    assert(attrs.push(a).drop_last() =~= attrs);
}

/// Law: a conditional lint `#[cfg_attr(cond, lint(..))]`, whose argument
/// list reads as exactly two arguments the second of which is a lint with
/// parentheses, is carried onto the generated constructor as well.
pub proof fn lemma_cfg_attr_lint_carried(attrs: Seq<Attribute>, a: Attribute, lists: Seq<ParsedList>)
    requires
        a.meta is List,
        a.meta.spec_path().spec_is_ident("cfg_attr"@),
        list_nested(lists, a.meta->args@) is Ok,
        list_nested(lists, a.meta->args@)->Ok_0.len() == 2,
        list_nested(lists, a.meta->args@)->Ok_0[1] is List,
        ({
            let p = list_nested(lists, a.meta->args@)->Ok_0[1]->List_0;
            p.spec_is_ident("allow"@) || p.spec_is_ident("deny"@) || p.spec_is_ident("forbid"@)
                || p.spec_is_ident("warn"@)
        }),
    ensures
        lint_attr_sources(attrs.push(a), lists) == lint_attr_sources(attrs, lists).push(a.source@),
{
    assert(attrs.push(a).drop_last() =~= attrs);
}

/// Law: how `new` initializes a field. A `PhantomData` field gets
/// `::core::marker::PhantomData`; otherwise `#[new(default)]` gives
/// `::core::default::Default::default()`, `#[new(value = "..")]` gives the
/// value's tokens, and a field without either is set from the parameter of
/// its name (`f{index}` in a tuple struct). A named field is written
/// `name: value`.
pub proof fn lemma_field_initializers(f: Field, idx: nat, named: bool, reading: ReadingView)
    ensures
        spec_is_phantom_data(f.ty) ==> field_init_value(f, idx, named, reading) == "::core::marker::PhantomData"@,
        !spec_is_phantom_data(f.ty) ==> field_init_value(f, idx, named, reading) == match field_attr_of(f, reading) {
            Some(FieldAttrView::Default) => "::core::default::Default::default()"@,
            Some(FieldAttrView::Value(t)) => t,
            None => if named { f.ident.unwrap()@ } else { "f"@ + decimal(idx) },
        },
        named ==> field_init(f, idx, named, reading) == f.ident.unwrap()@ + ": "@ + field_init_value(f, idx, named, reading),
        !named ==> field_init(f, idx, named, reading) == field_init_value(f, idx, named, reading),
        needs_arg(f, reading) <==> (!spec_is_phantom_data(f.ty) && field_attr_of(f, reading) is None),
{
}

/// Law: a field's single `#[new(value = "v")]` attribute asks for the
/// tokens `v` lexes to, and is rejected with the value in the message when
/// `v` does not lex; a single `#[new(default)]` asks for
/// `Default::default()`.
pub proof fn lemma_new_value_is_lexed(a: Attribute, reading: ReadingView)
    requires
        a.outer,
        a.meta is List,
        a.meta.spec_path().spec_is_ident("new"@),
    ensures
        match list_nested(reading.lists, a.meta->args@) {
            Ok(items) => items.len() == 1 ==> match items[0] {
                NestedMeta::NameValue(p, MetaValue::Str(v)) => p.spec_is_ident("value"@) ==> field_attr_outcome(seq![a], reading)
                    == match lexed_tokens(reading.lexed, v@) {
                        Some(t) => Ok::<Option<FieldAttrView>, Seq<char>>(Some(FieldAttrView::Value(t))),
                        None => Err::<Option<FieldAttrView>, Seq<char>>("Invalid expression in #[new]: `"@ + v@ + "`"@),
                    },
                NestedMeta::Path(p) => p.spec_is_ident("default"@) ==> field_attr_outcome(seq![a], reading)
                    == Ok::<Option<FieldAttrView>, Seq<char>>(Some(FieldAttrView::Default)),
                _ => true,
            },
            Err(_) => true,
        },
{
    assert(seq![a].drop_last() =~= Seq::<Attribute>::empty());
    assert(seq![a].last() == a);
    assert(attr_last_ident(a) == "new"@) by {
        let segs = a.meta.spec_path().segments@;
        assert(segs.last() == segs[0]);
    }
    assert(field_attr_outcome(Seq::<Attribute>::empty(), reading) == Ok::<Option<FieldAttrView>, Seq<char>>(None));
    if let Ok(items) = list_nested(reading.lists, a.meta->args@) {
        if items.len() == 1 {
            assert(items.drop_last() =~= Seq::<NestedMeta>::empty());
            assert(items.last() == items[0]);
            assert(new_args_outcome(None, items.drop_last(), reading) == Ok::<Option<FieldAttrView>, Seq<char>>(None));
            assert(field_attr_outcome(seq![a], reading) == new_attr_outcome(None, a, reading));
            assert(new_attr_outcome(None, a, reading) == new_args_outcome(None, items, reading));
        }
    }
}

/// Law: the generated `new` of a struct is an impl block for the struct
/// with its generics and where clause, documented as constructing it; it
/// carries the struct's lint attributes, takes the parameters in field
/// order and builds the struct from the field initializers. A service
/// handle's `new` takes the same parameters and passes their names on, in
/// order, to the implementation's `new`, whose result it wraps in an `Arc`.
pub proof fn lemma_constructor_shape(item: ItemStruct, name: Seq<char>, impl_name: Seq<char>, reading: ReadingView)
    ensures
        ("impl "@ + item.impl_generics@ + " "@ + name + " "@ + item.ty_generics@ + " "@ + item.where_clause@ + " {"@
            + " "@ + "#[doc = \"Constructs a new `"@ + name + "`.\"]"@).is_prefix_of(struct_new_text(item, name, reading)),
        contains_text(struct_new_text(item, name, reading),
            join(lint_attr_sources(item.attrs@, reading.lists), ", "@) + " pub fn new("@
                + join(new_params(fields_seq(item.fields), fields_named(item.fields), reading), ", "@)
                + ") -> Self { "@ + constructor_expr(name, item.fields, reading) + " } }"@),
        contains_text(delegate_new_text(item, impl_name, name, reading),
            join(lint_attr_sources(item.attrs@, reading.lists), ", "@) + " pub fn new("@
                + join(new_params(fields_seq(item.fields), fields_named(item.fields), reading), ", "@)
                + ") -> Self { Self { inner: ::std::sync::Arc::new("@ + impl_name + "::new("@
                + join(new_param_names(fields_seq(item.fields), fields_named(item.fields), reading), ", "@)
                + ")), } }"@),
        constructor_expr(name, item.fields, reading) == match item.fields {
            Fields::Named(_) => name + " { "@ + join(new_inits(fields_seq(item.fields), true, reading), ", "@) + " }"@,
            Fields::Unnamed(_) => name + " ("@ + join(new_inits(fields_seq(item.fields), false, reading), ", "@) + ")"@,
            Fields::Unit => name,
        },
{
    assert forall|x: Seq<char>, y: Seq<char>, z: Seq<char>| #[trigger] (x + (y + z)) == (x + y) + z by {
        vstd::seq_lib::lemma_concat_associative(x, y, z);
    }
    let p = "impl "@ + item.impl_generics@ + " "@ + name + " "@ + item.ty_generics@ + " "@ + item.where_clause@ + " {"@
        + " "@ + "#[doc = \"Constructs a new `"@ + name + "`.\"]"@;
    let sn = struct_new_text(item, name, reading);
    let t1 = join(lint_attr_sources(item.attrs@, reading.lists), ", "@) + " pub fn new("@
        + join(new_params(fields_seq(item.fields), fields_named(item.fields), reading), ", "@)
        + ") -> Self { "@ + constructor_expr(name, item.fields, reading) + " } }"@;
    assert(sn == (p + " "@) + t1 + Seq::<char>::empty());
    assert(sn.subrange(0, p.len() as int) =~= p);
    lemma_contains_middle(p + " "@, t1, Seq::empty());
    let dn = delegate_new_text(item, impl_name, name, reading);
    let t2 = join(lint_attr_sources(item.attrs@, reading.lists), ", "@) + " pub fn new("@
        + join(new_params(fields_seq(item.fields), fields_named(item.fields), reading), ", "@)
        + ") -> Self { Self { inner: ::std::sync::Arc::new("@ + impl_name + "::new("@
        + join(new_param_names(fields_seq(item.fields), fields_named(item.fields), reading), ", "@)
        + ")), } }"@;
    assert(dn == (p + " "@) + t2 + " }"@);
    lemma_contains_middle(p + " "@, t2, " }"@);
}

/// The types of the fields that `new` takes, in field order.
pub open spec fn new_param_types(fields: Seq<Field>, reading: ReadingView) -> Seq<Seq<char>>
    decreases fields.len(),
{
    if fields.len() == 0 {
        Seq::empty()
    } else {
        let rest = new_param_types(fields.drop_last(), reading);
        if needs_arg(fields.last(), reading) {
            rest.push(fields.last().ty.source@)
        } else {
            rest
        }
    }
}

/// The number of fields that `new` takes as parameters.
pub open spec fn count_needing_args(fields: Seq<Field>, reading: ReadingView) -> nat
    decreases fields.len(),
{
    if fields.len() == 0 {
        0
    } else {
        count_needing_args(fields.drop_last(), reading) + if needs_arg(fields.last(), reading) { 1nat } else { 0nat }
    }
}

/// Law: `new` has one parameter per field that needs one, named and typed
/// like that field, and the service handle's `new` passes exactly those
/// names on, in the same order, to the implementation's `new`; every
/// field is initialized exactly once.
pub proof fn lemma_new_params_forwarded(fields: Seq<Field>, named: bool, reading: ReadingView)
    ensures
        new_params(fields, named, reading).len() == count_needing_args(fields, reading),
        new_param_names(fields, named, reading).len() == count_needing_args(fields, reading),
        new_param_types(fields, reading).len() == count_needing_args(fields, reading),
        forall|i: int| 0 <= i < count_needing_args(fields, reading) ==> #[trigger] new_params(fields, named, reading)[i]
            == new_param_names(fields, named, reading)[i] + ": "@ + new_param_types(fields, reading)[i],
        new_inits(fields, named, reading).len() == fields.len(),
    decreases fields.len(),
{
    if fields.len() > 0 {
        lemma_new_params_forwarded(fields.drop_last(), named, reading);
    }
}

} // verus!
