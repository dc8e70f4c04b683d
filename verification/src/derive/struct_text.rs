//! The text of a struct item, rendered from its parts, with or without the
//! `#[new(..)]` attributes of its fields.

use vstd::prelude::*;
use super::model::{Attribute, Field, Fields, ItemStruct, AttrMeta};
use super::struct_new::fields_seq;
use super::tokens::{contains_text, join, join_strings, lemma_contains_middle, lemma_contains_trans, lemma_join_contains, text_eq, texts};

verus! {

/// Whether an attribute is a field initializer attribute `#[new(..)]` (or
/// `#[path::new(..)]`): an outer attribute with parentheses whose path
/// ends in `new`. Such attributes only direct constructor generation.
pub open spec fn is_new_attr(a: Attribute) -> bool {
    &&& a.outer
    &&& a.meta is List
    &&& a.meta.spec_path().segments@.len() > 0
    &&& a.meta.spec_path().segments@.last().ident@ == "new"@
}

/// The token texts of the attributes that are kept, in order: all of them,
/// or, when `strip_new` holds, all but the `#[new(..)]` ones.
pub open spec fn kept_attr_sources(attrs: Seq<Attribute>, strip_new: bool) -> Seq<Seq<char>>
    decreases attrs.len(),
{
    if attrs.len() == 0 {
        Seq::empty()
    } else {
        let rest = kept_attr_sources(attrs.drop_last(), strip_new);
        if strip_new && is_new_attr(attrs.last()) {
            rest
        } else {
            rest.push(attrs.last().source@)
        }
    }
}

/// The text of a field: its kept attributes, its visibility, its name
/// (for a named field) and its type.
pub open spec fn field_text(f: Field, strip_new: bool) -> Seq<char> {
    join(kept_attr_sources(f.attrs@, strip_new), " "@) + " "@ + f.vis@ + " "@ + match f.ident {
        Some(i) => i@ + ": "@,
        None => ""@,
    } + f.ty.source@
}

/// The texts of all fields, in order.
pub open spec fn field_texts(fields: Seq<Field>, strip_new: bool) -> Seq<Seq<char>> {
    Seq::new(fields.len(), |i: int| field_text(fields[i], strip_new))
}

/// The struct's text with the name `name`: `head Name<..> where .. { fields }`
/// for named fields, `head Name<..> (fields) where .. ;` for tuple fields,
/// `head Name<..> where .. ;` for a unit struct.
pub open spec fn struct_text(item: ItemStruct, name: Seq<char>, strip_new: bool) -> Seq<char> {
    let start = item.head@ + " "@ + name + " "@ + item.generics@;
    match item.fields {
        Fields::Named(v) => start + " "@ + item.where_clause@ + " { "@ + join(field_texts(v@, strip_new), ", "@)
            + " }"@,
        Fields::Unnamed(v) => start + " ("@ + join(field_texts(v@, strip_new), ", "@) + ") "@
            + item.where_clause@ + " ;"@,
        Fields::Unit => start + " "@ + item.where_clause@ + " ;"@,
    }
}

fn is_new_attr_exec(a: &Attribute) -> (r: bool)
    ensures
        r == is_new_attr(*a),
{
    if !a.outer {
        return false;
    }
    match &a.meta {
        AttrMeta::List { path, .. } => {
            let n = path.segments.len();
            n > 0 && text_eq(path.segments[n - 1].ident.as_str(), "new")
        },
        _ => false,
    }
}

fn kept_attrs(attrs: &Vec<Attribute>, strip_new: bool) -> (r: Vec<String>)
    ensures
        texts(r@) == kept_attr_sources(attrs@, strip_new),
{
    let mut r: Vec<String> = Vec::new();
    let n = attrs.len();
    let mut i: usize = 0;
    while i < n
        invariant
            n == attrs@.len(),
            i <= n,
            texts(r@) =~= kept_attr_sources(attrs@.take(i as int), strip_new),
        decreases n - i,
    {
        proof {
            assert(attrs@.take(i as int + 1).drop_last() =~= attrs@.take(i as int));
        }
        if !(strip_new && is_new_attr_exec(&attrs[i])) {
            r.push(attrs[i].source.clone());
        }
        i = i + 1;
    }
    assert(attrs@.take(n as int) =~= attrs@);
    r
}

fn field_string(f: &Field, strip_new: bool) -> (s: String)
    ensures
        s@ == field_text(*f, strip_new),
{
    let mut s = join_strings(&kept_attrs(&f.attrs, strip_new), " ");
    s.append(" ");
    s.append(f.vis.as_str());
    s.append(" ");
    let name = match &f.ident {
        Some(i) => i.clone().concat(": "),
        None => String::from_str(""),
    };
    s.append(name.as_str());
    s.append(f.ty.source.as_str());
    s
}

fn field_strings(fields: &Vec<Field>, strip_new: bool) -> (r: Vec<String>)
    ensures
        texts(r@) == field_texts(fields@, strip_new),
{
    let mut r: Vec<String> = Vec::new();
    let n = fields.len();
    let mut i: usize = 0;
    while i < n
        invariant
            n == fields@.len(),
            i <= n,
            r@.len() == i,
            texts(r@) =~= field_texts(fields@.take(i as int), strip_new),
        decreases n - i,
    {
        let ghost old_r = r@;
        let f = field_string(&fields[i], strip_new);
        r.push(f);
        proof {
            assert forall|k: int| 0 <= k < i + 1 implies texts(r@)[k] == field_texts(fields@.take(i as int + 1), strip_new)[k] by {
                if k < i {
                    assert(texts(old_r)[k] == field_texts(fields@.take(i as int), strip_new)[k]);
                }
            }
        }
        i = i + 1;
    }
    assert(fields@.take(n as int) =~= fields@);
    r
}

/// Renders a struct under the name `name`, keeping all attributes or, when
/// `strip_new` holds, dropping the fields' `#[new(..)]` attributes.
pub fn struct_string(item: &ItemStruct, name: &str, strip_new: bool) -> (s: String)
    ensures
        s@ == struct_text(*item, name@, strip_new),
{
    let mut s = item.head.clone();
    s.append(" ");
    s.append(name);
    s.append(" ");
    s.append(item.generics.as_str());
    match &item.fields {
        Fields::Named(v) => {
            s.append(" ");
            s.append(item.where_clause.as_str());
            s.append(" { ");
            s.append(join_strings(&field_strings(v, strip_new), ", ").as_str());
            s.append(" }");
        },
        Fields::Unnamed(v) => {
            s.append(" (");
            s.append(join_strings(&field_strings(v, strip_new), ", ").as_str());
            s.append(") ");
            s.append(item.where_clause.as_str());
            s.append(" ;");
        },
        Fields::Unit => {
            s.append(" ");
            s.append(item.where_clause.as_str());
            s.append(" ;");
        },
    }
    s
}

proof fn lemma_strip_is_filter(attrs: Seq<Attribute>)
    ensures
        kept_attr_sources(attrs, true) == attrs.filter(|a: Attribute| !is_new_attr(a)).map_values(
            |a: Attribute| a.source@,
        ),
    decreases attrs.len(),
{
    reveal(Seq::filter);
    if attrs.len() == 0 {
        assert(attrs.filter(|a: Attribute| !is_new_attr(a)).map_values(|a: Attribute| a.source@) =~= Seq::empty());
    } else {
        let d = attrs.drop_last();
        lemma_strip_is_filter(d);
        let f = attrs.filter(|a: Attribute| !is_new_attr(a));
        let fd = d.filter(|a: Attribute| !is_new_attr(a));
        assert(f == if !is_new_attr(attrs.last()) { fd.push(attrs.last()) } else { fd });
        assert(f.map_values(|a: Attribute| a.source@) =~= kept_attr_sources(attrs, true));
    }
}

/// Law: stripping drops exactly the `#[new(..)]` attributes: what is kept
/// is the text of every other attribute, in order; a kept text comes from
/// an attribute that is not `#[new(..)]`; without stripping every
/// attribute is kept.
pub proof fn lemma_strip_drops_only_new_attrs(attrs: Seq<Attribute>)
    ensures
        forall|i: int| #![trigger kept_attr_sources(attrs, true)[i]]
            0 <= i < kept_attr_sources(attrs, true).len() ==> exists|j: int|
            0 <= j < attrs.len() && !is_new_attr(#[trigger] attrs[j])
                && kept_attr_sources(attrs, true)[i] == attrs[j].source@,
        (forall|j: int| 0 <= j < attrs.len() ==> !is_new_attr(#[trigger] attrs[j]))
            ==> kept_attr_sources(attrs, true) == kept_attr_sources(attrs, false),
        kept_attr_sources(attrs, false).len() == attrs.len(),
        kept_attr_sources(attrs, true) == attrs.filter(|a: Attribute| !is_new_attr(a)).map_values(
            |a: Attribute| a.source@,
        ),
    decreases attrs.len(),
{
    lemma_strip_is_filter(attrs);
    if attrs.len() > 0 {
        let d = attrs.drop_last();
        lemma_strip_drops_only_new_attrs(d);
        let k = kept_attr_sources(attrs, true);
        assert forall|i: int| #![trigger k[i]] 0 <= i < k.len() implies exists|j: int|
            0 <= j < attrs.len() && !is_new_attr(#[trigger] attrs[j]) && k[i] == attrs[j].source@ by {
            if i < kept_attr_sources(d, true).len() {
                let j = choose|j: int| 0 <= j < d.len() && !is_new_attr(#[trigger] d[j])
                    && kept_attr_sources(d, true)[i] == d[j].source@;
                assert(d[j] == attrs[j]);
            } else {
                assert(attrs[attrs.len() - 1] == attrs.last());
            }
        }
        if forall|j: int| 0 <= j < attrs.len() ==> !is_new_attr(#[trigger] attrs[j]) {
            assert forall|j: int| 0 <= j < d.len() implies !is_new_attr(#[trigger] d[j]) by {
                assert(d[j] == attrs[j]);
            }
            assert(!is_new_attr(attrs[attrs.len() - 1]));
        }
    }
}

/// What a field keeps whatever happens to its attributes: its visibility,
/// its name (for a named field) and its type.
pub open spec fn field_core(f: Field) -> Seq<char> {
    f.vis@ + " "@ + match f.ident {
        Some(i) => i@ + ": "@,
        None => ""@,
    } + f.ty.source@
}

/// Law: a struct's text begins with its head (attributes, visibility and
/// `struct`), the given name and its generic parameters, and holds every
/// field with its visibility, name and type; without stripping, every
/// attribute of every field is kept.
pub proof fn lemma_struct_text_keeps_fields(item: ItemStruct, name: Seq<char>, strip_new: bool)
    ensures
        (item.head@ + " "@ + name + " "@ + item.generics@).is_prefix_of(struct_text(item, name, strip_new)),
        forall|i: int| 0 <= i < fields_seq(item.fields).len()
            ==> contains_text(struct_text(item, name, strip_new), #[trigger] field_core(fields_seq(item.fields)[i])),
        forall|attrs: Seq<Attribute>| #[trigger] kept_attr_sources(attrs, false) == attrs.map_values(|a: Attribute| a.source@),
{
    let start = item.head@ + " "@ + name + " "@ + item.generics@;
    let st = struct_text(item, name, strip_new);
    assert forall|x: Seq<char>, y: Seq<char>, z: Seq<char>| #[trigger] (x + (y + z)) == (x + y) + z by {
        vstd::seq_lib::lemma_concat_associative(x, y, z);
    }
    let fs = fields_seq(item.fields);
    let (a, b) = match item.fields {
        Fields::Named(_) => (start + " "@ + item.where_clause@ + " { "@, " }"@),
        Fields::Unnamed(_) => (start + " ("@, ") "@ + item.where_clause@ + " ;"@),
        Fields::Unit => (start + " "@ + item.where_clause@ + " ;"@, Seq::<char>::empty()),
    };
    let j = join(field_texts(fs, strip_new), ", "@);
    if !(item.fields is Unit) {
        assert(st == a + j + b);
    }
    assert(st.subrange(0, start.len() as int) =~= start);
    assert forall|i: int| 0 <= i < fs.len() implies contains_text(st, #[trigger] field_core(fs[i])) by {
        lemma_contains_middle(a, j, b);
        lemma_join_contains(field_texts(fs, strip_new), ", "@, i);
        let f = fs[i];
        let pre = join(kept_attr_sources(f.attrs@, strip_new), " "@) + " "@;
        assert(field_text(f, strip_new) == pre + field_core(f) + Seq::<char>::empty());
        lemma_contains_middle(pre, field_core(f), Seq::empty());
        lemma_contains_trans(st, j, field_text(f, strip_new));
        lemma_contains_trans(st, field_text(f, strip_new), field_core(f));
    }
    assert forall|attrs: Seq<Attribute>| #[trigger] kept_attr_sources(attrs, false) == attrs.map_values(|a: Attribute| a.source@) by {
        lemma_kept_all(attrs);
    }
}

proof fn lemma_kept_all(attrs: Seq<Attribute>)
    ensures
        kept_attr_sources(attrs, false) == attrs.map_values(|a: Attribute| a.source@),
    decreases attrs.len(),
{
    if attrs.len() > 0 {
        lemma_kept_all(attrs.drop_last());
        assert(attrs.map_values(|a: Attribute| a.source@) =~= attrs.drop_last().map_values(|a: Attribute| a.source@).push(attrs.last().source@));
    } else {
        assert(attrs.map_values(|a: Attribute| a.source@) =~= Seq::<Seq<char>>::empty());
    }
}

} // verus!
