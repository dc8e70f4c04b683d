use anaheim::derive::model::{Attribute, AttrMeta, Field, Fields, ItemStruct, NestedMeta, Path, PathSegment, Type};
use anaheim::derive::reading::{read_attrs, read_struct, Lexed, ParsedList, Reading};
use anaheim::derive::struct_new::{
    collect_parent_lint_attrs, expand_delegate_new_impl, expand_struct_new_impl, FieldAttr, FieldExt,
};
use anaheim::derive::tokens::path_to_string;

fn path(idents: &[&str]) -> Path {
    Path {
        leading_colon: false,
        segments: idents
            .iter()
            .map(|i| PathSegment { ident: i.to_string(), has_arguments: false })
            .collect(),
    }
}

/// `#[p(args)]`, with `args` the token text inside the parentheses.
fn list_attr(p: &[&str], args: &str, source: &str) -> Attribute {
    Attribute { outer: true, meta: AttrMeta::List { path: path(p), args: args.to_string() }, source: source.to_string() }
}

fn new_attr(args: &str) -> Attribute {
    list_attr(&["new"], args, &format!("#[new({})]", args))
}

fn plain_type(name: &str) -> Type {
    Type { source: name.to_string(), qself: false, path: Some(path(&[name])) }
}

fn field(name: Option<&str>, ty: Type, attrs: Vec<Attribute>) -> Field {
    Field { attrs, vis: String::new(), ident: name.map(|n| n.to_string()), ty }
}

fn item(ident: &str, fields: Fields, attrs: Vec<Attribute>) -> ItemStruct {
    ItemStruct {
        attrs,
        vis: "pub".to_string(),
        ident: ident.to_string(),
        impl_generics: String::new(),
        ty_generics: String::new(),
        where_clause: String::new(),
        fields,
        head: "pub struct".to_string(),
        generics: String::new(),
    }
}

fn parse(attrs: Vec<Attribute>) -> Result<Option<String>, String> {
    FieldAttr::parse_checked(&attrs).map(|a| a.map(|a| a.as_tokens()))
}

#[test]
fn field_attr_default_and_value() {
    assert_eq!(parse(vec![]), Ok(None));
    assert_eq!(parse(vec![new_attr("default")]), Ok(Some("::core::default::Default::default()".to_string())));
    assert_eq!(parse(vec![new_attr("value = \"1 + 2\"")]), Ok(Some("1 + 2".to_string())));
    // The value is used as the tokens it lexes to: a comment in it is dropped.
    assert_eq!(parse(vec![new_attr("value = \"3 // three\"")]), Ok(Some("3".to_string())));
    // Later arguments of the same attribute replace earlier ones.
    assert_eq!(parse(vec![new_attr("default, value = \"7\"")]), Ok(Some("7".to_string())));
    // An empty `#[new()]` sets nothing, so another `#[new(..)]` may follow.
    assert_eq!(parse(vec![new_attr(""), new_attr("default")]), Ok(Some("::core::default::Default::default()".to_string())));
}

#[test]
fn field_attr_rejections() {
    assert_eq!(
        parse(vec![new_attr("dflt")]),
        Err("Invalid #[new] attribute: #[new(dflt)]".to_string())
    );
    assert_eq!(
        parse(vec![new_attr("val = \"1\"")]),
        Err("Invalid #[new] attribute: #[new(val = ..)]".to_string())
    );
    assert_eq!(
        parse(vec![new_attr("value = 1")]),
        Err("Non-string literal value in #[new] attribute".to_string())
    );
    assert_eq!(
        parse(vec![new_attr("a::b(x)")]),
        Err("Invalid #[new] attribute: #[new(a::b(..))]".to_string())
    );
    assert_eq!(
        parse(vec![new_attr("value = \"\\\"unterminated\"")]),
        Err("Invalid expression in #[new]: `\"unterminated`".to_string())
    );
    assert_eq!(
        parse(vec![Attribute { outer: true, meta: AttrMeta::Path(path(&["new"])), source: "#[new]".to_string() }]),
        Err("Invalid #[new] attribute, expected #[new(..)]".to_string())
    );
    // Arguments that do not parse as a list are rejected with the parse error's message.
    let r = parse(vec![new_attr("value = ")]);
    assert!(matches!(&r, Err(m) if m.starts_with("Invalid #[new] attribute: ") && m.len() > "Invalid #[new] attribute: ".len()));
    assert_eq!(
        parse(vec![Attribute { outer: true, meta: AttrMeta::Path(Path { leading_colon: false, segments: vec![] }), source: String::new() }]),
        Err("Expected at least one segment where #[segment[::segment*](..)]".to_string())
    );
}

#[test]
fn field_attr_second_new_rejected() {
    assert_eq!(
        parse(vec![new_attr("default"), new_attr("value = \"1\"")]),
        Err("Expected at most one #[new] attribute".to_string())
    );
}

#[test]
fn field_attr_unrelated_attrs_ignored() {
    let doc = list_attr(&["doc"], "x", "#[doc(x)]");
    let inner = Attribute { outer: false, meta: AttrMeta::Path(path(&["new"])), source: "#![new]".to_string() };
    let other_new_path = Attribute { outer: true, meta: AttrMeta::Path(path(&["crate", "new"])), source: String::new() };
    assert_eq!(parse(vec![doc, inner, other_new_path, new_attr("default")]),
        Ok(Some("::core::default::Default::default()".to_string())));
}

#[test]
fn field_ext_reads_fields() {
    let named = field(Some("count"), plain_type("u32"), vec![]);
    let ext = FieldExt::new(&named, 0, true, &read_attrs(&named.attrs));
    assert!(ext.needs_arg());
    assert!(!ext.has_attr());
    assert_eq!(ext.as_arg(), "count: u32");
    assert_eq!(ext.as_init(), "count: count");

    let phantom_path = || {
        let mut p = path(&["std", "marker", "PhantomData"]);
        p.segments[2].has_arguments = true;
        p
    };
    let phantom_ty = Type { source: "std::marker::PhantomData<T>".to_string(), qself: false, path: Some(phantom_path()) };
    let phantom = field(None, phantom_ty, vec![]);
    let ext = FieldExt::new(&phantom, 12, false, &read_attrs(&phantom.attrs));
    assert!(ext.is_phantom_data());
    assert!(!ext.needs_arg());
    assert_eq!(ext.ident, "f12");
    assert_eq!(ext.as_init(), "::core::marker::PhantomData");

    // A qualified path is never taken for `PhantomData`.
    let qualified = Type { source: "<T as Tr>::PhantomData".to_string(), qself: true, path: Some(phantom_path()) };
    let qualified_field = field(None, qualified, vec![]);
    let ext = FieldExt::new(&qualified_field, 0, false, &read_attrs(&qualified_field.attrs));
    assert!(!ext.is_phantom_data());
    assert!(ext.needs_arg());

    let defaulted = field(Some("y"), plain_type("u32"), vec![new_attr("default")]);
    let ext = FieldExt::new(&defaulted, 1, true, &read_attrs(&defaulted.attrs));
    assert!(ext.has_attr());
    assert!(!ext.needs_arg());
    assert_eq!(ext.as_init(), "y: ::core::default::Default::default()");
}

#[test]
fn struct_new_named_fields() {
    let s = item(
        "Point",
        Fields::Named(vec![
            field(Some("x"), plain_type("i32"), vec![]),
            field(Some("y"), plain_type("i32"), vec![new_attr("value = \"0\"")]),
        ]),
        vec![list_attr(&["allow"], "dead_code", "#[allow(dead_code)]")],
    );
    assert_eq!(
        expand_struct_new_impl(&s, &read_struct(&s)),
        "impl  Point   { #[doc = \"Constructs a new `Point`.\"] #[allow(dead_code)] pub fn new(x: i32) -> Self { Point { x: x, y: 0 } } }"
    );
}

#[test]
fn struct_new_tuple_and_unit() {
    let t = item(
        "Pair",
        Fields::Unnamed(vec![field(None, plain_type("u8"), vec![]), field(None, plain_type("u16"), vec![])]),
        vec![],
    );
    let out = expand_struct_new_impl(&t, &read_struct(&t));
    assert!(out.contains("pub fn new(f0: u8, f1: u16) -> Self { Pair (f0, f1) }"));
    assert!(syn::parse_file(&out).is_ok());
    let u = item("Marker", Fields::Unit, vec![]);
    assert_eq!(
        expand_struct_new_impl(&u, &read_struct(&u)),
        "impl  Marker   { #[doc = \"Constructs a new `Marker`.\"]  pub fn new() -> Self { Marker } }"
    );
}

#[test]
fn struct_new_generics() {
    let mut s = item("Wrapper", Fields::Named(vec![field(Some("value"), plain_type("T"), vec![])]), vec![]);
    s.impl_generics = "<T: Clone>".to_string();
    s.ty_generics = "<T>".to_string();
    s.where_clause = "where T: Send".to_string();
    let out = expand_struct_new_impl(&s, &read_struct(&s));
    assert!(out.starts_with("impl <T: Clone> Wrapper <T> where T: Send {"));
    assert!(syn::parse_file(&out).is_ok());
}

#[test]
fn delegate_new_forwards_params() {
    let s = item(
        "UserServiceImpl",
        Fields::Named(vec![
            field(Some("a"), plain_type("u8"), vec![]),
            field(Some("b"), plain_type("u8"), vec![new_attr("default")]),
            field(Some("c"), plain_type("String"), vec![]),
        ]),
        vec![],
    );
    let out = expand_delegate_new_impl(&s, "UserService", &read_struct(&s));
    assert_eq!(
        out,
        "impl  UserService   { #[doc = \"Constructs a new `UserService`.\"]  pub fn new(a: u8, c: String) -> Self { Self { inner: ::std::sync::Arc::new(UserServiceImpl::new(a, c)), } } }"
    );
}

#[test]
fn lint_attrs_collected() {
    let attrs = vec![
        list_attr(&["allow"], "unused", "#[allow(unused)]"),
        list_attr(&["doc"], "hidden", "#[doc(hidden)]"),
        list_attr(&["cfg_attr"], "test, deny(warnings)", "#[cfg_attr(test, deny(warnings))]"),
        list_attr(&["cfg_attr"], "test, deny", "#[cfg_attr(test, deny)]"),
        list_attr(&["cfg_attr"], "test deny(warnings)", "#[cfg_attr(test deny(warnings))]"),
        Attribute { outer: true, meta: AttrMeta::Path(path(&["warn"])), source: "#[warn]".to_string() },
    ];
    assert_eq!(
        collect_parent_lint_attrs(&attrs),
        vec!["#[allow(unused)]".to_string(), "#[cfg_attr(test, deny(warnings))]".to_string()]
    );
}

#[test]
fn path_rendering() {
    let mut p = path(&["std", "marker", "PhantomData"]);
    p.leading_colon = true;
    p.segments[2].has_arguments = true;
    assert_eq!(path_to_string(&p), "std::marker::PhantomData");
}

#[test]
fn attributes_are_read_in_order() {
    let attrs = vec![
        new_attr("value = \"3 // three\", default, value = \"\\\"unterminated\""),
        Attribute { outer: true, meta: AttrMeta::Path(path(&["inline"])), source: "#[inline]".to_string() },
        list_attr(&["doc"], "alias = \"x  +  y\"", "#[doc(alias = \"x  +  y\")]"),
    ];
    let reading = read_attrs(&attrs);
    let args: Vec<&str> = reading.lists.iter().map(|l| l.args.as_str()).collect();
    assert_eq!(args, vec!["value = \"3 // three\", default, value = \"\\\"unterminated\"", "alias = \"x  +  y\""]);
    match &reading.lists[0].nested {
        Ok(items) => {
            assert_eq!(items.len(), 3);
            assert!(matches!(&items[1], NestedMeta::Path(p) if path_to_string(p) == "default"));
        }
        Err(_) => panic!("the argument list was not parsed"),
    }
    let values: Vec<&str> = reading.lexed.iter().map(|l| l.value.as_str()).collect();
    assert_eq!(values, vec!["3 // three", "\"unterminated", "x  +  y"]);
    assert_eq!(reading.lexed[0].tokens.as_deref(), Some("3"));
    assert_eq!(reading.lexed[1].tokens, None);
    assert_eq!(reading.lexed[2].tokens.as_deref(), Some("x + y"));
}

#[test]
fn field_attr_reads_given_outcomes() {
    let attrs = vec![new_attr("value = \"1\"")];
    let value_list = || ParsedList {
        args: "value = \"1\"".to_string(),
        nested: Ok(vec![NestedMeta::NameValue(path(&["value"]), anaheim::derive::model::MetaValue::Str("1".to_string()))]),
    };
    let reading = Reading {
        lists: vec![value_list()],
        lexed: vec![
            Lexed { value: "0".to_string(), tokens: Some("zero".to_string()) },
            Lexed { value: "1".to_string(), tokens: Some("2".to_string()) },
            Lexed { value: "1".to_string(), tokens: None },
        ],
    };
    // The first entry for the value decides.
    let r = FieldAttr::parse_checked_with(&attrs, &reading).map(|a| a.map(|a| a.as_tokens()));
    assert_eq!(r, Ok(Some("2".to_string())));
    assert_eq!(FieldAttr::parse(&attrs, &reading).map(|a| a.as_tokens()), Some("2".to_string()));
    // A value with no entry is taken as one that does not lex.
    let unlexed = Reading { lists: vec![value_list()], lexed: vec![] };
    let r = FieldAttr::parse_checked_with(&attrs, &unlexed).map(|a| a.map(|a| a.as_tokens()));
    assert_eq!(r, Err("Invalid expression in #[new]: `1`".to_string()));
    // A list that did not parse is rejected with the parse error's message.
    let unparsed = Reading {
        lists: vec![ParsedList { args: "value = \"1\"".to_string(), nested: Err("unexpected token".to_string()) }],
        lexed: vec![],
    };
    let r = FieldAttr::parse_checked_with(&attrs, &unparsed).map(|a| a.map(|a| a.as_tokens()));
    assert_eq!(r, Err("Invalid #[new] attribute: unexpected token".to_string()));
}
