use anaheim::derive::config::expand_config_token_stream;
use anaheim::derive::controller::{
    controller_attribute_expanded, expand_controller_attribute, expand_controller_impl, expand_controller_struct,
};
use anaheim::derive::expansion::Expanded;
use anaheim::derive::model::{Attribute, Field, Fields, Item, ItemImpl, ItemStruct, AttrMeta, Path, PathSegment, Type};
use anaheim::derive::syn_utils::{into_macro_output, parse_attr_args, Arg, Args, AttrArgs, MacroOutput};

fn error(message: &str) -> syn::Error {
    syn::Error::new(proc_macro2::Span::call_site(), message)
}

fn path(idents: &[&str]) -> Path {
    Path {
        leading_colon: false,
        segments: idents.iter().map(|i| PathSegment { ident: i.to_string(), has_arguments: false }).collect(),
    }
}
use anaheim::derive::tokens::{service_impl_name, service_mock_name, service_trait_name, unraw_ident};

fn api_struct() -> ItemStruct {
    ItemStruct {
        attrs: vec![],
        vis: String::new(),
        ident: "Api".to_string(),
        impl_generics: String::new(),
        ty_generics: String::new(),
        where_clause: String::new(),
        fields: Fields::Unit,
        head: "struct".to_string(),
        generics: String::new(),
    }
}

fn api_impl() -> ItemImpl {
    ItemImpl {
        self_ty: Type { source: "Api".to_string(), qself: false, path: Some(path(&["Api"])) },
        items: vec![],
        source: "impl Api { async fn hello(&self) -> PlainText<&'static str> { PlainText(\"hello world\") } }".to_string(),
    }
}

#[test]
fn controller_keeps_struct() {
    assert_eq!(expand_controller_struct(AttrArgs::Empty, api_struct()).unwrap(), "struct Api   ;");
    // A struct keeps its fields' attributes, `#[new(..)]` ones included.
    let mut s = api_struct();
    s.head = "pub struct".to_string();
    s.generics = "<T>".to_string();
    s.fields = Fields::Named(vec![Field {
        attrs: vec![Attribute {
            outer: true,
            meta: AttrMeta::List { path: path(&["new"]), args: "default".to_string() },
            source: "#[new(default)]".to_string(),
        }],
        vis: "pub".to_string(),
        ident: Some("x".to_string()),
        ty: Type { source: "T".to_string(), qself: false, path: Some(path(&["T"])) },
    }]);
    let out = expand_controller_struct(AttrArgs::Empty, s).unwrap();
    assert_eq!(out, "pub struct Api <T>  { #[new(default)] pub x: T }");
    assert!(syn::parse_str::<syn::ItemStruct>(&out).is_ok());
}

#[test]
fn controller_marks_impl() {
    let out = expand_controller_impl(AttrArgs::Empty, api_impl()).unwrap();
    assert_eq!(
        out,
        "#[::anaheim::web::OpenApi] impl Api { async fn hello(&self) -> PlainText<&'static str> { PlainText(\"hello world\") } }"
    );
    assert!(syn::parse_file(&out).is_ok());
}

#[test]
fn controller_attribute_dispatch() {
    assert_eq!(expand_controller_attribute(AttrArgs::Empty, Item::Struct(api_struct())).unwrap(), "struct Api   ;");
    assert!(matches!(
        controller_attribute_expanded(AttrArgs::Empty, &Item::Other),
        Expanded::Abort(m) if m == "Controller attribute not supported on this type"
    ));
    assert!(matches!(
        controller_attribute_expanded(AttrArgs::Empty, &Item::Impl(api_impl())),
        Expanded::Tokens(code) if code.starts_with("#[::anaheim::web::OpenApi] impl Api")
    ));
    match expand_controller_impl(AttrArgs::Parsed(Err(error("bad"))), api_impl()) {
        Err(e) => assert_eq!(e.to_string(), "bad"),
        Ok(_) => panic!("the argument error was not reported"),
    }
    assert!(matches!(
        controller_attribute_expanded(AttrArgs::Parsed(Err(error("bad"))), &Item::Struct(api_struct())),
        Expanded::Error(e) if e.to_string() == "bad"
    ));
}

#[test]
fn config_expansion() {
    assert_eq!(expand_config_token_stream(AttrArgs::Empty, Item::Other).unwrap(), "struct Config {}");
}

#[test]
fn attr_args_reading() {
    assert!(matches!(parse_attr_args(AttrArgs::Empty), Ok(None)));
    let args = Args(vec![Arg::NameValue { name: "path".to_string(), value: "\"/x\"".to_string() }, Arg::Value("1".to_string())]);
    match parse_attr_args(AttrArgs::Parsed(Ok(args))) {
        Ok(Some(Args(v))) => assert_eq!(v.len(), 2),
        _ => panic!("arguments not read"),
    }
    assert!(matches!(parse_attr_args(AttrArgs::Parsed(Err(error("e")))), Err(m) if m.to_string() == "e"));
}

#[test]
fn macro_output() {
    assert!(matches!(into_macro_output(Ok("struct A;".to_string())), MacroOutput::Code(c) if c == "struct A;"));
    let mut e = error("something went wrong");
    e.combine(error("and this too"));
    match into_macro_output(Err(e)) {
        MacroOutput::CompileError(e) => {
            let tokens = e.into_compile_error().to_string();
            assert_eq!(tokens.matches("compile_error").count(), 2);
            assert!(tokens.contains("something went wrong"));
            assert!(tokens.contains("and this too"));
        }
        MacroOutput::Code(_) => panic!("the error was not kept"),
    }
}

#[test]
fn service_names() {
    assert_eq!(service_impl_name("User"), "UserImpl");
    assert_eq!(service_trait_name("User"), "UserTrait");
    assert_eq!(service_mock_name("User"), "MockUserTrait");
    assert_eq!(unraw_ident("r#type"), "type");
    assert_eq!(service_impl_name("r#type"), "typeImpl");
}
