use anaheim::derive::model::{
    Attribute, Field, Fields, FnArg, ImplItem, ImplItemFn, Item, ItemImpl, ItemStruct, ItemTrait, AttrMeta,
    Pat, Path, PathSegment, Signature, TraitItem, Type, Visibility,
};
use anaheim::derive::expansion::Expanded;
use anaheim::derive::service::{
    expand_service_attribute, expand_service_impl, expand_service_impl_with, expand_service_struct,
    expand_service_trait, service_attribute_expanded, DelegateTraitMethodImpl,
};
use anaheim::derive::reading::read_struct;
use anaheim::derive::syn_utils::{AttrArgs, Args};

fn error(message: &str) -> syn::Error {
    syn::Error::new(proc_macro2::Span::call_site(), message)
}

/// The message with which `service` aborts on this item, if it does.
fn abort_of(args: AttrArgs, item: Item) -> Option<String> {
    match service_attribute_expanded(args, &item) {
        Expanded::Abort(m) => Some(m),
        _ => None,
    }
}

fn path(idents: &[&str]) -> Path {
    Path {
        leading_colon: false,
        segments: idents
            .iter()
            .map(|i| PathSegment { ident: i.to_string(), has_arguments: false })
            .collect(),
    }
}

fn new_attr(args: &str) -> Attribute {
    Attribute {
        outer: true,
        meta: AttrMeta::List { path: path(&["new"]), args: args.to_string() },
        source: format!("#[new({})]", args),
    }
}

fn plain_type(name: &str) -> Type {
    Type { source: name.to_string(), qself: false, path: Some(path(&[name])) }
}

fn field(name: &str, ty: &str, attrs: Vec<Attribute>) -> Field {
    Field { attrs, vis: String::new(), ident: Some(name.to_string()), ty: plain_type(ty) }
}

/// `struct UserService { config: Config, x: u32, #[new(default)] y: u32, #[new(value = "1")] z: u32 }`
fn user_service() -> ItemStruct {
    ItemStruct {
        attrs: vec![],
        vis: String::new(),
        ident: "UserService".to_string(),
        impl_generics: String::new(),
        ty_generics: String::new(),
        where_clause: String::new(),
        fields: Fields::Named(vec![
            field("config", "Config", vec![]),
            field("x", "u32", vec![]),
            field("y", "u32", vec![new_attr("default")]),
            field(
                "z",
                "u32",
                vec![new_attr("value = \"1\"")],
            ),
        ]),
        head: "struct".to_string(),
        generics: String::new(),
    }
}

fn sig(name: &str, source: &str, is_async: bool, args: &[&str]) -> Signature {
    let mut inputs = vec![FnArg::Receiver];
    inputs.extend(args.iter().map(|a| FnArg::Typed(Pat::Ident(a.to_string()))));
    Signature { source: source.to_string(), ident: name.to_string(), is_async, inputs }
}

fn method(vis: Visibility, sig: Signature) -> ImplItem {
    ImplItem::Fn(ImplItemFn {
        attrs: String::new(),
        vis,
        defaultness: String::new(),
        sig,
        block: "{ true }".to_string(),
    })
}

/// The items of `impl UserService { .. }` with public, private, async and receiver-less methods.
fn user_service_impl() -> ItemImpl {
    ItemImpl {
        self_ty: plain_type("UserService"),
        items: vec![
            method(Visibility::Public, sig("test", "fn test(&self) -> bool", false, &[])),
            method(Visibility::Public, sig("test2", "fn test2(&self, x: u32, y: u32) -> bool", false, &["x", "y"])),
            ImplItem::Fn(ImplItemFn {
                attrs: String::new(),
                vis: Visibility::Inherited,
                defaultness: String::new(),
                sig: Signature { source: "fn test3()".to_string(), ident: "test3".to_string(), is_async: false, inputs: vec![] },
                block: "{ () }".to_string(),
            }),
            ImplItem::Fn(ImplItemFn {
                attrs: String::new(),
                vis: Visibility::Public,
                defaultness: String::new(),
                sig: Signature { source: "fn test4() -> bool".to_string(), ident: "test4".to_string(), is_async: false, inputs: vec![] },
                block: "{ true }".to_string(),
            }),
            method(
                Visibility::Public,
                sig("test5", "async fn test5(&self, x: u32, y: u32, z: u32)", true, &["x", "y", "z"]),
            ),
            method(Visibility::Inherited, sig("test6", "async fn test6(&self)", true, &[])),
        ],
        source: String::new(),
    }
}

fn parses_as_items(code: &str) -> bool {
    syn::parse_file(code).is_ok()
}

#[test]
fn test() {
    // `#[service] struct UserService { .. }` yields `UserServiceImpl::new(config, x)` and
    // `UserService::from(UserServiceImpl)`, as `UserServiceImpl::new(Config {}, 10)` uses them.
    let out = expand_service_struct(AttrArgs::Empty, user_service(), &read_struct(&user_service())).unwrap();
    assert!(out.contains("struct UserServiceImpl"));
    // The implementation struct keeps its fields but not their `#[new(..)]` attributes,
    // which nothing in the caller's scope would resolve.
    assert!(out.contains("struct UserServiceImpl   {   config: Config,   x: u32,   y: u32,   z: u32 }"));
    assert!(!out.contains("#[new"));
    assert!(out.contains(
        "impl  UserServiceImpl   { #[doc = \"Constructs a new `UserServiceImpl`.\"]  pub fn new(config: Config, x: u32) -> Self { UserServiceImpl { config: config, x: x, y: ::core::default::Default::default(), z: 1 } } }"
    ));
    assert!(out.contains("impl<T> ::std::convert::From<T> for UserService where T: UserServiceTrait + Send + Sync"));
    assert!(out.contains(
        "pub fn new(config: Config, x: u32) -> Self { Self { inner: ::std::sync::Arc::new(UserServiceImpl::new(config, x)), } }"
    ));
    assert!(out.contains("fn from_mock(mock: MockUserServiceTrait) -> Self"));
    assert!(parses_as_items(&out));
}

#[test]
fn service_impl_partitions_methods() {
    let out = expand_service_impl(AttrArgs::Empty, user_service_impl()).unwrap();
    let expected_trait = "pub trait UserServiceTrait { fn test(&self) -> bool; fn test2(&self, x: u32, y: u32) -> bool; fn test4() -> bool; async fn test5(&self, x: u32, y: u32, z: u32); }";
    assert!(out.contains(expected_trait));
    assert!(out.contains("fn test2(&self, x: u32, y: u32) -> bool { self.inner.test2(x, y) }"));
    assert!(out.contains("async fn test5(&self, x: u32, y: u32, z: u32) { self.inner.test5(x, y, z).await }"));
    assert!(out.contains("impl UserServiceImpl {    fn test3() { () }    async fn test6(&self) { true } }"));
    assert!(out.contains("impl UserServiceTrait for UserServiceImpl {    fn test(&self) -> bool { true }"));
    assert!(parses_as_items(&out));
}

#[test]
fn service_trait_expansion() {
    let item = ItemTrait {
        vis: String::new(),
        ident: "UserRepository".to_string(),
        items: vec![
            TraitItem {
                source: "async fn test();".to_string(),
                fn_sig: Some(Signature { source: "async fn test()".to_string(), ident: "test".to_string(), is_async: true, inputs: vec![] }),
            },
            TraitItem {
                source: "fn test2();".to_string(),
                fn_sig: Some(Signature { source: "fn test2()".to_string(), ident: "test2".to_string(), is_async: false, inputs: vec![] }),
            },
        ],
    };
    let out = expand_service_trait(AttrArgs::Empty, item).unwrap();
    assert!(out.contains(" trait UserRepositoryTrait { async fn test(); fn test2(); }"));
    assert!(out.contains(
        "impl UserRepositoryTrait for UserRepository { async fn test() { self.inner.test().await } fn test2() { self.inner.test2() } }"
    ));
    assert!(out.ends_with(
        "impl<T> ::std::convert::From<T> for UserRepository where T: UserRepositoryTrait + Send + Sync { fn from(value: T) -> Self { Self { inner: ::std::sync::Arc::new(value), } } }"
    ));
    assert!(parses_as_items(&out));
}

#[test]
fn service_attribute_dispatches() {
    let out = expand_service_attribute(AttrArgs::Empty, Item::Struct(user_service()), &read_struct(&user_service())).unwrap();
    assert!(out.starts_with("#[derive(Clone)]  struct UserService { inner: ::std::sync::Arc<dyn UserServiceTrait + Send + Sync>, }"));
    assert_eq!(
        abort_of(AttrArgs::Empty, Item::Other),
        Some("Service attribute not supported on this type".to_string())
    );
    assert_eq!(abort_of(AttrArgs::Empty, Item::Struct(user_service())), None);
    assert!(matches!(
        service_attribute_expanded(AttrArgs::Empty, &Item::Struct(user_service())),
        Expanded::Tokens(code) if code.starts_with("#[derive(Clone)]") && code.contains("z: 1 }")
    ));
}

#[test]
fn service_attr_args_error_is_reported() {
    let args = AttrArgs::Parsed(Err(error("expected `,`")));
    match expand_service_struct(args, user_service(), &read_struct(&user_service())) {
        Err(e) => assert_eq!(e.to_string(), "expected `,`"),
        Ok(_) => panic!("the argument error was not reported"),
    }
    // Every message of a combined error is kept.
    let mut combined = error("first");
    combined.combine(error("second"));
    match expand_service_struct(AttrArgs::Parsed(Err(combined)), user_service(), &read_struct(&user_service())) {
        Err(e) => assert_eq!(e.into_iter().map(|m| m.to_string()).collect::<Vec<_>>(), vec!["first", "second"]),
        Ok(_) => panic!("the argument error was not reported"),
    }
    let ok_args = AttrArgs::Parsed(Ok(Args(vec![])));
    assert!(expand_service_struct(ok_args, user_service(), &read_struct(&user_service())).is_ok());
}

#[test]
fn service_impl_aborts() {
    let mut item = user_service_impl();
    item.self_ty = Type { source: "& str".to_string(), qself: false, path: None };
    assert_eq!(
        abort_of(AttrArgs::Empty, Item::Impl(item)),
        Some("Service attribute doesn't support type".to_string())
    );
    let mut item = user_service_impl();
    item.self_ty = Type { source: "a :: B".to_string(), qself: false, path: Some(path(&["a", "B"])) };
    assert_eq!(
        abort_of(AttrArgs::Empty, Item::Impl(item)),
        Some("called `Option::unwrap()` on a `None` value".to_string())
    );
    let mut item = user_service_impl();
    item.items.push(ImplItem::Other);
    assert_eq!(
        abort_of(AttrArgs::Empty, Item::Impl(item)),
        Some("Service attribute not supported for non-function impl items".to_string())
    );
    let mut item = user_service_impl();
    item.items.push(ImplItem::Fn(ImplItemFn {
        attrs: String::new(),
        vis: Visibility::Public,
        defaultness: String::new(),
        sig: Signature {
            source: "fn pair(&self, (a, b): (u8, u8))".to_string(),
            ident: "pair".to_string(),
            is_async: false,
            inputs: vec![FnArg::Receiver, FnArg::Typed(Pat::Other)],
        },
        block: "{}".to_string(),
    }));
    assert_eq!(
        abort_of(AttrArgs::Empty, Item::Impl(item)),
        Some("Service attribute not supported for functions with non identifier argument patterns".to_string())
    );
}

#[test]
fn service_impl_private_tuple_pattern_is_fine() {
    // A method that stays in the inherent impl is never forwarded, so its patterns do not matter.
    let mut item = user_service_impl();
    item.items.push(ImplItem::Fn(ImplItemFn {
        attrs: String::new(),
        vis: Visibility::Restricted("pub(crate)".to_string()),
        defaultness: String::new(),
        sig: Signature {
            source: "fn pair(&self, (a, b): (u8, u8))".to_string(),
            ident: "pair".to_string(),
            is_async: false,
            inputs: vec![FnArg::Receiver, FnArg::Typed(Pat::Other)],
        },
        block: "{}".to_string(),
    }));
    let out = expand_service_impl(AttrArgs::Empty, item).unwrap();
    assert!(out.contains(" pub(crate)  fn pair(&self, (a, b): (u8, u8)) {}"));
}

#[test]
fn service_impl_type_parse_error() {
    // `1Impl` is not a type: the impl name fails to parse and the error is reported.
    let mut item = user_service_impl();
    item.self_ty = plain_type("1");
    let r = expand_service_impl(AttrArgs::Empty, item);
    assert!(r.is_err());
    assert!(!r.unwrap_err().to_string().is_empty());
}

#[test]
fn service_impl_given_type_error() {
    match expand_service_impl_with(AttrArgs::Empty, user_service_impl(), Some(error("not a type"))) {
        Err(e) => assert_eq!(e.to_string(), "not a type"),
        Ok(_) => panic!("the type error was not reported"),
    }
    let out = expand_service_impl_with(AttrArgs::Empty, user_service_impl(), None).unwrap();
    assert!(out.contains("pub trait UserServiceTrait"));
}

#[test]
fn service_struct_bad_field_attr_aborts() {
    let mut item = user_service();
    if let Fields::Named(fields) = &mut item.fields {
        fields[0].attrs.push(new_attr("defaults"));
    }
    assert_eq!(
        abort_of(AttrArgs::Empty, Item::Struct(item)),
        Some("Invalid #[new] attribute: #[new(defaults)]".to_string())
    );
}

#[test]
fn delegate_method_tokens() {
    let d = DelegateTraitMethodImpl(sig("get", "async fn get(&self, id: u64) -> u8", true, &["id"]));
    let mut tokens = String::from("prefix ");
    d.to_tokens(&mut tokens);
    assert_eq!(tokens, "prefix async fn get(&self, id: u64) -> u8 { self.inner.get(id).await }");
}

#[test]
fn service_names_are_distinct() {
    let out = expand_service_struct(AttrArgs::Empty, user_service(), &read_struct(&user_service())).unwrap();
    assert!(out.contains("UserServiceImpl"));
    assert!(out.contains("UserServiceTrait"));
    assert!(out.contains("MockUserServiceTrait"));
}
