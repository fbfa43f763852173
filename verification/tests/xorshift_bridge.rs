use cxx_async::bridge::qualified_name;
use cxx_async::bridge::vtable_glue_ident;
use cxx_async::bridge::vtable_glue_link_name;
use cxx_async::bridge::AstPieces;
use cxx_async::bridge::BridgeError;
use cxx_async::bridge::BridgeTrait;
use cxx_async::bridge::parse_impl;
use cxx_async::bridge::parse_impl_item;
use cxx_async::bridge::parse_self_type;
use cxx_async::bridge::ImplItemShape;
use cxx_async::bridge::ImplShape;
use cxx_async::bridge::SelfType;
use cxx_async::bridge::TraitRef;
use cxx_async::namespace::parse_namespace_attribute;
use cxx_async::xorshift::Xorshift;

#[test]
fn xorshift_first_numbers() {
    let mut rng = Xorshift::new();
    assert_eq!(rng.next(), 3836725727);
    assert_eq!(rng.next(), 2937111989);
    assert_eq!(rng.next(), 1130492582);
}

#[test]
fn xorshift_stays_nonzero() {
    let mut rng = Xorshift::new();
    for _ in 0..16384 {
        assert_ne!(rng.next(), 0);
    }
}


fn shape(item: &str) -> ImplShape {
    ImplShape {
        is_unsafe: true,
        is_default: false,
        n_generic_params: 0,
        has_where_clause: false,
        trait_ref: TraitRef::Present("Future".to_owned()),
        items: vec![item.to_owned()],
        self_type: "RustFutureString".to_owned(),
    }
}

fn ns() -> Vec<String> {
    vec!["mycompany".to_owned(), "myproject".to_owned()]
}

#[test]
fn names_with_namespace() {
    assert_eq!(qualified_name(&ns(), "RustFutureString"), "mycompany::myproject::RustFutureString");
    assert_eq!(
        vtable_glue_ident(&ns(), "RustFutureString"),
        "cxxasync_mycompany_myproject_RustFutureString_vtable"
    );
    assert_eq!(
        vtable_glue_link_name(&ns(), "RustFutureString"),
        "cxxasync_mycompany$myproject$RustFutureString_vtable"
    );
}

#[test]
fn names_without_namespace() {
    assert_eq!(qualified_name(&vec![], "RustFutureString"), "RustFutureString");
    assert_eq!(vtable_glue_ident(&vec![], "RustFutureString"), "cxxasync_RustFutureString_vtable");
    assert_eq!(
        vtable_glue_link_name(&vec![], "RustFutureString"),
        "cxxasync_RustFutureString_vtable"
    );
}

#[test]
fn namespace_attribute_grammar() {
    assert_eq!(parse_namespace_attribute(""), Some(vec![]));
    assert_eq!(parse_namespace_attribute("  \n"), Some(vec![]));
    assert_eq!(
        parse_namespace_attribute("namespace = foo :: bar"),
        Some(vec!["foo".to_owned(), "bar".to_owned()])
    );
    assert_eq!(
        parse_namespace_attribute("namespace=::a::b_2"),
        Some(vec!["a".to_owned(), "b_2".to_owned()])
    );
    assert_eq!(
        parse_namespace_attribute("namespace = crate::x"),
        Some(vec!["crate".to_owned(), "x".to_owned()])
    );
    assert_eq!(parse_namespace_attribute("namespace = r#fn"), Some(vec!["r#fn".to_owned()]));
    assert_eq!(parse_namespace_attribute("namespace = r#crate"), None);
    assert_eq!(parse_namespace_attribute("namespace = fn"), None);
    assert_eq!(parse_namespace_attribute("namespace = a::"), None);
    assert_eq!(parse_namespace_attribute("namespace = a: :b"), None);
    assert_eq!(parse_namespace_attribute("namespace = a b"), None);
    assert_eq!(parse_namespace_attribute("namespace ="), None);
    assert_eq!(parse_namespace_attribute("namespace a"), None);
    assert_eq!(parse_namespace_attribute("namespaces = a"), None);
    assert_eq!(parse_namespace_attribute("foo"), None);
    assert_eq!(parse_namespace_attribute("namespace = é"), Some(vec!["é".to_owned()]));
    assert_eq!(
        parse_namespace_attribute("namespace = 名前 :: _x1"),
        Some(vec!["名前".to_owned(), "_x1".to_owned()])
    );
    assert_eq!(parse_namespace_attribute("namespace = _"), None);
    assert_eq!(parse_namespace_attribute("namespace = 1a"), None);
}

#[test]
fn syn_reads_an_impl_block() {
    let s = parse_impl("unsafe impl std::future::Future for RustFutureString { type Output = String; }")
        .expect("an impl block");
    assert!(s.is_unsafe);
    assert!(!s.is_default);
    assert_eq!(s.n_generic_params, 0);
    assert!(!s.has_where_clause);
    assert!(matches!(s.trait_ref, TraitRef::Present(ref p) if p == "std :: future :: Future"));
    assert_eq!(s.items.len(), 1);
    assert_eq!(s.self_type, "RustFutureString");
    assert!(parse_impl("fn f() {}").is_none());
    let g = parse_impl("impl<T> !Send for X<T> where T: Copy {}").expect("an impl block");
    assert!(!g.is_unsafe);
    assert_eq!(g.n_generic_params, 1);
    assert!(g.has_where_clause);
    assert!(matches!(g.trait_ref, TraitRef::Negative));
    assert!(g.items.is_empty());
    assert!(matches!(parse_impl("impl X {}").expect("an impl block").trait_ref, TraitRef::Absent));
}

#[test]
fn syn_reads_an_impl_item() {
    match parse_impl_item("pub type Item<'a> = Vec<u8>;") {
        Some(ImplItemShape::AssociatedType {
            n_attributes,
            inherited_visibility,
            is_default,
            n_generic_params,
            ident,
            ty,
        }) => {
            assert_eq!(n_attributes, 0);
            assert!(!inherited_visibility);
            assert!(!is_default);
            assert_eq!(n_generic_params, 1);
            assert_eq!(ident, "Item");
            assert_eq!(ty, "Vec < u8 >");
        }
        _ => panic!("expected an associated type"),
    }
    assert!(matches!(parse_impl_item("fn f() {}"), Some(ImplItemShape::Other)));
    assert!(parse_impl_item("struct").is_none());
}

#[test]
fn syn_reads_a_self_type() {
    assert!(matches!(parse_self_type("RustFutureString"), Some(SelfType::Ident(ref n)) if n == "RustFutureString"));
    assert!(matches!(parse_self_type("a::B"), Some(SelfType::LongerPath)));
    assert!(matches!(parse_self_type("&X"), Some(SelfType::Other)));
    assert!(matches!(parse_self_type("<T as X>::Y"), Some(SelfType::QualifiedPath)));
    assert!(parse_self_type("+").is_none());
}

#[test]
fn namespaced_future_from_token_streams() {
    let p = AstPieces::from_token_streams(
        "namespace = foo :: bar",
        "unsafe impl Future for RustFutureStringNamespaced { type Output = StringNamespaced ; }",
    )
    .ok()
    .expect("bridgeable");
    assert_eq!(p.bridge_trait, BridgeTrait::Future);
    assert_eq!(p.future, "RustFutureStringNamespaced");
    assert_eq!(p.output, "StringNamespaced");
    assert_eq!(p.trait_path, "Future");
    assert_eq!(p.qualified_name, "foo::bar::RustFutureStringNamespaced");
    assert_eq!(p.vtable_glue_ident, "cxxasync_foo_bar_RustFutureStringNamespaced_vtable");
    assert_eq!(p.vtable_glue_link_name, "cxxasync_foo$bar$RustFutureStringNamespaced_vtable");
}

#[test]
fn unicode_namespace_from_token_streams() {
    let p = AstPieces::from_token_streams(
        "namespace = é",
        "unsafe impl Future for RustFutureString { type Output = String; }",
    )
    .ok()
    .expect("bridgeable");
    assert_eq!(p.qualified_name, "é::RustFutureString");
    assert_eq!(p.vtable_glue_ident, "cxxasync_é_RustFutureString_vtable");
}

#[test]
fn plain_future_from_token_streams() {
    let p = AstPieces::from_token_streams(
        "",
        "unsafe impl Future for RustFutureString { type Output = String; }",
    )
    .ok()
    .expect("bridgeable");
    assert_eq!(p.bridge_trait, BridgeTrait::Future);
    assert_eq!(p.future, "RustFutureString");
    assert_eq!(p.output, "String");
    assert_eq!(p.trait_path, "Future");
    assert_eq!(p.qualified_name, "RustFutureString");
    assert_eq!(p.vtable_glue_ident, "cxxasync_RustFutureString_vtable");
    assert_eq!(p.vtable_glue_link_name, "cxxasync_RustFutureString_vtable");
}

#[test]
fn stream_from_token_streams() {
    let p = AstPieces::from_token_streams(
        "",
        "unsafe impl Stream for RustStreamString { type Item = String; }",
    )
    .ok()
    .expect("bridgeable");
    assert_eq!(p.bridge_trait, BridgeTrait::Stream);
    assert_eq!(p.future, "RustStreamString");
    assert_eq!(p.output, "String");
    assert_eq!(p.trait_path, "Stream");
    assert_eq!(p.qualified_name, "RustStreamString");
    assert_eq!(p.vtable_glue_link_name, "cxxasync_RustStreamString_vtable");
}

fn token_error(attribute: &str, item: &str) -> BridgeError {
    match AstPieces::from_token_streams(attribute, item) {
        Err(e) => e,
        Ok(_) => panic!("expected an error"),
    }
}

#[test]
fn token_stream_rejections() {
    let good = "unsafe impl Future for F { type Output = u8; }";
    assert_eq!(token_error("namespace", good), BridgeError::NamespaceSyntax);
    assert_eq!(token_error("", "struct S;"), BridgeError::ItemSyntax);
    assert_eq!(token_error("namespace = fn", "struct S;"), BridgeError::NamespaceSyntax);
    assert_eq!(token_error("", "impl Future for F { type Output = u8; }"), BridgeError::NotUnsafe);
    assert_eq!(
        token_error("", "unsafe impl<T> Future for F { type Output = u8; }"),
        BridgeError::GenericParams
    );
    assert_eq!(token_error("", "unsafe impl F { type Output = u8; }"), BridgeError::NotTraitImpl);
    assert_eq!(
        token_error("", "unsafe impl Future for F { type Output = u8; type Item = u8; }"),
        BridgeError::NotSingleItem
    );
    assert_eq!(
        token_error("", "unsafe impl Future for F { fn f() {} }"),
        BridgeError::NotAssociatedType
    );
    assert_eq!(
        token_error("", "unsafe impl Future for F { pub type Output = u8; }"),
        BridgeError::ItemVisibility
    );
    assert_eq!(
        token_error("", "unsafe impl Future for F { type Stream = u8; }"),
        BridgeError::UnknownAssociatedType
    );
    assert_eq!(
        token_error("", "unsafe impl Future for a::F { type Output = u8; }"),
        BridgeError::SelfPathNotIdent
    );
    assert_eq!(
        token_error("", "unsafe impl Future for &F { type Output = u8; }"),
        BridgeError::SelfNotPath
    );
}

#[test]
fn output_bridges_a_future() {
    let pieces =
        AstPieces::from_impl_shape(&ns(), &shape("type Output = String ;")).ok().expect("bridgeable");
    assert_eq!(pieces.bridge_trait, BridgeTrait::Future);
    assert_eq!(pieces.future, "RustFutureString");
    assert_eq!(pieces.output, "String");
    assert_eq!(pieces.trait_path, "Future");
    assert_eq!(pieces.qualified_name, "mycompany::myproject::RustFutureString");
    assert_eq!(pieces.vtable_glue_ident, "cxxasync_mycompany_myproject_RustFutureString_vtable");
    assert_eq!(pieces.vtable_glue_link_name, "cxxasync_mycompany$myproject$RustFutureString_vtable");
}

#[test]
fn item_bridges_a_stream() {
    let pieces = AstPieces::from_impl_shape(&vec![], &shape("type Item = u32;")).ok().expect("bridgeable");
    assert_eq!(pieces.bridge_trait, BridgeTrait::Stream);
    assert_eq!(pieces.output, "u32");
    assert_eq!(pieces.qualified_name, "RustFutureString");
}

fn error_of(s: ImplShape) -> BridgeError {
    match AstPieces::from_impl_shape(&vec![], &s) {
        Err(e) => e,
        Ok(_) => panic!("expected an error"),
    }
}

#[test]
fn each_rejection() {
    let out = "type Output = String;";
    let mut s = shape(out);
    s.is_unsafe = false;
    assert_eq!(error_of(s), BridgeError::NotUnsafe);
    let mut s = shape(out);
    s.is_default = true;
    assert_eq!(error_of(s), BridgeError::MarkedDefault);
    let mut s = shape(out);
    s.n_generic_params = 1;
    assert_eq!(error_of(s), BridgeError::GenericParams);
    let mut s = shape(out);
    s.has_where_clause = true;
    assert_eq!(error_of(s), BridgeError::WhereClause);
    let mut s = shape(out);
    s.trait_ref = TraitRef::Absent;
    assert_eq!(error_of(s), BridgeError::NotTraitImpl);
    let mut s = shape(out);
    s.trait_ref = TraitRef::Negative;
    assert_eq!(error_of(s), BridgeError::NotTraitImpl);
    let mut s = shape(out);
    s.items.push("type Item = u8;".to_owned());
    assert_eq!(error_of(s), BridgeError::NotSingleItem);
    let mut s = shape(out);
    s.items.clear();
    assert_eq!(error_of(s), BridgeError::NotSingleItem);
    assert_eq!(error_of(shape("const X: u8 = 1;")), BridgeError::NotAssociatedType);
    assert_eq!(error_of(shape("#[doc = \"x\"] type Output = u8;")), BridgeError::ItemAttributes);
    assert_eq!(error_of(shape("pub type Output = u8;")), BridgeError::ItemVisibility);
    assert_eq!(error_of(shape("default type Output = u8;")), BridgeError::ItemDefault);
    assert_eq!(error_of(shape("type Output<T> = T;")), BridgeError::ItemGenerics);
    assert_eq!(error_of(shape("type Stream = u8;")), BridgeError::UnknownAssociatedType);
    assert_eq!(error_of(shape("not an item")), BridgeError::ItemSyntax);
    let mut s = shape(out);
    s.self_type = "a::B".to_owned();
    assert_eq!(error_of(s), BridgeError::SelfPathNotIdent);
    let mut s = shape(out);
    s.self_type = "(A, B)".to_owned();
    assert_eq!(error_of(s), BridgeError::SelfNotPath);
    let mut s = shape(out);
    s.self_type = "<T as X>::Y".to_owned();
    assert_eq!(error_of(s), BridgeError::SelfNotPath);
}

#[test]
fn first_failing_check_wins() {
    let mut s = shape("type Stream = u8;");
    s.is_unsafe = false;
    s.self_type = "&X".to_owned();
    assert_eq!(error_of(s), BridgeError::NotUnsafe);
    let mut s = shape("type Stream = u8;");
    s.self_type = "&X".to_owned();
    assert_eq!(error_of(s), BridgeError::UnknownAssociatedType);
}

#[test]
fn error_messages() {
    assert_eq!(BridgeError::NotUnsafe.message(), "implementation must be marked `unsafe`");
    assert_eq!(BridgeError::WhereClause.message(), "generic bridged futures are unsupported");
    assert_eq!(BridgeError::NamespaceSyntax.message(), "expected possible namespace attribute");
    assert_eq!(
        BridgeError::ItemSyntax.message(),
        "expected implementation of `Future` or `Stream`"
    );
    assert_eq!(
        BridgeError::UnknownAssociatedType.message(),
        "implementation must contain an associated type definition named `Output` or `Item`"
    );
    assert_eq!(
        BridgeError::SelfNotPath.message(),
        "expected `impl` declaration to implement a single type"
    );
}
