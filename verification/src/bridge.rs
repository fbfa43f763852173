use vstd::prelude::*;

use crate::namespace::parse_namespace_attribute;
use crate::namespace::spec_parse_namespace;

verus! {

/// Whether the programmer bridges a `Future` or a `Stream`.
#[derive(Debug, Clone, Copy, PartialEq, Eq, Structural)]
pub enum BridgeTrait {
    /// `type Output = ...`: a one-shot future.
    Future,
    /// `type Item = ...`: a multi-shot stream.
    Stream,
}

/// The trait part of an `impl` block.
#[derive(Debug)]
pub enum TraitRef {
    /// An inherent `impl`, with no trait.
    Absent,
    /// A negative `impl !Trait for ...`.
    Negative,
    /// An `impl Trait for ...`, with the trait's path as token text.
    Present(String),
}

/// What the `bridge` attribute looks at in the one item of the `impl` block.
#[derive(Debug)]
pub enum ImplItemShape {
    /// An associated type `type X = T;`.
    AssociatedType {
        /// The number of attributes on the item.
        n_attributes: usize,
        /// True if the item carries no visibility modifier.
        inherited_visibility: bool,
        /// True if the item is marked `default`.
        is_default: bool,
        /// The number of generic parameters of the item.
        n_generic_params: usize,
        /// The name `X`.
        ident: String,
        /// The type `T`, as token text.
        ty: String,
    },
    /// Any other item.
    Other,
}

/// The type that the `impl` block is for.
#[derive(Debug)]
pub enum SelfType {
    /// A path that is a single identifier, such as `RustFutureString`.
    Ident(String),
    /// A path that is not a single identifier (several segments, generic arguments, ...).
    LongerPath,
    /// A path with a qualified self type, such as `<T as Trait>::Assoc`.
    QualifiedPath,
    /// Not a path at all (a reference, a tuple, ...).
    Other,
}

/// What the `bridge` attribute looks at in the `impl` block it is applied to.
#[derive(Debug)]
pub struct ImplShape {
    /// True if the `impl` is marked `unsafe`.
    pub is_unsafe: bool,
    /// True if the `impl` is marked `default`.
    pub is_default: bool,
    /// The number of generic parameters of the `impl`.
    pub n_generic_params: usize,
    /// True if the `impl` has a `where` clause.
    pub has_where_clause: bool,
    /// The trait part of the `impl`.
    pub trait_ref: TraitRef,
    /// The items inside the `impl` block, each as token text.
    pub items: Vec<String>,
    /// The type the `impl` is for, as token text.
    pub self_type: String,
}

/// The `impl` block that syn parses from `item`, read into an `ImplShape`; `None` if `item` is not
/// an `impl` block.
pub uninterp spec fn parsed_impl(item: Seq<char>) -> Option<ImplShape>;

/// The `impl` item that syn parses from `item`, read into an `ImplItemShape`; `None` if `item` is
/// not an `impl` item.
pub uninterp spec fn parsed_impl_item(item: Seq<char>) -> Option<ImplItemShape>;

/// The type that syn parses from `ty`, read into a `SelfType`; `None` if `ty` is not a type.
pub uninterp spec fn parsed_self_type(ty: Seq<char>) -> Option<SelfType>;

/// Parses an `impl` block with `syn::parse_str::<syn::ItemImpl>` and reads what the `bridge`
/// attribute looks at: whether it is `unsafe` or `default`, its generic parameters and `where`
/// clause, its trait (the path printed as tokens), and the token text of each item and of the
/// type it is for.
///
/// This crate builds proc-macro2 without its `proc-macro` feature, so lexing and printing are
/// always proc-macro2's own (never the compiler's): the same text gives the same result in every
/// process. The claim is only that the result is a function of the text.
#[verifier::external_body]
pub fn parse_impl(item: &str) -> (r: Option<ImplShape>)
    ensures
        r == parsed_impl(item@),
{
    let i = syn::parse_str::<syn::ItemImpl>(item).ok()?;
    Some(ImplShape {
        is_unsafe: i.unsafety.is_some(),
        is_default: i.defaultness.is_some(),
        n_generic_params: i.generics.params.len(),
        has_where_clause: i.generics.where_clause.is_some(),
        trait_ref: match &i.trait_ {
            None => TraitRef::Absent,
            Some((Some(_), _, _)) => TraitRef::Negative,
            Some((None, p, _)) => TraitRef::Present(quote::ToTokens::to_token_stream(p).to_string()),
        },
        items: i.items.iter().map(|t| quote::ToTokens::to_token_stream(t).to_string()).collect(),
        self_type: quote::ToTokens::to_token_stream(&i.self_ty).to_string(),
    })
}

/// Parses an `impl` item with `syn::parse_str::<syn::ImplItem>` and, for an associated type,
/// reads its attributes, visibility, `default` marker, generic parameters, name and type (printed
/// as tokens).
///
/// This crate builds proc-macro2 without its `proc-macro` feature, so lexing and printing are
/// always proc-macro2's own (never the compiler's): the same text gives the same result in every
/// process. The claim is only that the result is a function of the text.
#[verifier::external_body]
pub fn parse_impl_item(item: &str) -> (r: Option<ImplItemShape>)
    ensures
        r == parsed_impl_item(item@),
{
    match syn::parse_str::<syn::ImplItem>(item).ok()? {
        syn::ImplItem::Type(t) => Some(ImplItemShape::AssociatedType {
            n_attributes: t.attrs.len(),
            inherited_visibility: matches!(t.vis, syn::Visibility::Inherited),
            is_default: t.defaultness.is_some(),
            n_generic_params: t.generics.params.len(),
            ident: t.ident.to_string(),
            ty: quote::ToTokens::to_token_stream(&t.ty).to_string(),
        }),
        _ => Some(ImplItemShape::Other),
    }
}

/// Parses a type with `syn::parse_str::<syn::Type>` and tells its kind apart: a path with a
/// qualified self type, a path that is one identifier (with `syn::Path::get_ident`), a longer
/// path, or any other type.
///
/// This crate builds proc-macro2 without its `proc-macro` feature, so lexing and printing are
/// always proc-macro2's own (never the compiler's): the same text gives the same result in every
/// process. The claim is only that the result is a function of the text.
#[verifier::external_body]
pub fn parse_self_type(ty: &str) -> (r: Option<SelfType>)
    ensures
        r == parsed_self_type(ty@),
{
    match syn::parse_str::<syn::Type>(ty).ok()? {
        syn::Type::Path(syn::TypePath { qself: Some(_), .. }) => Some(SelfType::QualifiedPath),
        syn::Type::Path(syn::TypePath { qself: None, path }) => match path.get_ident() {
            Some(ident) => Some(SelfType::Ident(ident.to_string())),
            None => Some(SelfType::LongerPath),
        },
        _ => Some(SelfType::Other),
    }
}

/// Why an attribute or an `impl` block cannot be bridged.
#[derive(Debug, Clone, Copy, PartialEq, Eq, Structural)]
pub enum BridgeError {
    /// The attribute is neither empty nor `namespace = path`.
    NamespaceSyntax,
    /// The item is not an `impl` block (or an item of it does not parse).
    ItemSyntax,
    /// The `impl` is not marked `unsafe`.
    NotUnsafe,
    /// The `impl` is marked `default`.
    MarkedDefault,
    /// The `impl` has generic parameters.
    GenericParams,
    /// The `impl` has a `where` clause.
    WhereClause,
    /// The `impl` is not a (positive) trait implementation.
    NotTraitImpl,
    /// The `impl` does not contain exactly one item.
    NotSingleItem,
    /// The associated type carries attributes.
    ItemAttributes,
    /// The associated type carries a visibility modifier.
    ItemVisibility,
    /// The associated type is marked `default`.
    ItemDefault,
    /// The associated type has generic parameters.
    ItemGenerics,
    /// The associated type is named neither `Output` nor `Item`.
    UnknownAssociatedType,
    /// The one item is not an associated type.
    NotAssociatedType,
    /// The `impl` is for a path that is not a single identifier.
    SelfPathNotIdent,
    /// The `impl` is not for a plain path.
    SelfNotPath,
}

/// The checks of the `bridge` attribute, in the order it makes them: the first one that fails
/// gives the error; if none fails, the result is the bridged trait and the name of the type.
pub open spec fn spec_check_impl(shape: ImplShape) -> Result<(BridgeTrait, Seq<char>), BridgeError> {
    if !shape.is_unsafe {
        Err(BridgeError::NotUnsafe)
    } else if shape.is_default {
        Err(BridgeError::MarkedDefault)
    } else if shape.n_generic_params != 0 {
        Err(BridgeError::GenericParams)
    } else if shape.has_where_clause {
        Err(BridgeError::WhereClause)
    } else if !(shape.trait_ref is Present) {
        Err(BridgeError::NotTraitImpl)
    } else if shape.items@.len() != 1 {
        Err(BridgeError::NotSingleItem)
    } else {
        match parsed_impl_item(shape.items@[0]@) {
            None => Err(BridgeError::ItemSyntax),
            Some(ImplItemShape::Other) => Err(BridgeError::NotAssociatedType),
            Some(
                ImplItemShape::AssociatedType {
                    n_attributes,
                    inherited_visibility,
                    is_default,
                    n_generic_params,
                    ident,
                    ty,
                },
            ) => {
                if n_attributes != 0 {
                    Err(BridgeError::ItemAttributes)
                } else if !inherited_visibility {
                    Err(BridgeError::ItemVisibility)
                } else if is_default {
                    Err(BridgeError::ItemDefault)
                } else if n_generic_params != 0 {
                    Err(BridgeError::ItemGenerics)
                } else if ident@ != "Output"@ && ident@ != "Item"@ {
                    Err(BridgeError::UnknownAssociatedType)
                } else {
                    let bridge_trait = if ident@ == "Output"@ {
                        BridgeTrait::Future
                    } else {
                        BridgeTrait::Stream
                    };
                    match parsed_self_type(shape.self_type@) {
                        None => Err(BridgeError::ItemSyntax),
                        Some(SelfType::Ident(name)) => Ok((bridge_trait, name@)),
                        Some(SelfType::LongerPath) => Err(BridgeError::SelfPathNotIdent),
                        Some(SelfType::QualifiedPath) => Err(BridgeError::SelfNotPath),
                        Some(SelfType::Other) => Err(BridgeError::SelfNotPath),
                    }
                }
            },
        }
    }
}

/// The output type (for a future) or item type (for a stream) of a bridgeable `impl` block: the
/// type of its associated type, as token text.
pub open spec fn spec_output(shape: ImplShape) -> Seq<char> {
    match parsed_impl_item(shape.items@[0]@) {
        Some(ImplItemShape::AssociatedType { ty, .. }) => ty@,
        _ => Seq::empty(),
    }
}

/// The path of the trait that a bridgeable `impl` block implements, as token text.
pub open spec fn spec_trait_path(shape: ImplShape) -> Seq<char> {
    match shape.trait_ref {
        TraitRef::Present(path) => path@,
        _ => Seq::empty(),
    }
}

/// The characters of each namespace piece.
pub open spec fn pieces_view(namespace: Seq<String>) -> Seq<Seq<char>> {
    namespace.map_values(|p: String| p@)
}

/// The namespace pieces, each followed by `sep`, run together.
pub open spec fn namespace_prefix(namespace: Seq<Seq<char>>, sep: Seq<char>) -> Seq<char>
    decreases namespace.len(),
{
    if namespace.len() == 0 {
        Seq::empty()
    } else {
        namespace_prefix(namespace.drop_last(), sep) + namespace.last() + sep
    }
}

/// The fully qualified C++ name of the bridged type: `a::b::Name`.
pub open spec fn spec_qualified_name(namespace: Seq<Seq<char>>, name: Seq<char>) -> Seq<char> {
    namespace_prefix(namespace, "::"@) + name
}

/// The Rust identifier of the function that hands C++ the type's vtable: `cxxasync_a_b_Name_vtable`.
pub open spec fn spec_vtable_glue_ident(namespace: Seq<Seq<char>>, name: Seq<char>) -> Seq<char> {
    "cxxasync_"@ + namespace_prefix(namespace, "_"@) + name + "_vtable"@
}

/// The link name under which C++ finds that function: `cxxasync_a$b$Name_vtable`.
pub open spec fn spec_vtable_glue_link_name(namespace: Seq<Seq<char>>, name: Seq<char>) -> Seq<char> {
    "cxxasync_"@ + namespace_prefix(namespace, "$"@) + name + "_vtable"@
}

/// Appends each namespace piece, followed by `sep`, to `out`.
fn push_namespace(out: &mut String, namespace: &Vec<String>, sep: &str)
    ensures
        final(out)@ == old(out)@ + namespace_prefix(pieces_view(namespace@), sep@),
{
    let ghost start = out@;
    let mut i: usize = 0;
    while i < namespace.len()
        invariant
            0 <= i <= namespace@.len(),
            out@ == start + namespace_prefix(pieces_view(namespace@.take(i as int)), sep@),
        decreases namespace@.len() - i,
    {
        out.append(namespace[i].as_str());
        out.append(sep);
        proof {
            let next = pieces_view(namespace@.take(i + 1));
            assert(next.drop_last() =~= pieces_view(namespace@.take(i as int)));
            assert(next.last() == namespace@[i as int]@);
            assert(out@ =~= start + namespace_prefix(next, sep@));
        }
        i = i + 1;
    }
    proof {
        assert(namespace@.take(namespace@.len() as int) =~= namespace@);
    }
}

/// Builds the fully qualified C++ name of a bridged type.
pub fn qualified_name(namespace: &Vec<String>, name: &str) -> (r: String)
    ensures
        r@ == spec_qualified_name(pieces_view(namespace@), name@),
{
    let mut out = String::new();
    push_namespace(&mut out, namespace, "::");
    out.append(name);
    proof {
        assert(out@ =~= spec_qualified_name(pieces_view(namespace@), name@));
    }
    out
}

/// Builds the Rust identifier of a bridged type's vtable function.
pub fn vtable_glue_ident(namespace: &Vec<String>, name: &str) -> (r: String)
    ensures
        r@ == spec_vtable_glue_ident(pieces_view(namespace@), name@),
{
    let mut out = String::from_str("cxxasync_");
    push_namespace(&mut out, namespace, "_");
    out.append(name);
    out.append("_vtable");
    out
}

/// Builds the link name of a bridged type's vtable function.
pub fn vtable_glue_link_name(namespace: &Vec<String>, name: &str) -> (r: String)
    ensures
        r@ == spec_vtable_glue_link_name(pieces_view(namespace@), name@),
{
    let mut out = String::from_str("cxxasync_");
    push_namespace(&mut out, namespace, "$");
    out.append(name);
    out.append("_vtable");
    out
}

/// Checks an `impl` block that the `bridge` attribute is applied to; on success returns the
/// bridged trait, the name of the bridged type and the type of its associated type.
pub fn check_impl(shape: &ImplShape) -> (r: Result<(BridgeTrait, String, String), BridgeError>)
    ensures
        match spec_check_impl(*shape) {
            Err(e) => r == Err::<(BridgeTrait, String, String), BridgeError>(e),
            Ok((t, name)) => {
                &&& r is Ok
                &&& r->Ok_0.0 == t
                &&& r->Ok_0.1@ == name
                &&& r->Ok_0.2@ == spec_output(*shape)
            },
        },
{
    if !shape.is_unsafe {
        return Err(BridgeError::NotUnsafe);
    }
    if shape.is_default {
        return Err(BridgeError::MarkedDefault);
    }
    if shape.n_generic_params != 0 {
        return Err(BridgeError::GenericParams);
    }
    if shape.has_where_clause {
        return Err(BridgeError::WhereClause);
    }
    match shape.trait_ref {
        TraitRef::Present(_) => {},
        _ => {
            return Err(BridgeError::NotTraitImpl);
        },
    }
    if shape.items.len() != 1 {
        return Err(BridgeError::NotSingleItem);
    }
    let item = match parse_impl_item(shape.items[0].as_str()) {
        None => {
            return Err(BridgeError::ItemSyntax);
        },
        Some(item) => item,
    };
    let (ident, ty) = match item {
        ImplItemShape::Other => {
            return Err(BridgeError::NotAssociatedType);
        },
        ImplItemShape::AssociatedType {
            n_attributes,
            inherited_visibility,
            is_default,
            n_generic_params,
            ident,
            ty,
        } => {
            if n_attributes != 0 {
                return Err(BridgeError::ItemAttributes);
            }
            if !inherited_visibility {
                return Err(BridgeError::ItemVisibility);
            }
            if is_default {
                return Err(BridgeError::ItemDefault);
            }
            if n_generic_params != 0 {
                return Err(BridgeError::ItemGenerics);
            }
            (ident, ty)
        },
    };
    let output = String::from_str("Output");
    let stream_item = String::from_str("Item");
    let bridge_trait = if ident == output {
        BridgeTrait::Future
    } else if ident == stream_item {
        BridgeTrait::Stream
    } else {
        return Err(BridgeError::UnknownAssociatedType);
    };
    match parse_self_type(shape.self_type.as_str()) {
        None => Err(BridgeError::ItemSyntax),
        Some(SelfType::Ident(name)) => Ok((bridge_trait, name, ty)),
        Some(SelfType::LongerPath) => Err(BridgeError::SelfPathNotIdent),
        Some(SelfType::QualifiedPath) => Err(BridgeError::SelfNotPath),
        Some(SelfType::Other) => Err(BridgeError::SelfNotPath),
    }
}

/// The pieces that the `bridge` attribute derives from the `impl` block and its namespace.
pub struct AstPieces {
    /// Whether a future or a stream is bridged.
    pub bridge_trait: BridgeTrait,
    /// The name of the future or stream type.
    pub future: String,
    /// The fully qualified C++ name of the type.
    pub qualified_name: String,
    /// The output type of the future or the item type of the stream, as token text.
    pub output: String,
    /// The path of the implemented trait (`Future` or `Stream`), as token text.
    pub trait_path: String,
    /// The Rust identifier of the type's vtable function.
    pub vtable_glue_ident: String,
    /// The link name of the type's vtable function.
    pub vtable_glue_link_name: String,
}

/// What the pieces are, given the namespace and a bridgeable `impl` block whose type is `name`.
pub open spec fn pieces_match(
    p: AstPieces,
    namespace: Seq<Seq<char>>,
    shape: ImplShape,
    t: BridgeTrait,
    name: Seq<char>,
) -> bool {
    &&& p.bridge_trait == t
    &&& p.future@ == name
    &&& p.qualified_name@ == spec_qualified_name(namespace, name)
    &&& p.output@ == spec_output(shape)
    &&& p.trait_path@ == spec_trait_path(shape)
    &&& p.vtable_glue_ident@ == spec_vtable_glue_ident(namespace, name)
    &&& p.vtable_glue_link_name@ == spec_vtable_glue_link_name(namespace, name)
}

impl AstPieces {
    /// Checks the `impl` block and, if it can be bridged, derives the pieces of the expansion from
    /// it and from the C++ namespace (the pieces of `a::b`).
    pub fn from_impl_shape(namespace: &Vec<String>, shape: &ImplShape) -> (r: Result<
        AstPieces,
        BridgeError,
    >)
        ensures
            match spec_check_impl(*shape) {
                Err(e) => r == Err::<AstPieces, BridgeError>(e),
                Ok((t, name)) => r is Ok && pieces_match(
                    r->Ok_0,
                    pieces_view(namespace@),
                    *shape,
                    t,
                    name,
                ),
            },
    {
        match check_impl(shape) {
            Err(e) => Err(e),
            Ok((bridge_trait, future, output)) => {
                let trait_path = match &shape.trait_ref {
                    TraitRef::Present(path) => path.clone(),
                    _ => String::new(),
                };
                let qualified_name = qualified_name(namespace, future.as_str());
                let vtable_glue_ident = vtable_glue_ident(namespace, future.as_str());
                let vtable_glue_link_name = vtable_glue_link_name(namespace, future.as_str());
                Ok(AstPieces {
                    bridge_trait,
                    future,
                    qualified_name,
                    output,
                    trait_path,
                    vtable_glue_ident,
                    vtable_glue_link_name,
                })
            },
        }
    }

    /// What the `bridge` attribute derives from its own text and the text of the item it is
    /// applied to: the attribute must be empty or `namespace = a::b`, the item must be an `impl`
    /// block, and the block must pass the checks of `check_impl`.
    pub fn from_token_streams(attribute: &str, item: &str) -> (r: Result<AstPieces, BridgeError>)
        ensures
            match spec_parse_namespace(attribute@) {
                None => r == Err::<AstPieces, BridgeError>(BridgeError::NamespaceSyntax),
                Some(namespace) => match parsed_impl(item@) {
                    None => r == Err::<AstPieces, BridgeError>(BridgeError::ItemSyntax),
                    Some(shape) => match spec_check_impl(shape) {
                        Err(e) => r == Err::<AstPieces, BridgeError>(e),
                        Ok((t, name)) => r is Ok && pieces_match(r->Ok_0, namespace, shape, t, name),
                    },
                },
            },
    {
        let namespace = match parse_namespace_attribute(attribute) {
            None => {
                return Err(BridgeError::NamespaceSyntax);
            },
            Some(namespace) => namespace,
        };
        let shape = match parse_impl(item) {
            None => {
                return Err(BridgeError::ItemSyntax);
            },
            Some(shape) => shape,
        };
        AstPieces::from_impl_shape(&namespace, &shape)
    }
}

impl BridgeError {
    /// The compile error message that the `bridge` attribute reports.
    pub open spec fn spec_message(self) -> Seq<char> {
        match self {
            BridgeError::NamespaceSyntax => "expected possible namespace attribute"@,
            BridgeError::ItemSyntax => "expected implementation of `Future` or `Stream`"@,
            BridgeError::NotUnsafe => "implementation must be marked `unsafe`"@,
            BridgeError::MarkedDefault => "implementation must not be marked default"@,
            BridgeError::GenericParams => "generic bridged futures are unsupported"@,
            BridgeError::WhereClause => "generic bridged futures are unsupported"@,
            BridgeError::NotTraitImpl => "must implement the `Future` or `Stream` trait"@,
            BridgeError::NotSingleItem => "expected implementation to contain a single item, `type Output = ...` or `type Item = ...`"@,
            BridgeError::ItemAttributes => "attributes on the `type Output = ...` or `type Item = ...` declaration are not supported"@,
            BridgeError::ItemVisibility => "`pub` or `crate` visibility modifiers on the `type Output = ...` or `type Item = ...` declaration are not supported"@,
            BridgeError::ItemDefault => "`default` specifier on the `type Output = ...` or `type Item = ...` declaration is not supported"@,
            BridgeError::ItemGenerics => "generics on the `type Output = ...` or `type Item = ...` declaration are not supported"@,
            BridgeError::UnknownAssociatedType => "implementation must contain an associated type definition named `Output` or `Item`"@,
            BridgeError::NotAssociatedType => "expected implementation to contain a single item, `type Output = ...` or `type Stream = ...`"@,
            BridgeError::SelfPathNotIdent => "expected `impl` declaration to implement a single type"@,
            BridgeError::SelfNotPath => "expected `impl` declaration to implement a single type"@,
        }
    }

    /// The compile error message that the `bridge` attribute reports for this error.
    pub fn message(&self) -> (m: &'static str)
        ensures
            m@ == self.spec_message(),
    {
        match self {
            BridgeError::NamespaceSyntax => "expected possible namespace attribute",
            BridgeError::ItemSyntax => "expected implementation of `Future` or `Stream`",
            BridgeError::NotUnsafe => "implementation must be marked `unsafe`",
            BridgeError::MarkedDefault => "implementation must not be marked default",
            BridgeError::GenericParams => "generic bridged futures are unsupported",
            BridgeError::WhereClause => "generic bridged futures are unsupported",
            BridgeError::NotTraitImpl => "must implement the `Future` or `Stream` trait",
            BridgeError::NotSingleItem => "expected implementation to contain a single item, `type Output = ...` or `type Item = ...`",
            BridgeError::ItemAttributes => "attributes on the `type Output = ...` or `type Item = ...` declaration are not supported",
            BridgeError::ItemVisibility => "`pub` or `crate` visibility modifiers on the `type Output = ...` or `type Item = ...` declaration are not supported",
            BridgeError::ItemDefault => "`default` specifier on the `type Output = ...` or `type Item = ...` declaration is not supported",
            BridgeError::ItemGenerics => "generics on the `type Output = ...` or `type Item = ...` declaration are not supported",
            BridgeError::UnknownAssociatedType => "implementation must contain an associated type definition named `Output` or `Item`",
            BridgeError::NotAssociatedType => "expected implementation to contain a single item, `type Output = ...` or `type Stream = ...`",
            BridgeError::SelfPathNotIdent => "expected `impl` declaration to implement a single type",
            BridgeError::SelfNotPath => "expected `impl` declaration to implement a single type",
        }
    }
}

/// Without a namespace, the qualified name is the bare type name, and the vtable function's
/// Rust identifier and link name coincide: `cxxasync_Name_vtable`.
pub proof fn lemma_names_without_namespace(namespace: Seq<Seq<char>>, name: Seq<char>)
    requires
        namespace.len() == 0,
    ensures
        spec_qualified_name(namespace, name) == name,
        spec_vtable_glue_ident(namespace, name) == spec_vtable_glue_link_name(namespace, name),
{
    assert(spec_qualified_name(namespace, name) =~= name);
}

/// Every namespace piece shows up in the qualified name: the pieces, each followed by `::`, come
/// first, in order, and the type name last.
pub proof fn lemma_qualified_name_extends(namespace: Seq<Seq<char>>, piece: Seq<char>, name: Seq<char>)
    ensures
        spec_qualified_name(namespace.push(piece), name) == namespace_prefix(namespace, "::"@)
            + piece + "::"@ + name,
{
    assert(namespace.push(piece).drop_last() =~= namespace);
}

/// The Rust identifier of the vtable function grows piece by piece: adding a namespace piece puts
/// it, followed by `_`, after the pieces before it, whatever their number.
pub proof fn lemma_vtable_glue_ident_extends(namespace: Seq<Seq<char>>, piece: Seq<char>, name: Seq<char>)
    ensures
        spec_vtable_glue_ident(namespace.push(piece), name) == "cxxasync_"@ + namespace_prefix(
            namespace,
            "_"@,
        ) + piece + "_"@ + name + "_vtable"@,
{
    assert(namespace.push(piece).drop_last() =~= namespace);
    assert(spec_vtable_glue_ident(namespace.push(piece), name) =~= "cxxasync_"@ + namespace_prefix(
        namespace,
        "_"@,
    ) + piece + "_"@ + name + "_vtable"@);
}

/// The link name of the vtable function grows piece by piece: adding a namespace piece puts it,
/// followed by `$`, after the pieces before it, whatever their number. So with the one piece `p`
/// the link name is `cxxasync_p$Name_vtable`.
pub proof fn lemma_vtable_glue_link_name_extends(
    namespace: Seq<Seq<char>>,
    piece: Seq<char>,
    name: Seq<char>,
)
    ensures
        spec_vtable_glue_link_name(namespace.push(piece), name) == "cxxasync_"@ + namespace_prefix(
            namespace,
            "$"@,
        ) + piece + "$"@ + name + "_vtable"@,
        namespace.len() == 0 ==> spec_vtable_glue_link_name(namespace.push(piece), name)
            == "cxxasync_"@ + piece + "$"@ + name + "_vtable"@,
{
    assert(namespace.push(piece).drop_last() =~= namespace);
    assert(spec_vtable_glue_link_name(namespace.push(piece), name) =~= "cxxasync_"@
        + namespace_prefix(namespace, "$"@) + piece + "$"@ + name + "_vtable"@);
    if namespace.len() == 0 {
        assert(namespace_prefix(namespace, "$"@) =~= Seq::<char>::empty());
        assert(spec_vtable_glue_link_name(namespace.push(piece), name) =~= "cxxasync_"@ + piece
            + "$"@ + name + "_vtable"@);
    }
}

/// The trait path of the expansion is the path the programmer wrote in the `impl` block, passed
/// through as it is, whichever associated type the block defines.
pub proof fn lemma_trait_path_is_written_path(
    p: AstPieces,
    namespace: Seq<Seq<char>>,
    shape: ImplShape,
    t: BridgeTrait,
    name: Seq<char>,
)
    requires
        spec_check_impl(shape) == Ok::<(BridgeTrait, Seq<char>), BridgeError>((t, name)),
        pieces_match(p, namespace, shape, t, name),
    ensures
        shape.trait_ref matches TraitRef::Present(path) && p.trait_path@ == path@,
{
}

/// An `impl` block that passes every check on its form is accepted whatever the type of its
/// associated type: it bridges a future for `type Output`, a stream for `type Item`, and that
/// type's text becomes the output.
pub proof fn lemma_check_impl_accepts_any_type(shape: ImplShape, ident: String, ty: String, name: String)
    requires
        shape.is_unsafe,
        !shape.is_default,
        shape.n_generic_params == 0,
        !shape.has_where_clause,
        shape.trait_ref is Present,
        shape.items@.len() == 1,
        parsed_impl_item(shape.items@[0]@) == Some(
            ImplItemShape::AssociatedType {
                n_attributes: 0,
                inherited_visibility: true,
                is_default: false,
                n_generic_params: 0,
                ident,
                ty,
            },
        ),
        ident@ == "Output"@ || ident@ == "Item"@,
        parsed_self_type(shape.self_type@) == Some(SelfType::Ident(name)),
    ensures
        spec_check_impl(shape) == Ok::<(BridgeTrait, Seq<char>), BridgeError>(
            (if ident@ == "Output"@ { BridgeTrait::Future } else { BridgeTrait::Stream }, name@),
        ),
        spec_output(shape) == ty@,
{
}

/// Whether an `impl` block is accepted, and what it bridges, do not depend on the type of its
/// associated type: two blocks that differ only there get the same answer, and each its own type
/// as output.
pub proof fn lemma_check_impl_ignores_type(s1: ImplShape, s2: ImplShape)
    requires
        s1.is_unsafe == s2.is_unsafe,
        s1.is_default == s2.is_default,
        s1.n_generic_params == s2.n_generic_params,
        s1.has_where_clause == s2.has_where_clause,
        s1.trait_ref is Present == s2.trait_ref is Present,
        s1.items@.len() == 1,
        s2.items@.len() == 1,
        s1.self_type@ == s2.self_type@,
        parsed_impl_item(s1.items@[0]@) matches Some(
            ImplItemShape::AssociatedType {
                n_attributes: a1,
                inherited_visibility: v1,
                is_default: d1,
                n_generic_params: g1,
                ident: i1,
                ..
            },
        ) && parsed_impl_item(s2.items@[0]@) matches Some(
            ImplItemShape::AssociatedType {
                n_attributes: a2,
                inherited_visibility: v2,
                is_default: d2,
                n_generic_params: g2,
                ident: i2,
                ..
            },
        ) && a1 == a2 && v1 == v2 && d1 == d2 && g1 == g2 && i1@ == i2@,
    ensures
        spec_check_impl(s1) == spec_check_impl(s2),
{
}

} // verus!
