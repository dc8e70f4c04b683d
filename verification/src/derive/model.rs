//! The parts of Rust syntax that code generation reads, held as plain
//! values: identifiers and paths as text, attributes with the shape of
//! their arguments, and the token text of the parts that are copied into
//! the output unchanged.

use vstd::prelude::*;

verus! {

/// One segment of a path.
pub struct PathSegment {
    /// The segment's identifier, as it is written (a raw identifier keeps
    /// its `r#`).
    pub ident: String,
    /// Whether the segment carries generic arguments (`Vec<u8>`, `Fn(u8)`).
    pub has_arguments: bool,
}

/// A path such as `std::vec::Vec` or `::core::default::Default`.
pub struct Path {
    pub leading_colon: bool,
    pub segments: Vec<PathSegment>,
}

/// The value of a `name = value` attribute argument.
pub enum MetaValue {
    /// A string literal, by its unescaped value.
    Str(String),
    /// Any other expression.
    Other,
}

/// An argument inside an attribute's parentheses.
pub enum NestedMeta {
    /// A bare path: `default`.
    Path(Path),
    /// A path with parenthesized arguments: `value(..)`.
    List(Path),
    /// `path = value`.
    NameValue(Path, MetaValue),
}

/// The content of an attribute.
pub enum AttrMeta {
    /// `#[path]`
    Path(Path),
    /// `#[path(..)]`, with the token text inside the parentheses.
    List { path: Path, args: String },
    /// `#[path = value]`
    NameValue { path: Path, value: MetaValue },
}

/// An attribute.
pub struct Attribute {
    /// An outer attribute (`#[..]`) rather than an inner one (`#![..]`).
    pub outer: bool,
    pub meta: AttrMeta,
    /// The attribute's token text.
    pub source: String,
}

/// A type.
pub struct Type {
    /// The type's token text.
    pub source: String,
    /// Whether a path type has a qualified self (`<T as Trait>::Item`).
    pub qself: bool,
    /// The path of a path type; `None` for any other type.
    pub path: Option<Path>,
}

/// A field of a struct.
pub struct Field {
    pub attrs: Vec<Attribute>,
    /// The visibility's token text (empty when private).
    pub vis: String,
    /// The field's name; `None` in a tuple struct.
    pub ident: Option<String>,
    pub ty: Type,
}

/// The fields of a struct.
pub enum Fields {
    Named(Vec<Field>),
    Unnamed(Vec<Field>),
    Unit,
}

/// A struct item.
pub struct ItemStruct {
    pub attrs: Vec<Attribute>,
    /// The visibility's token text (empty when private).
    pub vis: String,
    pub ident: String,
    /// The generics as an impl block declares them (`<T: Clone>`).
    pub impl_generics: String,
    /// The generics as the type is named (`<T>`).
    pub ty_generics: String,
    /// The where clause's token text, or empty.
    pub where_clause: String,
    pub fields: Fields,
    /// The token text before the identifier: attributes, visibility and
    /// `struct`.
    pub head: String,
    /// The generic parameters as declared (`<T: Clone>`), or empty.
    pub generics: String,
}

/// A pattern of a function argument.
pub enum Pat {
    /// An identifier pattern (`x`, `mut x`, `ref x`), by its token text.
    Ident(String),
    /// Any other pattern (`(a, b)`, `_`).
    Other,
}

/// An argument of a function signature.
pub enum FnArg {
    /// `self`, `&self`, `&mut self`, ...
    Receiver,
    /// `pattern: Type`
    Typed(Pat),
}

/// A function signature.
pub struct Signature {
    /// The signature's token text.
    pub source: String,
    pub ident: String,
    pub is_async: bool,
    pub inputs: Vec<FnArg>,
}

/// A visibility.
pub enum Visibility {
    /// `pub`
    Public,
    /// `pub(crate)`, `pub(in path)`, ..., by its token text.
    Restricted(String),
    /// No visibility written.
    Inherited,
}

/// A function in an impl block.
pub struct ImplItemFn {
    /// The attributes' token text.
    pub attrs: String,
    pub vis: Visibility,
    /// `default` or empty.
    pub defaultness: String,
    pub sig: Signature,
    /// The body's token text.
    pub block: String,
}

/// An item of an impl block.
pub enum ImplItem {
    Fn(ImplItemFn),
    /// A constant, type, macro or other item.
    Other,
}

/// An impl block.
pub struct ItemImpl {
    /// The type the block is for.
    pub self_ty: Type,
    pub items: Vec<ImplItem>,
    /// The impl block's token text.
    pub source: String,
}

/// An item of a trait.
pub struct TraitItem {
    /// The item's token text.
    pub source: String,
    /// The signature, when the item is a function.
    pub fn_sig: Option<Signature>,
}

/// A trait item.
pub struct ItemTrait {
    pub vis: String,
    pub ident: String,
    pub items: Vec<TraitItem>,
}

/// An item that an attribute is applied to.
pub enum Item {
    Struct(ItemStruct),
    Impl(ItemImpl),
    Trait(ItemTrait),
    /// Any other item.
    Other,
}

impl Path {
    /// The path's identifier when it is a single identifier with no
    /// leading `::` and no generic arguments (`syn::Path::get_ident`).
    pub open spec fn spec_get_ident(&self) -> Option<Seq<char>> {
        if !self.leading_colon && self.segments@.len() == 1 && !self.segments@[0].has_arguments {
            Some(self.segments@[0].ident@)
        } else {
            None
        }
    }
}

impl AttrMeta {
    /// The attribute's path.
    pub open spec fn spec_path(&self) -> Path {
        match self {
            AttrMeta::Path(p) => *p,
            AttrMeta::List { path, .. } => *path,
            AttrMeta::NameValue { path, .. } => *path,
        }
    }

    /// The attribute's path.
    pub fn path(&self) -> (p: &Path)
        ensures
            *p == self.spec_path(),
    {
        match self {
            AttrMeta::Path(p) => p,
            AttrMeta::List { path, .. } => path,
            AttrMeta::NameValue { path, .. } => path,
        }
    }
}

} // verus!
