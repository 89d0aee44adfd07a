//! The syntax model: plain-value views of the declarations, attributes,
//! types and function stubs that the validators and synthesizers read.
//! Each node carries the span of the source construct it was read from,
//! so diagnostics can point at the offending text.

use vstd::prelude::*;

verus! {

/// A possibly `::`-prefixed path of plain identifier segments. Generic
/// arguments and other path decorations are not retained: the rules only
/// ever read segment names.
#[derive(Debug, PartialEq)]
pub struct PathExpr {
    pub leading_colon: bool,
    pub segments: Vec<String>,
}

impl PathExpr {
    /// The path is the single bare identifier `name`.
    pub open spec fn is_ident(&self, name: Seq<char>) -> bool {
        &&& !self.leading_colon
        &&& self.segments@.len() == 1
        &&& self.segments@[0]@ == name
    }
}

/// A literal in attribute arguments. Only string literals are ever read;
/// the model keeps their content and treats every other literal as opaque.
#[derive(Debug, PartialEq)]
pub enum Lit {
    Str { value: String, span: usize },
    Other { span: usize },
}

impl Lit {
    pub open spec fn spec_span(&self) -> nat {
        match *self {
            Lit::Str { span, .. } => span as nat,
            Lit::Other { span } => span as nat,
        }
    }
}

/// One element of an annotation's argument list, in the shapes the
/// annotation grammar distinguishes.
#[derive(Debug, PartialEq)]
pub enum MetaItem {
    /// A bare path: `transparent`.
    Word { path: PathExpr, span: usize },
    /// A path followed by a parenthesized group: `align(8)`.
    Group { path: PathExpr, span: usize },
    /// A path, `=`, and a literal: `crate = "..."`.
    Assign { path: PathExpr, value: Lit, span: usize },
    /// A bare literal.
    Literal { lit: Lit, span: usize },
    /// Tokens that fit none of the recognized shapes.
    Opaque { span: usize },
}

impl MetaItem {
    pub open spec fn spec_span(&self) -> nat {
        match *self {
            MetaItem::Word { span, .. } => span as nat,
            MetaItem::Group { span, .. } => span as nat,
            MetaItem::Assign { span, .. } => span as nat,
            MetaItem::Literal { span, .. } => span as nat,
            MetaItem::Opaque { span } => span as nat,
        }
    }
}

/// The argument position of an attribute.
#[derive(Debug, PartialEq)]
pub enum AttrArgs {
    /// `#[name]`
    Empty,
    /// `#[name(item, item, ...)]`
    List { items: Vec<MetaItem> },
    /// `#[name = lit]`
    Assign { value: Lit },
}

/// One attribute on a declaration or a field.
#[derive(Debug, PartialEq)]
pub struct Attr {
    pub path: PathExpr,
    pub args: AttrArgs,
    pub span: usize,
}

/// A visibility qualifier, kept only to be preserved on generated code.
#[derive(Clone, Copy, Debug, PartialEq, Eq, Structural)]
pub enum Vis {
    Inherited,
    Pub,
    Restricted,
}

/// A type expression, reduced to what the rules read of it: tuple arity,
/// path segment names, reference structure, and opaque `impl` bounds.
#[derive(Debug, PartialEq)]
pub enum TypeExpr {
    /// A tuple type with `elems` elements; `elems == 0` is the unit type.
    Tuple { elems: usize, span: usize },
    /// A path type; only the segment identifiers are retained.
    Path { path: PathExpr, span: usize },
    /// A reference type.
    Reference { mutable: bool, inner: Box<TypeExpr>, span: usize },
    /// An opaque `impl Trait` bound.
    ImplTrait { span: usize },
    /// Any other form of type.
    Other { span: usize },
}

impl TypeExpr {
    pub open spec fn spec_span(&self) -> nat {
        match *self {
            TypeExpr::Tuple { span, .. } => span as nat,
            TypeExpr::Path { span, .. } => span as nat,
            TypeExpr::Reference { span, .. } => span as nat,
            TypeExpr::ImplTrait { span } => span as nat,
            TypeExpr::Other { span } => span as nat,
        }
    }
}

/// One field of a declaration.
#[derive(Debug, PartialEq)]
pub struct Field {
    pub attrs: Vec<Attr>,
    pub vis: Vis,
    pub ty: TypeExpr,
    pub span: usize,
}

/// Whether the annotated item is a struct, a sum type, or a union.
#[derive(Clone, Copy, Debug, PartialEq, Eq, Structural)]
pub enum DataShape {
    Struct,
    Enum,
    Union,
}

/// The annotated declaration, read once per invocation and never mutated.
/// For a sum type or union the field list is empty.
#[derive(Debug, PartialEq)]
pub struct Declaration {
    pub name: String,
    pub vis: Vis,
    pub generics: Vec<String>,
    pub attrs: Vec<Attr>,
    pub shape: DataShape,
    pub fields: Vec<Field>,
    pub span: usize,
}

/// How a declaration's fields are classified: by explicit markers alone,
/// or by the structural heuristic. The mode is decided once per
/// declaration and applied uniformly to every field.
#[derive(Clone, Copy, Debug, PartialEq, Eq, Structural)]
pub enum TrivialityMode {
    Explicit,
    Implicit,
}

/// One parameter of a function stub.
#[derive(Debug, PartialEq)]
pub struct Param {
    pub name: String,
    pub ty: TypeExpr,
    pub span: usize,
}

/// A headerless function stub handed to the custom-signature expander:
/// a full signature with no body. Every part is preserved verbatim on the
/// generated function.
#[derive(Debug, PartialEq)]
pub struct FunctionStub {
    pub attrs: Vec<Attr>,
    pub vis: Vis,
    pub is_const: bool,
    pub is_async: bool,
    pub is_unsafe: bool,
    pub has_abi: bool,
    pub name: String,
    pub generics: Vec<String>,
    pub params: Vec<Param>,
    pub ret: TypeExpr,
    pub span: usize,
}

} // verus!
