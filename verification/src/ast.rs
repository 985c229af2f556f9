//! The description of a declaration that the engine renders from: type
//! expressions, generic parameters, where-clauses, variants, and the
//! declaration itself. Forms outside the supported grammar are kept as
//! tags, so that rendering can name the form it rejects.

use vstd::prelude::*;

verus! {

/// A type shape that cannot be rendered.
#[derive(Clone, Copy, Debug, PartialEq, Eq, Structural)]
pub enum TypeForm {
    BareFn,
    Group,
    ImplTrait,
    Infer,
    Macro,
    Never,
    Paren,
    Ptr,
    TraitObject,
    Verbatim,
    Unknown,
}

/// A construct inside the supported shapes that has no rendering.
#[derive(Clone, Copy, Debug, PartialEq, Eq, Structural)]
pub enum Form {
    /// A byte-string literal.
    ByteStrLiteral,
    /// A literal kept as raw tokens.
    VerbatimLiteral,
    /// An expression that is not a literal.
    NonLiteralExpr,
    /// Path arguments in round brackets, as in `Fn(A) -> B`.
    ParenthesizedArguments,
    /// A path with an explicit self type, as in `<T as Tr>::Out`.
    QualifiedSelf,
    /// A trait bound with a modifier, as in `?Sized`.
    TraitBoundModifier,
    /// A bound that introduces lifetimes, as in `for<'a> Fn(&'a T)`.
    HigherRankedLifetimes,
}

/// The kind of a declaration that is not an enumeration.
#[derive(Clone, Copy, Debug, PartialEq, Eq, Structural)]
pub enum DeclKind {
    Struct,
    Union,
}

/// Why a generation request failed. A failure ends the request: no text is
/// produced.
#[derive(Clone, Copy, Debug, PartialEq, Eq, Structural)]
pub enum GenError {
    /// A type expression has a shape outside the supported grammar.
    UnsupportedTypeForm(TypeForm),
    /// A const generic parameter stands where only type and lifetime
    /// parameters are accepted.
    UnsupportedGenericConstParam,
    /// A supported shape holds a construct that has no rendering.
    Unimplemented(Form),
    /// A derivation for enumerations was asked of a struct or a union.
    WrongDeclarationKind(DeclKind),
    /// The index-type generator was given anything but one identifier.
    MalformedInvocation,
}

/// A literal. The numeric forms hold their digits in base ten.
#[derive(Debug)]
pub enum Literal {
    Str(String),
    ByteStr,
    Byte(u8),
    Char(char),
    Int(String),
    Float(String),
    Bool(bool),
    Verbatim,
}

/// An expression in a type: the length of an array, or a const argument.
#[derive(Debug)]
pub enum ConstExpr {
    Lit(Literal),
    Other,
}

/// A type expression.
#[derive(Debug)]
pub enum TypeExpr {
    /// `[elem; len]`
    Array(Box<TypeExpr>, ConstExpr),
    /// `&'lifetime mut elem`, the lifetime by its name without the quote.
    Reference(Option<String>, bool, Box<TypeExpr>),
    /// `[elem]`
    Slice(Box<TypeExpr>),
    /// `(elems…)`
    Tuple(Vec<TypeExpr>),
    /// A path to a named type.
    Path(TypePath),
    /// Any other shape.
    Unsupported(TypeForm),
}

/// A path in type position.
#[derive(Debug)]
pub struct TypePath {
    /// Whether the path has an explicit self type.
    pub qualified_self: bool,
    pub path: Path,
}

/// A path: segments separated by `::`.
#[derive(Debug)]
pub struct Path {
    pub segments: Vec<PathSegment>,
}

/// One segment of a path.
#[derive(Debug)]
pub struct PathSegment {
    pub ident: String,
    pub arguments: PathArguments,
}

/// The arguments of a path segment.
#[derive(Debug)]
pub enum PathArguments {
    /// No arguments at all.
    Absent,
    AngleBracketed(Vec<GenericArg>),
    Parenthesized,
}

/// One generic argument.
#[derive(Debug)]
pub enum GenericArg {
    /// A lifetime, by its name without the quote.
    Lifetime(String),
    Type(TypeExpr),
    /// `name = type`
    Binding(String, TypeExpr),
    /// `name : bounds`
    Constraint(String, Vec<Bound>),
    Const(ConstExpr),
}

/// A bound on a type.
#[derive(Debug)]
pub enum Bound {
    Trait(TraitBound),
    /// A lifetime, by its name without the quote.
    Lifetime(String),
}

/// A trait bound.
#[derive(Debug)]
pub struct TraitBound {
    /// Whether the bound has a modifier, as in `?Sized`.
    pub modifier: bool,
    /// Whether the bound introduces lifetimes with `for<…>`.
    pub higher_ranked: bool,
    pub path: Path,
}

/// A generic parameter of a declaration.
#[derive(Debug)]
pub enum GenericParam {
    Type { name: String, bounds: Vec<Bound> },
    /// A lifetime and the lifetimes it outlives, by their names without the
    /// quote.
    Lifetime { name: String, outlives: Vec<String> },
    Const,
}

/// One predicate of a where-clause.
#[derive(Debug)]
pub enum WherePredicate {
    /// `bounded : bounds`
    Type { higher_ranked: bool, bounded: TypeExpr, bounds: Vec<Bound> },
    /// `'lifetime : 'outlives`
    Lifetime { lifetime: String, outlives: Vec<String> },
    /// `lhs = rhs`
    Eq { lhs: TypeExpr, rhs: TypeExpr },
}

/// A where-clause.
#[derive(Debug)]
pub struct WhereClause {
    pub predicates: Vec<WherePredicate>,
}

/// One named field of a variant.
#[derive(Debug)]
pub struct NamedField {
    pub name: String,
    pub ty: TypeExpr,
}

/// The fields of a variant.
#[derive(Debug)]
pub enum Fields {
    Named(Vec<NamedField>),
    Unnamed(Vec<TypeExpr>),
    Unit,
}

/// One variant of an enumeration.
#[derive(Debug)]
pub struct VariantDescriptor {
    pub name: String,
    pub fields: Fields,
}

/// What a declaration declares.
#[derive(Debug)]
pub enum Data {
    Enum(Vec<VariantDescriptor>),
    Struct,
    Union,
}

/// A declaration of an algebraic data type.
#[derive(Debug)]
pub struct AdtDescriptor {
    pub name: String,
    pub params: Vec<GenericParam>,
    pub where_clause: Option<WhereClause>,
    pub data: Data,
}

/// What a rendering function returns: `Err(e)` exactly when `error` is
/// `Some(e)`, and otherwise `Ok` of a string that reads `text`.
pub open spec fn renders(r: Result<String, GenError>, error: Option<GenError>, text: Seq<char>) -> bool {
    match r {
        Ok(s) => error is None && s@ == text,
        Err(e) => error == Some(e),
    }
}

/// Rendering is repeatable: two results for the same request are both the
/// same text, or both the same failure.
pub proof fn lemma_renders_once(
    first: Result<String, GenError>,
    second: Result<String, GenError>,
    error: Option<GenError>,
    text: Seq<char>,
)
    requires
        renders(first, error, text),
        renders(second, error, text),
    ensures
        first is Ok <==> second is Ok,
        first is Ok ==> first->Ok_0@ == second->Ok_0@,
        first is Err ==> first->Err_0 == second->Err_0,
{
}

} // verus!
