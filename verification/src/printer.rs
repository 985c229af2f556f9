//! Rendering of type expressions, paths, generic arguments and bounds.
//!
//! For each construct there are two specifications: its text, and the first
//! construct inside it that cannot be rendered, in reading order. A
//! rendering function returns the text exactly when there is no such
//! construct, and otherwise the error that names it.

use crate::ast::{
    renders, Bound, ConstExpr, Form, GenError, GenericArg, Literal, Path, PathArguments,
    PathSegment, TraitBound, TypeExpr, TypePath,
};
use crate::text::{decimal, first_some, join, join_strings, lemma_first_some_at, lemma_first_some_none, push_char, push_decimal, views};
use vstd::prelude::*;
use vstd::string::StringExecFns;

verus! {

broadcast use vstd::std_specs::vec::axiom_vec_index_decreases;

/// `a` if it is a failure, else `b`.
pub open spec fn or_else(a: Option<GenError>, b: Option<GenError>) -> Option<GenError> {
    match a {
        Some(e) => Some(e),
        None => b,
    }
}

/// What a function that renders a row of items returns: the first failure
/// in `errors`, or one string for each of `texts`.
pub open spec fn renders_all(
    r: Result<Vec<String>, GenError>,
    errors: Seq<Option<GenError>>,
    texts: Seq<Seq<char>>,
) -> bool {
    match r {
        Ok(v) => first_some(errors) is None && views(v@) == texts,
        Err(e) => first_some(errors) == Some(e),
    }
}

/// A lifetime: its name after a quote.
pub open spec fn lifetime_text(name: Seq<char>) -> Seq<char> {
    "'"@ + name
}

/// The lifetimes of `names`, one text each.
pub open spec fn lifetime_texts(names: Seq<String>) -> Seq<Seq<char>> {
    Seq::new(names.len(), |i: int| lifetime_text(names[i]@))
}

/// Lifetime bounds, joined by ` + `.
pub open spec fn lifetime_bounds_text(names: Seq<String>) -> Seq<char> {
    join(lifetime_texts(names), " + "@)
}

/// Why a literal cannot be rendered, if it cannot: byte strings and raw
/// tokens have no rendering.
pub open spec fn literal_error(l: Literal) -> Option<GenError> {
    match l {
        Literal::ByteStr => Some(GenError::Unimplemented(Form::ByteStrLiteral)),
        Literal::Verbatim => Some(GenError::Unimplemented(Form::VerbatimLiteral)),
        _ => None,
    }
}

/// A literal by its value: a string without its quotes, a byte as a decimal
/// number, a number by its digits.
pub open spec fn literal_text(l: Literal) -> Seq<char> {
    match l {
        Literal::Str(s) => s@,
        Literal::Byte(b) => decimal(b as nat),
        Literal::Char(c) => seq![c],
        Literal::Int(digits) => digits@,
        Literal::Float(digits) => digits@,
        Literal::Bool(b) => if b {
            "true"@
        } else {
            "false"@
        },
        _ => Seq::empty(),
    }
}

/// Why an expression cannot be rendered, if it cannot: only a literal that
/// can be rendered has a rendering.
pub open spec fn expr_error(e: ConstExpr) -> Option<GenError> {
    match e {
        ConstExpr::Lit(l) => literal_error(l),
        ConstExpr::Other => Some(GenError::Unimplemented(Form::NonLiteralExpr)),
    }
}

/// The text of an expression: that of its literal.
pub open spec fn expr_text(e: ConstExpr) -> Seq<char> {
    match e {
        ConstExpr::Lit(l) => literal_text(l),
        ConstExpr::Other => Seq::empty(),
    }
}

/// The first construct in a type expression that cannot be rendered, in
/// reading order: the element of an array before its length, the elements
/// of a tuple from left to right.
pub open spec fn type_error(t: TypeExpr) -> Option<GenError>
    decreases t,
{
    match t {
        TypeExpr::Array(elem, len) => or_else(type_error(*elem), expr_error(len)),
        TypeExpr::Reference(_, _, elem) => type_error(*elem),
        TypeExpr::Slice(elem) => type_error(*elem),
        TypeExpr::Tuple(elems) => first_some(type_errors(elems)),
        TypeExpr::Path(p) => type_path_error(p),
        TypeExpr::Unsupported(form) => Some(GenError::UnsupportedTypeForm(form)),
    }
}

/// For each type of a row, the first construct in it that cannot be
/// rendered.
pub open spec fn type_errors(ts: Vec<TypeExpr>) -> Seq<Option<GenError>>
    decreases ts,
{
    Seq::new(
        ts@.len(),
        |i: int|
            if 0 <= i < ts@.len() {
                type_error(ts@[i])
            } else {
                None
            },
    )
}

/// The first construct in a path in type position that cannot be rendered:
/// the explicit self type if there is one, else the first in the path.
pub open spec fn type_path_error(p: TypePath) -> Option<GenError>
    decreases p,
{
    if p.qualified_self {
        Some(GenError::Unimplemented(Form::QualifiedSelf))
    } else {
        path_error(p.path)
    }
}

/// The first construct in a path that cannot be rendered.
pub open spec fn path_error(p: Path) -> Option<GenError>
    decreases p,
{
    first_some(segment_errors(p.segments))
}

/// For each segment of a path, the first construct in it that cannot be
/// rendered.
pub open spec fn segment_errors(segments: Vec<PathSegment>) -> Seq<Option<GenError>>
    decreases segments,
{
    Seq::new(
        segments@.len(),
        |i: int|
            if 0 <= i < segments@.len() {
                segment_error(segments@[i])
            } else {
                None
            },
    )
}

/// The first construct in a segment that cannot be rendered: arguments in
/// round brackets, or the first among the arguments in angle brackets.
pub open spec fn segment_error(s: PathSegment) -> Option<GenError>
    decreases s,
{
    match s.arguments {
        PathArguments::Absent => None,
        PathArguments::AngleBracketed(args) => first_some(arg_errors(args)),
        PathArguments::Parenthesized => Some(GenError::Unimplemented(Form::ParenthesizedArguments)),
    }
}

/// For each generic argument, the first construct in it that cannot be
/// rendered.
pub open spec fn arg_errors(args: Vec<GenericArg>) -> Seq<Option<GenError>>
    decreases args,
{
    Seq::new(
        args@.len(),
        |i: int|
            if 0 <= i < args@.len() {
                arg_error(args@[i])
            } else {
                None
            },
    )
}

/// The first construct in a generic argument that cannot be rendered.
pub open spec fn arg_error(a: GenericArg) -> Option<GenError>
    decreases a,
{
    match a {
        GenericArg::Lifetime(_) => None,
        GenericArg::Type(t) => type_error(t),
        GenericArg::Binding(_, t) => type_error(t),
        GenericArg::Constraint(_, bounds) => bounds_error(bounds),
        GenericArg::Const(e) => expr_error(e),
    }
}

/// The first construct among bounds that cannot be rendered.
pub open spec fn bounds_error(bounds: Vec<Bound>) -> Option<GenError>
    decreases bounds, 1int,
{
    first_some(bound_errors(bounds))
}

/// For each bound, the first construct in it that cannot be rendered.
pub open spec fn bound_errors(bounds: Vec<Bound>) -> Seq<Option<GenError>>
    decreases bounds, 0int,
{
    Seq::new(
        bounds@.len(),
        |i: int|
            if 0 <= i < bounds@.len() {
                bound_error(bounds@[i])
            } else {
                None
            },
    )
}

/// The first construct in a bound that cannot be rendered. A lifetime
/// always has a rendering.
pub open spec fn bound_error(b: Bound) -> Option<GenError>
    decreases b,
{
    match b {
        Bound::Trait(tb) => trait_bound_error(tb),
        Bound::Lifetime(_) => None,
    }
}

/// The first construct in a trait bound that cannot be rendered: its
/// modifier, then the lifetimes it introduces, then the first in its path.
pub open spec fn trait_bound_error(tb: TraitBound) -> Option<GenError>
    decreases tb,
{
    if tb.modifier {
        Some(GenError::Unimplemented(Form::TraitBoundModifier))
    } else if tb.higher_ranked {
        Some(GenError::Unimplemented(Form::HigherRankedLifetimes))
    } else {
        path_error(tb.path)
    }
}

/// The opening of a reference: `&`, the lifetime if there is one, and
/// ` mut` if it is mutable.
pub open spec fn reference_head(lifetime: Option<String>, mutable: bool) -> Seq<char> {
    let lf = match lifetime {
        Some(name) => lifetime_text(name@),
        None => Seq::empty(),
    };
    if mutable {
        "&"@ + lf + " mut"@
    } else {
        "&"@ + lf
    }
}

/// The text of a type expression.
pub open spec fn type_text(t: TypeExpr) -> Seq<char>
    decreases t,
{
    match t {
        TypeExpr::Array(elem, len) => "["@ + type_text(*elem) + "; "@ + expr_text(len) + "]"@,
        TypeExpr::Reference(lifetime, mutable, elem) => reference_head(lifetime, mutable) + " "@
            + type_text(*elem),
        TypeExpr::Slice(elem) => "["@ + type_text(*elem) + "]"@,
        TypeExpr::Tuple(elems) => "("@ + join(type_texts(elems), ", "@) + ")"@,
        TypeExpr::Path(p) => path_text(p.path),
        TypeExpr::Unsupported(_) => Seq::empty(),
    }
}

/// The texts of the types of a row, in order.
pub open spec fn type_texts(ts: Vec<TypeExpr>) -> Seq<Seq<char>>
    decreases ts,
{
    Seq::new(
        ts@.len(),
        |i: int|
            if 0 <= i < ts@.len() {
                type_text(ts@[i])
            } else {
                Seq::empty()
            },
    )
}

/// A path: its segments joined by `::`.
pub open spec fn path_text(p: Path) -> Seq<char>
    decreases p,
{
    join(segment_texts(p.segments), "::"@)
}

/// The texts of the segments of a path, in order.
pub open spec fn segment_texts(segments: Vec<PathSegment>) -> Seq<Seq<char>>
    decreases segments,
{
    Seq::new(
        segments@.len(),
        |i: int|
            if 0 <= i < segments@.len() {
                segment_text(segments@[i])
            } else {
                Seq::empty()
            },
    )
}

/// A path segment: its name, then its arguments.
pub open spec fn segment_text(s: PathSegment) -> Seq<char>
    decreases s,
{
    match s.arguments {
        PathArguments::AngleBracketed(args) => s.ident@ + angle_bracketed_text(args),
        _ => s.ident@,
    }
}

/// Generic arguments in angle brackets, joined by `, `; nothing at all for
/// no arguments.
pub open spec fn angle_bracketed_text(args: Vec<GenericArg>) -> Seq<char>
    decreases args, 1int,
{
    if args@.len() == 0 {
        Seq::empty()
    } else {
        "<"@ + join(arg_texts(args), ", "@) + ">"@
    }
}

/// The texts of generic arguments, in order.
pub open spec fn arg_texts(args: Vec<GenericArg>) -> Seq<Seq<char>>
    decreases args, 0int,
{
    Seq::new(
        args@.len(),
        |i: int|
            if 0 <= i < args@.len() {
                arg_text(args@[i])
            } else {
                Seq::empty()
            },
    )
}

/// The text of a generic argument: a lifetime, a type, `name = type`,
/// `name : bounds`, or a literal.
pub open spec fn arg_text(a: GenericArg) -> Seq<char>
    decreases a,
{
    match a {
        GenericArg::Lifetime(name) => lifetime_text(name@),
        GenericArg::Type(t) => type_text(t),
        GenericArg::Binding(name, t) => name@ + " = "@ + type_text(t),
        GenericArg::Constraint(name, bounds) => name@ + " : "@ + bounds_text(bounds),
        GenericArg::Const(e) => expr_text(e),
    }
}

/// Bounds on a type, joined by ` + `.
pub open spec fn bounds_text(bounds: Vec<Bound>) -> Seq<char>
    decreases bounds, 1int,
{
    join(bound_texts(bounds), " + "@)
}

/// The texts of bounds, in order.
pub open spec fn bound_texts(bounds: Vec<Bound>) -> Seq<Seq<char>>
    decreases bounds, 0int,
{
    Seq::new(
        bounds@.len(),
        |i: int|
            if 0 <= i < bounds@.len() {
                bound_text(bounds@[i])
            } else {
                Seq::empty()
            },
    )
}

/// The text of a bound: the path of a trait, or a lifetime.
pub open spec fn bound_text(b: Bound) -> Seq<char>
    decreases b,
{
    match b {
        Bound::Trait(tb) => path_text(tb.path),
        Bound::Lifetime(name) => lifetime_text(name@),
    }
}


/// Renders a lifetime from its name.
pub fn lifetime_to_string(name: &str) -> (out: String)
    ensures
        out@ == lifetime_text(name@),
{
    let mut out = String::from_str("'");
    out.append(name);
    out
}

/// Renders lifetime bounds, joined by ` + `.
pub fn lifetime_bounds_to_string(bounds: &Vec<String>) -> (out: String)
    ensures
        out@ == lifetime_bounds_text(bounds@),
{
    let mut parts: Vec<String> = Vec::new();
    let mut i: usize = 0;
    while i < bounds.len()
        invariant
            i <= bounds.len(),
            parts@.len() == i,
            forall|j: int| 0 <= j < i ==> parts@[j]@ == lifetime_text(#[trigger] bounds@[j]@),
        decreases bounds.len() - i,
    {
        parts.push(lifetime_to_string(bounds[i].as_str()));
        i = i + 1;
    }
    proof {
        assert(views(parts@) =~= lifetime_texts(bounds@));
    }
    join_strings(&parts, " + ")
}

/// Renders a literal by its value.
pub fn lit_to_string(l: &Literal) -> (r: Result<String, GenError>)
    ensures
        renders(r, literal_error(*l), literal_text(*l)),
{
    match l {
        Literal::Str(s) => Ok(s.clone()),
        Literal::ByteStr => Err(GenError::Unimplemented(Form::ByteStrLiteral)),
        Literal::Byte(b) => {
            let mut out = String::new();
            push_decimal(&mut out, *b as usize);
            Ok(out)
        },
        Literal::Char(c) => {
            let mut out = String::new();
            push_char(&mut out, *c);
            Ok(out)
        },
        Literal::Int(digits) => Ok(digits.clone()),
        Literal::Float(digits) => Ok(digits.clone()),
        Literal::Bool(b) => if *b {
            Ok(String::from_str("true"))
        } else {
            Ok(String::from_str("false"))
        },
        Literal::Verbatim => Err(GenError::Unimplemented(Form::VerbatimLiteral)),
    }
}

/// Renders an expression in a type. Only literals have a rendering.
pub fn expr_to_string(e: &ConstExpr) -> (r: Result<String, GenError>)
    ensures
        renders(r, expr_error(*e), expr_text(*e)),
{
    match e {
        ConstExpr::Lit(l) => lit_to_string(l),
        ConstExpr::Other => Err(GenError::Unimplemented(Form::NonLiteralExpr)),
    }
}

/// Renders a type expression.
pub fn type_to_string(ty: &TypeExpr) -> (r: Result<String, GenError>)
    ensures
        renders(r, type_error(*ty), type_text(*ty)),
    decreases ty, 0int,
{
    match ty {
        TypeExpr::Array(elem, len) => {
            let elem_text = type_to_string(elem)?;
            let len_text = expr_to_string(len)?;
            let mut out = String::from_str("[");
            out.append(elem_text.as_str());
            out.append("; ");
            out.append(len_text.as_str());
            out.append("]");
            Ok(out)
        },
        TypeExpr::Reference(lifetime, mutable, elem) => {
            let mut out = String::from_str("&");
            if let Some(name) = lifetime {
                out.append(lifetime_to_string(name.as_str()).as_str());
            }
            if *mutable {
                out.append(" mut");
            }
            let elem_text = type_to_string(elem)?;
            out.append(" ");
            out.append(elem_text.as_str());
            Ok(out)
        },
        TypeExpr::Slice(elem) => {
            let elem_text = type_to_string(elem)?;
            let mut out = String::from_str("[");
            out.append(elem_text.as_str());
            out.append("]");
            Ok(out)
        },
        TypeExpr::Tuple(elems) => {
            let parts = types_to_strings(elems)?;
            let mut out = String::from_str("(");
            out.append(join_strings(&parts, ", ").as_str());
            out.append(")");
            Ok(out)
        },
        TypeExpr::Path(p) => type_path_to_string(p),
        TypeExpr::Unsupported(form) => Err(GenError::UnsupportedTypeForm(*form)),
    }
}

/// Renders each type of a row, in order.
pub fn types_to_strings(ts: &Vec<TypeExpr>) -> (r: Result<Vec<String>, GenError>)
    ensures
        renders_all(r, type_errors(*ts), type_texts(*ts)),
    decreases ts,
{
    let mut out: Vec<String> = Vec::new();
    let mut i: usize = 0;
    while i < ts.len()
        invariant
            i <= ts.len(),
            out@.len() == i,
            forall|j: int|
                0 <= j < i ==> type_error(#[trigger] ts@[j]) is None && out@[j]@ == type_text(
                    ts@[j],
                ),
        decreases ts.len() - i,
    {
        match type_to_string(&ts[i]) {
            Ok(s) => {
                out.push(s);
            },
            Err(e) => {
                proof {
                    lemma_first_some_at(type_errors(*ts), i as int);
                }
                return Err(e);
            },
        }
        i = i + 1;
    }
    proof {
        lemma_first_some_none(type_errors(*ts));
        assert(views(out@) =~= type_texts(*ts));
    }
    Ok(out)
}

/// Renders a path in type position. A path with an explicit self type has
/// no rendering.
pub fn type_path_to_string(tp: &TypePath) -> (r: Result<String, GenError>)
    ensures
        renders(r, type_path_error(*tp), path_text(tp.path)),
    decreases tp,
{
    if tp.qualified_self {
        return Err(GenError::Unimplemented(Form::QualifiedSelf));
    }
    path_to_string(&tp.path)
}

/// Renders a path: its segments joined by `::`.
pub fn path_to_string(path: &Path) -> (r: Result<String, GenError>)
    ensures
        renders(r, path_error(*path), path_text(*path)),
    decreases path,
{
    let parts = segments_to_strings(&path.segments)?;
    Ok(join_strings(&parts, "::"))
}

/// Renders each segment of a path, in order.
pub fn segments_to_strings(segments: &Vec<PathSegment>) -> (r: Result<Vec<String>, GenError>)
    ensures
        renders_all(r, segment_errors(*segments), segment_texts(*segments)),
    decreases segments,
{
    let mut out: Vec<String> = Vec::new();
    let mut i: usize = 0;
    while i < segments.len()
        invariant
            i <= segments.len(),
            out@.len() == i,
            forall|j: int|
                0 <= j < i ==> segment_error(#[trigger] segments@[j]) is None && out@[j]@
                    == segment_text(segments@[j]),
        decreases segments.len() - i,
    {
        match path_segment_to_string(&segments[i]) {
            Ok(s) => {
                out.push(s);
            },
            Err(e) => {
                proof {
                    lemma_first_some_at(segment_errors(*segments), i as int);
                }
                return Err(e);
            },
        }
        i = i + 1;
    }
    proof {
        lemma_first_some_none(segment_errors(*segments));
        assert(views(out@) =~= segment_texts(*segments));
    }
    Ok(out)
}

/// Renders one segment of a path: its name, then its arguments in angle
/// brackets. Arguments in round brackets have no rendering.
pub fn path_segment_to_string(ps: &PathSegment) -> (r: Result<String, GenError>)
    ensures
        renders(r, segment_error(*ps), segment_text(*ps)),
    decreases ps,
{
    let mut seg = ps.ident.clone();
    match &ps.arguments {
        PathArguments::Absent => Ok(seg),
        PathArguments::AngleBracketed(args) => {
            let args_text = angle_bracketed_generic_arguments_to_string(args)?;
            seg.append(args_text.as_str());
            Ok(seg)
        },
        PathArguments::Parenthesized => Err(GenError::Unimplemented(Form::ParenthesizedArguments)),
    }
}

/// Renders generic arguments in angle brackets; no arguments give no text.
pub fn angle_bracketed_generic_arguments_to_string(args: &Vec<GenericArg>) -> (r: Result<
    String,
    GenError,
>)
    ensures
        renders(r, first_some(arg_errors(*args)), angle_bracketed_text(*args)),
    decreases args, 1int,
{
    let parts = args_to_strings(args)?;
    if parts.len() == 0 {
        Ok(String::new())
    } else {
        let mut out = String::from_str("<");
        out.append(join_strings(&parts, ", ").as_str());
        out.append(">");
        Ok(out)
    }
}

/// Renders each generic argument of a row, in order.
pub fn args_to_strings(args: &Vec<GenericArg>) -> (r: Result<Vec<String>, GenError>)
    ensures
        renders_all(r, arg_errors(*args), arg_texts(*args)),
    decreases args, 0int,
{
    let mut out: Vec<String> = Vec::new();
    let mut i: usize = 0;
    while i < args.len()
        invariant
            i <= args.len(),
            out@.len() == i,
            forall|j: int|
                0 <= j < i ==> arg_error(#[trigger] args@[j]) is None && out@[j]@ == arg_text(
                    args@[j],
                ),
        decreases args.len() - i,
    {
        match generic_argument_to_string(&args[i]) {
            Ok(s) => {
                out.push(s);
            },
            Err(e) => {
                proof {
                    lemma_first_some_at(arg_errors(*args), i as int);
                }
                return Err(e);
            },
        }
        i = i + 1;
    }
    proof {
        lemma_first_some_none(arg_errors(*args));
        assert(views(out@) =~= arg_texts(*args));
    }
    Ok(out)
}

/// Renders one generic argument.
pub fn generic_argument_to_string(a: &GenericArg) -> (r: Result<String, GenError>)
    ensures
        renders(r, arg_error(*a), arg_text(*a)),
    decreases a,
{
    match a {
        GenericArg::Lifetime(name) => Ok(lifetime_to_string(name.as_str())),
        GenericArg::Type(ty) => type_to_string(ty),
        GenericArg::Binding(name, ty) => binding_to_string(name.as_str(), ty),
        GenericArg::Constraint(name, bounds) => constraint_to_string(name.as_str(), bounds),
        GenericArg::Const(e) => expr_to_string(e),
    }
}

/// Renders a binding of an associated type: `name = type`.
pub fn binding_to_string(name: &str, ty: &TypeExpr) -> (r: Result<String, GenError>)
    ensures
        renders(r, type_error(*ty), name@ + " = "@ + type_text(*ty)),
    decreases ty, 1int,
{
    let ty_text = type_to_string(ty)?;
    let mut out = String::from_str(name);
    out.append(" = ");
    out.append(ty_text.as_str());
    Ok(out)
}

/// Renders a constraint on an associated type: `name : bounds`.
pub fn constraint_to_string(name: &str, bounds: &Vec<Bound>) -> (r: Result<String, GenError>)
    ensures
        renders(r, bounds_error(*bounds), name@ + " : "@ + bounds_text(*bounds)),
    decreases bounds, 2int,
{
    let bounds_text = type_param_bounds_to_string(bounds)?;
    let mut out = String::from_str(name);
    out.append(" : ");
    out.append(bounds_text.as_str());
    Ok(out)
}

/// Renders a trait bound by its path. A bound with a modifier, or one that
/// introduces lifetimes, has no rendering.
pub fn trait_bound_to_string(tb: &TraitBound) -> (r: Result<String, GenError>)
    ensures
        renders(r, trait_bound_error(*tb), path_text(tb.path)),
    decreases tb,
{
    if tb.modifier {
        return Err(GenError::Unimplemented(Form::TraitBoundModifier));
    }
    if tb.higher_ranked {
        return Err(GenError::Unimplemented(Form::HigherRankedLifetimes));
    }
    path_to_string(&tb.path)
}

/// Renders the bounds on a type, joined by ` + `.
pub fn type_param_bounds_to_string(bounds: &Vec<Bound>) -> (r: Result<String, GenError>)
    ensures
        renders(r, bounds_error(*bounds), bounds_text(*bounds)),
    decreases bounds, 1int,
{
    let mut parts: Vec<String> = Vec::new();
    let mut i: usize = 0;
    while i < bounds.len()
        invariant
            i <= bounds.len(),
            parts@.len() == i,
            forall|j: int|
                0 <= j < i ==> bound_error(#[trigger] bounds@[j]) is None && parts@[j]@
                    == bound_text(bounds@[j]),
        decreases bounds.len() - i,
    {
        match &bounds[i] {
            Bound::Trait(tb) => {
                match trait_bound_to_string(tb) {
                    Ok(s) => {
                        parts.push(s);
                    },
                    Err(e) => {
                        proof {
                            lemma_first_some_at(bound_errors(*bounds), i as int);
                        }
                        return Err(e);
                    },
                }
            },
            Bound::Lifetime(name) => {
                parts.push(lifetime_to_string(name.as_str()));
            },
        }
        i = i + 1;
    }
    proof {
        lemma_first_some_none(bound_errors(*bounds));
        assert(views(parts@) =~= bound_texts(*bounds));
    }
    Ok(join_strings(&parts, " + "))
}

} // verus!
