//! Rendering of generic parameter lists and where-clauses.

use crate::ast::{renders, Form, GenError, GenericParam, WhereClause, WherePredicate};
use crate::printer::{
    bounds_error, bounds_text, lifetime_bounds_text, lifetime_bounds_to_string, lifetime_text,
    lifetime_to_string, or_else, type_error, type_param_bounds_to_string, type_text,
    type_to_string,
};
use crate::text::{first_some, join, join_strings, lemma_first_some_at, lemma_first_some_none, views};
use vstd::prelude::*;
use vstd::string::StringExecFns;

verus! {

/// A const parameter is the one kind of parameter that cannot be rendered.
/// Bounds are looked at only when they are rendered.
pub open spec fn param_error(param: GenericParam, with_constraints: bool) -> Option<GenError> {
    match param {
        GenericParam::Type { name, bounds } => if bounds@.len() == 0 || !with_constraints {
            None
        } else {
            bounds_error(bounds)
        },
        GenericParam::Lifetime { .. } => None,
        GenericParam::Const => Some(GenError::UnsupportedGenericConstParam),
    }
}

/// A parameter: its name, followed by ` : ` and its bounds where bounds are
/// asked for and there are any.
pub open spec fn param_text(param: GenericParam, with_constraints: bool) -> Seq<char> {
    match param {
        GenericParam::Type { name, bounds } => if bounds@.len() == 0 || !with_constraints {
            name@
        } else {
            name@ + " : "@ + bounds_text(bounds)
        },
        GenericParam::Lifetime { name, outlives } => if outlives@.len() == 0 || !with_constraints {
            lifetime_text(name@)
        } else {
            lifetime_text(name@) + " : "@ + lifetime_bounds_text(outlives@)
        },
        GenericParam::Const => Seq::empty(),
    }
}

/// For each parameter, why it cannot be rendered, if it cannot.
pub open spec fn param_errors(params: Seq<GenericParam>, with_constraints: bool) -> Seq<
    Option<GenError>,
> {
    Seq::new(params.len(), |i: int| param_error(params[i], with_constraints))
}

/// The texts of the parameters, in order.
pub open spec fn param_texts(params: Seq<GenericParam>, with_constraints: bool) -> Seq<Seq<char>> {
    Seq::new(params.len(), |i: int| param_text(params[i], with_constraints))
}

/// The first parameter of a list that cannot be rendered.
pub open spec fn params_error(params: Seq<GenericParam>, with_constraints: bool) -> Option<
    GenError,
> {
    first_some(param_errors(params, with_constraints))
}

/// A parameter list: `<p1, p2, …>`, or nothing at all for no parameters.
pub open spec fn params_text(params: Seq<GenericParam>, with_constraints: bool) -> Seq<char> {
    if params.len() == 0 {
        Seq::empty()
    } else {
        "<"@ + join(param_texts(params, with_constraints), ", "@) + ">"@
    }
}

/// The first construct in a predicate that cannot be rendered. A bound on
/// a type that introduces lifetimes is refused before the type is looked
/// at; then the type is read before its bounds, and the left side of an
/// equality before the right.
pub open spec fn predicate_error(wp: WherePredicate) -> Option<GenError> {
    match wp {
        WherePredicate::Type { higher_ranked, bounded, bounds } => if higher_ranked {
            Some(GenError::Unimplemented(Form::HigherRankedLifetimes))
        } else {
            or_else(type_error(bounded), bounds_error(bounds))
        },
        WherePredicate::Lifetime { .. } => None,
        WherePredicate::Eq { lhs, rhs } => or_else(type_error(lhs), type_error(rhs)),
    }
}

/// A predicate: `lhs : bounds` for a bound on a type or a lifetime, and
/// `lhs = rhs` for an equality. A type without bounds stands alone.
pub open spec fn predicate_text(wp: WherePredicate) -> Seq<char> {
    match wp {
        WherePredicate::Type { higher_ranked, bounded, bounds } => if bounds@.len() == 0 {
            type_text(bounded)
        } else {
            type_text(bounded) + " : "@ + bounds_text(bounds)
        },
        WherePredicate::Lifetime { lifetime, outlives } => lifetime_text(lifetime@) + " : "@
            + lifetime_bounds_text(outlives@),
        WherePredicate::Eq { lhs, rhs } => type_text(lhs) + " = "@ + type_text(rhs),
    }
}

/// For each predicate, why it cannot be rendered, if it cannot.
pub open spec fn predicate_errors(preds: Seq<WherePredicate>) -> Seq<Option<GenError>> {
    Seq::new(preds.len(), |i: int| predicate_error(preds[i]))
}

/// The line of a predicate in a where-clause.
pub open spec fn predicate_line(wp: WherePredicate) -> Seq<char> {
    "    "@ + predicate_text(wp) + ",\n"@
}

/// The lines of the predicates, in order.
pub open spec fn predicate_lines(preds: Seq<WherePredicate>) -> Seq<Seq<char>> {
    Seq::new(preds.len(), |i: int| predicate_line(preds[i]))
}

/// The first construct in a where-clause that cannot be rendered.
pub open spec fn where_clause_error(wc: WhereClause) -> Option<GenError> {
    first_some(predicate_errors(wc.predicates@))
}

/// A where-clause: `where` on a line of its own, then one line for each
/// predicate.
pub open spec fn where_clause_text(wc: WhereClause) -> Seq<char> {
    "\nwhere\n"@ + join(predicate_lines(wc.predicates@), ""@)
}

/// The first construct in the where-clause that cannot be rendered, where
/// there is a where-clause.
pub open spec fn opt_where_clause_error(wc: Option<WhereClause>) -> Option<GenError> {
    match wc {
        Some(wc) => where_clause_error(wc),
        None => None,
    }
}

/// A where-clause if there is one, and no text if there is none.
pub open spec fn opt_where_clause_text(wc: Option<WhereClause>) -> Seq<char> {
    match wc {
        Some(wc) => where_clause_text(wc),
        None => Seq::empty(),
    }
}

/// Renders one generic parameter, with its bounds if `with_constraints`.
pub fn generic_param_with_opt_constraints_to_string(
    param: &GenericParam,
    with_constraints: bool,
) -> (r: Result<String, GenError>)
    ensures
        renders(r, param_error(*param, with_constraints), param_text(*param, with_constraints)),
{
    match param {
        GenericParam::Type { name, bounds } => {
            let mut ident = name.clone();
            if bounds.len() == 0 || !with_constraints {
                Ok(ident)
            } else {
                let bounds_text = type_param_bounds_to_string(bounds)?;
                ident.append(" : ");
                ident.append(bounds_text.as_str());
                Ok(ident)
            }
        },
        GenericParam::Lifetime { name, outlives } => {
            let mut ident = lifetime_to_string(name.as_str());
            if outlives.len() == 0 || !with_constraints {
                Ok(ident)
            } else {
                ident.append(" : ");
                ident.append(lifetime_bounds_to_string(outlives).as_str());
                Ok(ident)
            }
        },
        GenericParam::Const => Err(GenError::UnsupportedGenericConstParam),
    }
}

/// Renders a list of generic parameters, as `<'a, T1 : 'a, T2 : Clone>` with
/// constraints and as `<'a, T1, T2>` without.
pub fn generic_params_with_opt_constraints_to_string(
    params: &Vec<GenericParam>,
    with_constraints: bool,
) -> (r: Result<String, GenError>)
    ensures
        renders(
            r,
            params_error(params@, with_constraints),
            params_text(params@, with_constraints),
        ),
{
    let mut gens: Vec<String> = Vec::new();
    let mut i: usize = 0;
    while i < params.len()
        invariant
            i <= params.len(),
            gens@.len() == i,
            forall|j: int|
                0 <= j < i ==> param_error(#[trigger] params@[j], with_constraints) is None
                    && gens@[j]@ == param_text(params@[j], with_constraints),
        decreases params.len() - i,
    {
        match generic_param_with_opt_constraints_to_string(&params[i], with_constraints) {
            Ok(s) => {
                gens.push(s);
            },
            Err(e) => {
                proof {
                    lemma_first_some_at(param_errors(params@, with_constraints), i as int);
                }
                return Err(e);
            },
        }
        i = i + 1;
    }
    proof {
        lemma_first_some_none(param_errors(params@, with_constraints));
        assert(views(gens@) =~= param_texts(params@, with_constraints));
    }
    if gens.len() == 0 {
        Ok(String::new())
    } else {
        let mut out = String::from_str("<");
        out.append(join_strings(&gens, ", ").as_str());
        out.append(">");
        Ok(out)
    }
}

/// Renders a list of generic parameters with their bounds.
pub fn generic_params_to_string(params: &Vec<GenericParam>) -> (r: Result<String, GenError>)
    ensures
        renders(r, params_error(params@, true), params_text(params@, true)),
{
    generic_params_with_opt_constraints_to_string(params, true)
}

/// Renders a list of generic parameters by their names alone.
pub fn generic_params_without_constraints_to_string(params: &Vec<GenericParam>) -> (r: Result<
    String,
    GenError,
>)
    ensures
        renders(r, params_error(params@, false), params_text(params@, false)),
{
    generic_params_with_opt_constraints_to_string(params, false)
}

/// Renders one predicate of a where-clause.
pub fn where_predicate_to_string(wp: &WherePredicate) -> (r: Result<String, GenError>)
    ensures
        renders(r, predicate_error(*wp), predicate_text(*wp)),
{
    match wp {
        WherePredicate::Type { higher_ranked, bounded, bounds } => {
            if *higher_ranked {
                return Err(GenError::Unimplemented(Form::HigherRankedLifetimes));
            }
            let mut ty = type_to_string(bounded)?;
            if bounds.len() == 0 {
                Ok(ty)
            } else {
                let bounds_text = type_param_bounds_to_string(bounds)?;
                ty.append(" : ");
                ty.append(bounds_text.as_str());
                Ok(ty)
            }
        },
        WherePredicate::Lifetime { lifetime, outlives } => {
            let mut out = lifetime_to_string(lifetime.as_str());
            out.append(" : ");
            out.append(lifetime_bounds_to_string(outlives).as_str());
            Ok(out)
        },
        WherePredicate::Eq { lhs, rhs } => {
            let mut out = type_to_string(lhs)?;
            let rhs_text = type_to_string(rhs)?;
            out.append(" = ");
            out.append(rhs_text.as_str());
            Ok(out)
        },
    }
}

/// Renders a where-clause.
pub fn where_clause_to_string(wc: &WhereClause) -> (r: Result<String, GenError>)
    ensures
        renders(r, where_clause_error(*wc), where_clause_text(*wc)),
{
    let mut preds: Vec<String> = Vec::new();
    let mut i: usize = 0;
    while i < wc.predicates.len()
        invariant
            i <= wc.predicates.len(),
            preds@.len() == i,
            forall|j: int|
                0 <= j < i ==> predicate_error(#[trigger] wc.predicates@[j]) is None && preds@[j]@
                    == predicate_line(wc.predicates@[j]),
        decreases wc.predicates.len() - i,
    {
        match where_predicate_to_string(&wc.predicates[i]) {
            Ok(p) => {
                let mut line = String::from_str("    ");
                line.append(p.as_str());
                line.append(",\n");
                preds.push(line);
            },
            Err(e) => {
                proof {
                    lemma_first_some_at(predicate_errors(wc.predicates@), i as int);
                }
                return Err(e);
            },
        }
        i = i + 1;
    }
    proof {
        lemma_first_some_none(predicate_errors(wc.predicates@));
        assert(views(preds@) =~= predicate_lines(wc.predicates@));
    }
    let mut out = String::from_str("\nwhere\n");
    out.append(join_strings(&preds, "").as_str());
    Ok(out)
}

/// Renders a where-clause if there is one.
pub fn opt_where_clause_to_string(wc: &Option<WhereClause>) -> (r: Result<String, GenError>)
    ensures
        renders(r, opt_where_clause_error(*wc), opt_where_clause_text(*wc)),
{
    match wc {
        None => Ok(String::new()),
        Some(wc) => where_clause_to_string(wc),
    }
}

} // verus!
