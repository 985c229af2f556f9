use charon_macros::ast::{
    Bound, Form, GenError, GenericParam, Path, PathArguments, PathSegment, TraitBound, TypeExpr,
    TypeForm, TypePath, WhereClause, WherePredicate,
};
use charon_macros::generics::{
    generic_param_with_opt_constraints_to_string, generic_params_to_string,
    generic_params_with_opt_constraints_to_string, generic_params_without_constraints_to_string,
    opt_where_clause_to_string, where_clause_to_string, where_predicate_to_string,
};

fn path(name: &str) -> Path {
    Path { segments: vec![PathSegment { ident: name.to_string(), arguments: PathArguments::Absent }] }
}

fn named(name: &str) -> TypeExpr {
    TypeExpr::Path(TypePath { qualified_self: false, path: path(name) })
}

fn trait_bound(name: &str) -> Bound {
    Bound::Trait(TraitBound { modifier: false, higher_ranked: false, path: path(name) })
}

fn type_param(name: &str, bounds: Vec<Bound>) -> GenericParam {
    GenericParam::Type { name: name.to_string(), bounds }
}

fn lifetime_param(name: &str, outlives: &[&str]) -> GenericParam {
    GenericParam::Lifetime {
        name: name.to_string(),
        outlives: outlives.iter().map(|s| s.to_string()).collect(),
    }
}

fn sample_params() -> Vec<GenericParam> {
    vec![
        lifetime_param("a", &[]),
        type_param("T1", vec![Bound::Lifetime("a".to_string())]),
        type_param("T2", vec![trait_bound("Clone")]),
    ]
}

#[test]
fn type_parameter_with_and_without_bounds() {
    let p = type_param("T", vec![trait_bound("Clone"), trait_bound("Eq")]);
    assert_eq!(generic_param_with_opt_constraints_to_string(&p, true), Ok("T : Clone + Eq".to_string()));
    assert_eq!(generic_param_with_opt_constraints_to_string(&p, false), Ok("T".to_string()));
    let bare = type_param("T", vec![]);
    assert_eq!(generic_param_with_opt_constraints_to_string(&bare, true), Ok("T".to_string()));
    assert_eq!(generic_param_with_opt_constraints_to_string(&bare, false), Ok("T".to_string()));
}

#[test]
fn lifetime_parameter_with_and_without_bounds() {
    let p = lifetime_param("a", &["b", "c"]);
    assert_eq!(generic_param_with_opt_constraints_to_string(&p, true), Ok("'a : 'b + 'c".to_string()));
    assert_eq!(generic_param_with_opt_constraints_to_string(&p, false), Ok("'a".to_string()));
    let bare = lifetime_param("a", &[]);
    assert_eq!(generic_param_with_opt_constraints_to_string(&bare, true), Ok("'a".to_string()));
}

#[test]
fn const_parameter_fails() {
    assert_eq!(
        generic_param_with_opt_constraints_to_string(&GenericParam::Const, true),
        Err(GenError::UnsupportedGenericConstParam)
    );
    assert_eq!(
        generic_param_with_opt_constraints_to_string(&GenericParam::Const, false),
        Err(GenError::UnsupportedGenericConstParam)
    );
    let params = vec![type_param("T", vec![]), GenericParam::Const];
    assert_eq!(generic_params_to_string(&params), Err(GenError::UnsupportedGenericConstParam));
    assert_eq!(
        generic_params_without_constraints_to_string(&params),
        Err(GenError::UnsupportedGenericConstParam)
    );
}

#[test]
fn parameter_list_with_constraints() {
    assert_eq!(generic_params_to_string(&sample_params()), Ok("<'a, T1 : 'a, T2 : Clone>".to_string()));
    assert_eq!(
        generic_params_with_opt_constraints_to_string(&sample_params(), true),
        Ok("<'a, T1 : 'a, T2 : Clone>".to_string())
    );
}

#[test]
fn parameter_list_without_constraints() {
    assert_eq!(
        generic_params_without_constraints_to_string(&sample_params()),
        Ok("<'a, T1, T2>".to_string())
    );
    assert_eq!(
        generic_params_with_opt_constraints_to_string(&sample_params(), false),
        Ok("<'a, T1, T2>".to_string())
    );
}

#[test]
fn no_parameters_give_no_text() {
    assert_eq!(generic_params_to_string(&vec![]), Ok("".to_string()));
    assert_eq!(generic_params_without_constraints_to_string(&vec![]), Ok("".to_string()));
}

#[test]
fn bounds_that_are_not_rendered_are_not_looked_at() {
    let bad = Bound::Trait(TraitBound { modifier: true, higher_ranked: false, path: path("Sized") });
    let params = vec![type_param("T", vec![bad])];
    assert_eq!(generic_params_to_string(&params), Err(GenError::Unimplemented(Form::TraitBoundModifier)));
    assert_eq!(generic_params_without_constraints_to_string(&params), Ok("<T>".to_string()));
}

#[test]
fn type_predicate() {
    let wp = WherePredicate::Type {
        higher_ranked: false,
        bounded: named("T"),
        bounds: vec![trait_bound("Clone"), Bound::Lifetime("a".to_string())],
    };
    assert_eq!(where_predicate_to_string(&wp), Ok("T : Clone + 'a".to_string()));
    let bare = WherePredicate::Type { higher_ranked: false, bounded: named("T"), bounds: vec![] };
    assert_eq!(where_predicate_to_string(&bare), Ok("T".to_string()));
}

#[test]
fn type_predicate_with_lifetimes_fails_before_anything_else() {
    let wp = WherePredicate::Type {
        higher_ranked: true,
        bounded: TypeExpr::Unsupported(TypeForm::Never),
        bounds: vec![],
    };
    assert_eq!(where_predicate_to_string(&wp), Err(GenError::Unimplemented(Form::HigherRankedLifetimes)));
}

#[test]
fn type_predicate_reports_the_type_before_the_bounds() {
    let bad = Bound::Trait(TraitBound { modifier: true, higher_ranked: false, path: path("Sized") });
    let wp = WherePredicate::Type {
        higher_ranked: false,
        bounded: TypeExpr::Unsupported(TypeForm::Infer),
        bounds: vec![bad],
    };
    assert_eq!(where_predicate_to_string(&wp), Err(GenError::UnsupportedTypeForm(TypeForm::Infer)));
    let bad = Bound::Trait(TraitBound { modifier: true, higher_ranked: false, path: path("Sized") });
    let wp = WherePredicate::Type { higher_ranked: false, bounded: named("T"), bounds: vec![bad] };
    assert_eq!(where_predicate_to_string(&wp), Err(GenError::Unimplemented(Form::TraitBoundModifier)));
}

#[test]
fn lifetime_predicate() {
    let wp = WherePredicate::Lifetime {
        lifetime: "a".to_string(),
        outlives: vec!["b".to_string(), "c".to_string()],
    };
    assert_eq!(where_predicate_to_string(&wp), Ok("'a : 'b + 'c".to_string()));
    let bare = WherePredicate::Lifetime { lifetime: "a".to_string(), outlives: vec![] };
    assert_eq!(where_predicate_to_string(&bare), Ok("'a : ".to_string()));
}

#[test]
fn equality_predicate() {
    let wp = WherePredicate::Eq { lhs: named("T"), rhs: named("U") };
    assert_eq!(where_predicate_to_string(&wp), Ok("T = U".to_string()));
    let wp = WherePredicate::Eq {
        lhs: TypeExpr::Unsupported(TypeForm::Paren),
        rhs: TypeExpr::Unsupported(TypeForm::Group),
    };
    assert_eq!(where_predicate_to_string(&wp), Err(GenError::UnsupportedTypeForm(TypeForm::Paren)));
    let wp = WherePredicate::Eq { lhs: named("T"), rhs: TypeExpr::Unsupported(TypeForm::Group) };
    assert_eq!(where_predicate_to_string(&wp), Err(GenError::UnsupportedTypeForm(TypeForm::Group)));
}

#[test]
fn where_clause_has_one_line_for_each_predicate() {
    let wc = WhereClause {
        predicates: vec![
            WherePredicate::Type {
                higher_ranked: false,
                bounded: named("T"),
                bounds: vec![trait_bound("Clone")],
            },
            WherePredicate::Lifetime { lifetime: "a".to_string(), outlives: vec!["b".to_string()] },
        ],
    };
    assert_eq!(
        where_clause_to_string(&wc),
        Ok("\nwhere\n    T : Clone,\n    'a : 'b,\n".to_string())
    );
}

#[test]
fn where_clause_without_predicates() {
    let wc = WhereClause { predicates: vec![] };
    assert_eq!(where_clause_to_string(&wc), Ok("\nwhere\n".to_string()));
}

#[test]
fn where_clause_reports_its_first_failure() {
    let wc = WhereClause {
        predicates: vec![
            WherePredicate::Eq { lhs: named("T"), rhs: named("U") },
            WherePredicate::Type {
                higher_ranked: true,
                bounded: named("T"),
                bounds: vec![],
            },
            WherePredicate::Eq { lhs: TypeExpr::Unsupported(TypeForm::Never), rhs: named("U") },
        ],
    };
    assert_eq!(where_clause_to_string(&wc), Err(GenError::Unimplemented(Form::HigherRankedLifetimes)));
}

#[test]
fn absent_where_clause_gives_no_text() {
    assert_eq!(opt_where_clause_to_string(&None), Ok("".to_string()));
    let wc = WhereClause {
        predicates: vec![WherePredicate::Eq { lhs: named("T"), rhs: named("U") }],
    };
    assert_eq!(opt_where_clause_to_string(&Some(wc)), Ok("\nwhere\n    T = U,\n".to_string()));
}
