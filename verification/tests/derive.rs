use charon_macros::ast::{
    AdtDescriptor, Bound, Data, DeclKind, Fields, Form, GenError, GenericArg, GenericParam,
    NamedField, Path, PathArguments, PathSegment, TraitBound, TypeExpr, TypeForm, TypePath,
    VariantDescriptor, WhereClause, WherePredicate,
};
use charon_macros::derive::{
    as_getter_method_to_string, derive_enum_as_getters, derive_enum_is_a,
    derive_enum_variant_method, derive_variant_index_arity, derive_variant_name,
    is_a_method_to_string, method_to_string, variant_method_arms_to_string, EnumMethodKind,
};
use charon_macros::patterns::MatchPattern;

fn path(name: &str) -> Path {
    Path { segments: vec![PathSegment { ident: name.to_string(), arguments: PathArguments::Absent }] }
}

fn named(name: &str) -> TypeExpr {
    TypeExpr::Path(TypePath { qualified_self: false, path: path(name) })
}

fn generic(name: &str, args: Vec<TypeExpr>) -> TypeExpr {
    TypeExpr::Path(TypePath {
        qualified_self: false,
        path: Path {
            segments: vec![PathSegment {
                ident: name.to_string(),
                arguments: PathArguments::AngleBracketed(
                    args.into_iter().map(GenericArg::Type).collect(),
                ),
            }],
        },
    })
}

fn type_param(name: &str, bounds: Vec<Bound>) -> GenericParam {
    GenericParam::Type { name: name.to_string(), bounds }
}

fn trait_bound(name: &str) -> Bound {
    Bound::Trait(TraitBound { modifier: false, higher_ranked: false, path: path(name) })
}

fn unit(name: &str) -> VariantDescriptor {
    VariantDescriptor { name: name.to_string(), fields: Fields::Unit }
}

fn tuple(name: &str, types: Vec<TypeExpr>) -> VariantDescriptor {
    VariantDescriptor { name: name.to_string(), fields: Fields::Unnamed(types) }
}

fn record(name: &str, fields: Vec<(&str, TypeExpr)>) -> VariantDescriptor {
    VariantDescriptor {
        name: name.to_string(),
        fields: Fields::Named(
            fields.into_iter().map(|(n, ty)| NamedField { name: n.to_string(), ty }).collect(),
        ),
    }
}

fn enumeration(name: &str, params: Vec<GenericParam>, variants: Vec<VariantDescriptor>) -> AdtDescriptor {
    AdtDescriptor { name: name.to_string(), params, where_clause: None, data: Data::Enum(variants) }
}

/// `enum List<T> { Nil, Cons(T, List<T>) }`
fn list() -> AdtDescriptor {
    enumeration(
        "List",
        vec![type_param("T", vec![])],
        vec![unit("Nil"), tuple("Cons", vec![named("T"), generic("List", vec![named("T")])])],
    )
}

/// `enum Boxed<T> { Nil, Cons(T, Box<Boxed<T>>) }`, with the methods that the
/// four derivations give for it, as code.
#[allow(dead_code)]
enum Boxed<T> {
    Nil,
    Cons(T, Box<Boxed<T>>),
}

fn boxed() -> AdtDescriptor {
    enumeration(
        "Boxed",
        vec![type_param("T", vec![])],
        vec![
            unit("Nil"),
            tuple("Cons", vec![named("T"), generic("Box", vec![generic("Boxed", vec![named("T")])])]),
        ],
    )
}

const BOXED_VARIANT_NAME: &str = "impl<T> Boxed<T> {
    pub fn variant_name(&self) -> &'static str {
        match self {
            Boxed::Nil => { \"Nil\" },
            Boxed::Cons(_, _) => { \"Cons\" },
        }
    }
}";

impl<T> Boxed<T> {
    pub fn variant_name(&self) -> &'static str {
        match self {
            Boxed::Nil => { "Nil" },
            Boxed::Cons(_, _) => { "Cons" },
        }
    }
}

const BOXED_VARIANT_INDEX_ARITY: &str = "impl<T> Boxed<T> {
    pub fn variant_index_arity(&self) -> (u32, usize) {
        match self {
            Boxed::Nil => { (0, 0) },
            Boxed::Cons(_, _) => { (1, 2) },
        }
    }
}";

impl<T> Boxed<T> {
    pub fn variant_index_arity(&self) -> (u32, usize) {
        match self {
            Boxed::Nil => { (0, 0) },
            Boxed::Cons(_, _) => { (1, 2) },
        }
    }
}

const BOXED_IS_A: &str = "impl<T> Boxed<T> {
    pub fn is_nil(&self) -> bool {
        match self {
            Boxed::Nil => true,
            _ => false,
        }
    }

    pub fn is_cons(&self) -> bool {
        match self {
            Boxed::Cons(_, _) => true,
            _ => false,
        }
    }
}";

impl<T> Boxed<T> {
    pub fn is_nil(&self) -> bool {
        match self {
            Boxed::Nil => true,
            _ => false,
        }
    }

    pub fn is_cons(&self) -> bool {
        match self {
            Boxed::Cons(_, _) => true,
            _ => false,
        }
    }
}

const BOXED_AS_GETTERS: &str = "impl<T> Boxed<T> {
    pub fn as_nil(&self) -> () {
        match self {
            Boxed::Nil => (),
            _ => unreachable!(\"Boxed::as_nil: Not the proper variant\"),
        }
    }

    pub fn as_cons(&self) -> (&(T), &(Box<Boxed<T>>)) {
        match self {
            Boxed::Cons(x0, x1) => (x0, x1),
            _ => unreachable!(\"Boxed::as_cons: Not the proper variant\"),
        }
    }
}";

#[allow(unused_parens)]
impl<T> Boxed<T> {
    pub fn as_nil(&self) -> () {
        match self {
            Boxed::Nil => (),
            _ => unreachable!("Boxed::as_nil: Not the proper variant"),
        }
    }

    pub fn as_cons(&self) -> (&(T), &(Box<Boxed<T>>)) {
        match self {
            Boxed::Cons(x0, x1) => (x0, x1),
            _ => unreachable!("Boxed::as_cons: Not the proper variant"),
        }
    }
}

#[test]
fn the_methods_above_are_what_the_derivations_give() {
    assert_eq!(derive_variant_name(&boxed()).unwrap(), BOXED_VARIANT_NAME);
    assert_eq!(derive_variant_index_arity(&boxed()).unwrap(), BOXED_VARIANT_INDEX_ARITY);
    assert_eq!(derive_enum_is_a(&boxed()).unwrap(), BOXED_IS_A);
    assert_eq!(derive_enum_as_getters(&boxed()).unwrap(), BOXED_AS_GETTERS);
}

#[test]
fn derived_variant_name_names_the_variant() {
    let nil: Boxed<u8> = Boxed::Nil;
    let cons = Boxed::Cons(1u8, Box::new(Boxed::Nil));
    assert_eq!(nil.variant_name(), "Nil");
    assert_eq!(cons.variant_name(), "Cons");
}

#[test]
fn derived_index_and_arity_follow_the_declaration() {
    let nil: Boxed<u8> = Boxed::Nil;
    let cons = Boxed::Cons(1u8, Box::new(Boxed::Nil));
    assert_eq!(nil.variant_index_arity(), (0, 0));
    assert_eq!(cons.variant_index_arity(), (1, 2));
}

#[test]
fn exactly_one_derived_predicate_holds() {
    let nil: Boxed<u8> = Boxed::Nil;
    let cons = Boxed::Cons(1u8, Box::new(Boxed::Nil));
    assert!(nil.is_nil());
    assert!(!nil.is_cons());
    assert!(cons.is_cons());
    assert!(!cons.is_nil());
}

#[test]
fn derived_accessor_borrows_the_fields_in_order() {
    let cons = Boxed::Cons(7u8, Box::new(Boxed::Cons(8u8, Box::new(Boxed::Nil))));
    let (head, rest) = cons.as_cons();
    assert_eq!(*head, 7);
    assert!(rest.is_cons());
    let (next, end) = rest.as_cons();
    assert_eq!(*next, 8);
    assert!(end.is_nil());
    assert_eq!(end.as_nil(), ());
}

#[test]
fn variant_name_of_a_list() {
    assert_eq!(
        derive_variant_name(&list()),
        Ok("impl<T> List<T> {\n    pub fn variant_name(&self) -> &'static str {\n        match self {\n            List::Nil => { \"Nil\" },\n            List::Cons(_, _) => { \"Cons\" },\n        }\n    }\n}".to_string())
    );
}

#[test]
fn variant_index_arity_of_a_list() {
    assert_eq!(
        derive_variant_index_arity(&list()),
        Ok("impl<T> List<T> {\n    pub fn variant_index_arity(&self) -> (u32, usize) {\n        match self {\n            List::Nil => { (0, 0) },\n            List::Cons(_, _) => { (1, 2) },\n        }\n    }\n}".to_string())
    );
}

#[test]
fn is_a_predicates_of_a_list() {
    assert_eq!(
        derive_enum_is_a(&list()),
        Ok("impl<T> List<T> {\n    pub fn is_nil(&self) -> bool {\n        match self {\n            List::Nil => true,\n            _ => false,\n        }\n    }\n\n    pub fn is_cons(&self) -> bool {\n        match self {\n            List::Cons(_, _) => true,\n            _ => false,\n        }\n    }\n}".to_string())
    );
}

#[test]
fn as_getters_of_a_list() {
    assert_eq!(
        derive_enum_as_getters(&list()),
        Ok("impl<T> List<T> {\n    pub fn as_nil(&self) -> () {\n        match self {\n            List::Nil => (),\n            _ => unreachable!(\"List::as_nil: Not the proper variant\"),\n        }\n    }\n\n    pub fn as_cons(&self) -> (&(T), &(List<T>)) {\n        match self {\n            List::Cons(x0, x1) => (x0, x1),\n            _ => unreachable!(\"List::as_cons: Not the proper variant\"),\n        }\n    }\n}".to_string())
    );
}

#[test]
fn a_single_variant_has_no_otherwise_arm() {
    let adt = enumeration("Wrapper", vec![], vec![tuple("Only", vec![named("u32")])]);
    assert_eq!(
        derive_enum_is_a(&adt),
        Ok("impl Wrapper {\n    pub fn is_only(&self) -> bool {\n        match self {\n            Wrapper::Only(_) => true,\n        }\n    }\n}".to_string())
    );
    assert_eq!(
        derive_enum_as_getters(&adt),
        Ok("impl Wrapper {\n    pub fn as_only(&self) -> (&(u32)) {\n        match self {\n            Wrapper::Only(x0) => (x0),\n        }\n    }\n}".to_string())
    );
}

#[test]
fn an_enumeration_without_variants_gives_no_text() {
    let adt = enumeration("Void", vec![type_param("T", vec![trait_bound("Clone")])], vec![]);
    assert_eq!(derive_variant_name(&adt), Ok("".to_string()));
    assert_eq!(derive_variant_index_arity(&adt), Ok("".to_string()));
    assert_eq!(derive_enum_is_a(&adt), Ok("".to_string()));
    assert_eq!(derive_enum_as_getters(&adt), Ok("".to_string()));
}

#[test]
fn bounds_stand_after_impl_and_not_after_the_name() {
    let adt = AdtDescriptor {
        name: "Tree".to_string(),
        params: vec![
            GenericParam::Lifetime { name: "a".to_string(), outlives: vec![] },
            type_param("K", vec![trait_bound("Ord"), Bound::Lifetime("a".to_string())]),
            type_param("V", vec![]),
        ],
        where_clause: Some(WhereClause {
            predicates: vec![WherePredicate::Type {
                higher_ranked: false,
                bounded: named("V"),
                bounds: vec![trait_bound("Clone")],
            }],
        }),
        data: Data::Enum(vec![
            unit("Leaf"),
            record(
                "Node",
                vec![
                    ("key", TypeExpr::Reference(Some("a".to_string()), false, Box::new(named("K")))),
                    ("value", named("V")),
                ],
            ),
        ]),
    };
    assert_eq!(
        derive_variant_index_arity(&adt),
        Ok("impl<'a, K : Ord + 'a, V> Tree<'a, K, V>\nwhere\n    V : Clone,\n {\n    pub fn variant_index_arity(&self) -> (u32, usize) {\n        match self {\n            Tree::Leaf => { (0, 0) },\n            Tree::Node{ key:_, value:_ } => { (1, 2) },\n        }\n    }\n}".to_string())
    );
    assert_eq!(
        derive_enum_as_getters(&adt),
        Ok("impl<'a, K : Ord + 'a, V> Tree<'a, K, V>\nwhere\n    V : Clone,\n {\n    pub fn as_leaf(&self) -> () {\n        match self {\n            Tree::Leaf => (),\n            _ => unreachable!(\"Tree::as_leaf: Not the proper variant\"),\n        }\n    }\n\n    pub fn as_node(&self) -> (&(&'a K), &(V)) {\n        match self {\n            Tree::Node{ key:x0, value:x1 } => (x0, x1),\n            _ => unreachable!(\"Tree::as_node: Not the proper variant\"),\n        }\n    }\n}".to_string())
    );
}

#[test]
fn method_names_are_in_snake_case() {
    let adt = enumeration("Value", vec![], vec![unit("ConstantValue"), unit("I32"), unit("VARIANT")]);
    let text = derive_enum_is_a(&adt).unwrap();
    assert!(text.contains("    pub fn is_constant_value(&self) -> bool {\n"));
    assert!(text.contains("    pub fn is_i32(&self) -> bool {\n"));
    assert!(text.contains("    pub fn is_variant(&self) -> bool {\n"));
    let text = derive_enum_as_getters(&adt).unwrap();
    assert!(text.contains("    pub fn as_constant_value(&self) -> () {\n"));
    assert!(text.contains("_ => unreachable!(\"Value::as_i32: Not the proper variant\"),"));
}

#[test]
fn indices_go_on_past_nine() {
    let variants: Vec<VariantDescriptor> =
        (0..12).map(|i| tuple(&format!("V{}", i), (0..i).map(|_| named("u8")).collect())).collect();
    let text = derive_variant_index_arity(&enumeration("Many", vec![], variants)).unwrap();
    assert!(text.contains("            Many::V0() => { (0, 0) },\n"));
    assert!(text.contains("            Many::V9(_, _, _, _, _, _, _, _, _) => { (9, 9) },\n"));
    assert!(text.contains("            Many::V11(_, _, _, _, _, _, _, _, _, _, _) => { (11, 11) },\n"));
    assert_eq!(text.matches(" => { (").count(), 12);
}

#[test]
fn derivations_refuse_structs_and_unions() {
    let structure =
        AdtDescriptor { name: "S".to_string(), params: vec![], where_clause: None, data: Data::Struct };
    let union =
        AdtDescriptor { name: "U".to_string(), params: vec![], where_clause: None, data: Data::Union };
    let for_struct = Err(GenError::WrongDeclarationKind(DeclKind::Struct));
    let for_union = Err(GenError::WrongDeclarationKind(DeclKind::Union));
    assert_eq!(derive_variant_name(&structure), for_struct);
    assert_eq!(derive_variant_index_arity(&structure), for_struct);
    assert_eq!(derive_enum_is_a(&structure), for_struct);
    assert_eq!(derive_enum_as_getters(&structure), for_struct);
    assert_eq!(derive_variant_name(&union), for_union);
    assert_eq!(derive_variant_index_arity(&union), for_union);
    assert_eq!(derive_enum_is_a(&union), for_union);
    assert_eq!(derive_enum_as_getters(&union), for_union);
}

#[test]
fn the_head_of_the_impl_block_is_rendered_before_the_kind_is_looked_at() {
    let adt = AdtDescriptor {
        name: "S".to_string(),
        params: vec![GenericParam::Const],
        where_clause: None,
        data: Data::Struct,
    };
    assert_eq!(derive_variant_name(&adt), Err(GenError::UnsupportedGenericConstParam));
    let adt = AdtDescriptor {
        name: "S".to_string(),
        params: vec![],
        where_clause: Some(WhereClause {
            predicates: vec![WherePredicate::Type {
                higher_ranked: true,
                bounded: named("T"),
                bounds: vec![],
            }],
        }),
        data: Data::Union,
    };
    assert_eq!(derive_enum_is_a(&adt), Err(GenError::Unimplemented(Form::HigherRankedLifetimes)));
}

#[test]
fn a_field_type_without_rendering_fails_every_derivation() {
    let adt = enumeration(
        "E",
        vec![],
        vec![unit("A"), tuple("B", vec![TypeExpr::Unsupported(TypeForm::ImplTrait)])],
    );
    let expected = Err(GenError::UnsupportedTypeForm(TypeForm::ImplTrait));
    assert_eq!(derive_variant_name(&adt), expected);
    assert_eq!(derive_variant_index_arity(&adt), expected);
    assert_eq!(derive_enum_is_a(&adt), expected);
    assert_eq!(derive_enum_as_getters(&adt), expected);
}

#[test]
fn generating_twice_gives_the_same_text() {
    assert_eq!(derive_variant_name(&list()), derive_variant_name(&list()));
    assert_eq!(derive_variant_index_arity(&list()), derive_variant_index_arity(&list()));
    assert_eq!(derive_enum_is_a(&list()), derive_enum_is_a(&list()));
    assert_eq!(derive_enum_as_getters(&list()), derive_enum_as_getters(&list()));
    let adt = list();
    assert_eq!(derive_enum_is_a(&adt), derive_enum_is_a(&adt));
}

#[test]
fn the_two_kinds_of_variant_methods() {
    assert_eq!(derive_enum_variant_method(&list(), EnumMethodKind::EnumIsA), derive_enum_is_a(&list()));
    assert_eq!(
        derive_enum_variant_method(&list(), EnumMethodKind::EnumAsGetters),
        derive_enum_as_getters(&list())
    );
    assert_eq!(EnumMethodKind::EnumIsA.variant_name(), "EnumIsA");
    assert_eq!(EnumMethodKind::EnumAsGetters.variant_name(), "EnumAsGetters");
}

#[test]
fn a_method_around_its_arms() {
    assert_eq!(
        method_to_string("f(&self) -> u8", "            _ => 0,"),
        "    pub fn f(&self) -> u8 {\n        match self {\n            _ => 0,\n        }\n    }"
    );
}

#[test]
fn one_predicate_and_one_accessor() {
    let mp = MatchPattern {
        variant_id: "SomeCase".to_string(),
        match_pattern: "E::SomeCase(x0)".to_string(),
        num_args: 1,
        named_args: vec!["x0".to_string()],
        arg_types: vec!["u8".to_string()],
    };
    assert_eq!(
        is_a_method_to_string(&mp, true),
        "    pub fn is_some_case(&self) -> bool {\n        match self {\n            E::SomeCase(x0) => true,\n            _ => false,\n        }\n    }"
    );
    assert_eq!(
        is_a_method_to_string(&mp, false),
        "    pub fn is_some_case(&self) -> bool {\n        match self {\n            E::SomeCase(x0) => true,\n        }\n    }"
    );
    assert_eq!(
        as_getter_method_to_string("E", &mp, true),
        "    pub fn as_some_case(&self) -> (&(u8)) {\n        match self {\n            E::SomeCase(x0) => (x0),\n            _ => unreachable!(\"E::as_some_case: Not the proper variant\"),\n        }\n    }"
    );
    assert_eq!(
        as_getter_method_to_string("E", &mp, false),
        "    pub fn as_some_case(&self) -> (&(u8)) {\n        match self {\n            E::SomeCase(x0) => (x0),\n        }\n    }"
    );
}

#[test]
fn the_arms_of_the_method_of_one_variant() {
    let mp = MatchPattern {
        variant_id: "A".to_string(),
        match_pattern: "E::A".to_string(),
        num_args: 0,
        named_args: vec![],
        arg_types: vec![],
    };
    assert_eq!(
        variant_method_arms_to_string(&mp, "1", "2", true),
        "            E::A => 1,\n            _ => 2,"
    );
    assert_eq!(variant_method_arms_to_string(&mp, "1", "2", false), "            E::A => 1,");
}
