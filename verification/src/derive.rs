//! Derived methods for enumerations: `variant_name`, `variant_index_arity`,
//! the `is_*` predicates and the `as_*` accessors.
//!
//! Each derivation renders the generic parameters of the declaration twice,
//! with and without their bounds, then its where-clause, and then reads the
//! variants through their match patterns. An enumeration without variants
//! gives no text at all.

use crate::arms::{
    arm_line, arm_lines, arm_to_string, arms_text, lemma_taken_body_at, taken_body, Arm, ArmHead,
};
use crate::ast::{renders, AdtDescriptor, Data, DeclKind, GenError, VariantDescriptor};
use crate::generics::{
    generic_params_to_string, generic_params_without_constraints_to_string,
    opt_where_clause_error, opt_where_clause_text, opt_where_clause_to_string, params_error,
    params_text,
};
use crate::names::{snake_case, to_snake_case};
use crate::patterns::{
    arity, binding_names, fields_pattern, generate_variant_match_patterns, pattern_views,
    patterns_error, variant_patterns, MatchPattern, MatchPatternView,
};
use crate::printer::or_else;
use crate::text::{decimal, join, join_strings, lemma_decimal_injective, push_decimal, views};
use vstd::prelude::*;
use vstd::string::StringExecFns;

verus! {

/// What opens a method, before its signature.
pub const METHOD_OPEN: &'static str = "    pub fn ";

/// What stands between the signature of a method and its match arms.
pub const MATCH_OPEN: &'static str = " {\n        match self {\n";

/// What closes a method, after its match arms.
pub const MATCH_CLOSE: &'static str = "\n        }\n    }";

/// The signature of `variant_name`.
pub const VARIANT_NAME_SIGNATURE: &'static str = "variant_name(&self) -> &'static str";

/// The signature of `variant_index_arity`.
pub const VARIANT_INDEX_ARITY_SIGNATURE: &'static str =
    "variant_index_arity(&self) -> (u32, usize)";

/// The two derivations that give one method for each variant.
#[derive(Clone, Copy, Debug, PartialEq, Eq, Structural)]
pub enum EnumMethodKind {
    EnumIsA,
    EnumAsGetters,
}

impl EnumMethodKind {
    /// The name of the derivation, as text.
    pub open spec fn name(self) -> Seq<char> {
        match self {
            EnumMethodKind::EnumIsA => "EnumIsA"@,
            EnumMethodKind::EnumAsGetters => "EnumAsGetters"@,
        }
    }

    /// The name of the derivation.
    pub fn variant_name(&self) -> (out: String)
        ensures
            out@ == self.name(),
    {
        match self {
            EnumMethodKind::EnumIsA => String::from_str("EnumIsA"),
            EnumMethodKind::EnumAsGetters => String::from_str("EnumAsGetters"),
        }
    }
}

/// The first construct in the head of an impl block that cannot be
/// rendered: in the parameters with their bounds, in the parameters alone,
/// or in the where-clause.
pub open spec fn header_error(adt: AdtDescriptor) -> Option<GenError> {
    or_else(
        params_error(adt.params@, true),
        or_else(params_error(adt.params@, false), opt_where_clause_error(adt.where_clause)),
    )
}

/// Why a derivation fails on `adt`, if it does: a construct in the head of
/// the impl block that cannot be rendered, a declaration that is not an
/// enumeration, or a field type that cannot be rendered.
pub open spec fn derive_error(adt: AdtDescriptor) -> Option<GenError> {
    or_else(
        header_error(adt),
        match adt.data {
            Data::Enum(variants) => patterns_error(variants@),
            Data::Struct => Some(GenError::WrongDeclarationKind(DeclKind::Struct)),
            Data::Union => Some(GenError::WrongDeclarationKind(DeclKind::Union)),
        },
    )
}

/// An impl block for `adt` around `body`.
pub open spec fn impl_block(adt: AdtDescriptor, body: Seq<char>) -> Seq<char> {
    "impl"@ + params_text(adt.params@, true) + " "@ + adt.name@ + params_text(adt.params@, false)
        + opt_where_clause_text(adt.where_clause) + " {\n"@ + body + "\n}"@
}

/// A method that matches on `self`.
pub open spec fn method_text(signature: Seq<char>, arms: Seq<char>) -> Seq<char> {
    METHOD_OPEN@ + signature + MATCH_OPEN@ + arms + MATCH_CLOSE@
}

/// The variants of a declaration; none where it is not an enumeration.
pub open spec fn variants_of(adt: AdtDescriptor) -> Seq<VariantDescriptor> {
    match adt.data {
        Data::Enum(variants) => variants@,
        _ => Seq::empty(),
    }
}

/// The string literal that names a variant, in a block.
pub open spec fn name_literal(variant_id: Seq<char>) -> Seq<char> {
    "{ \""@ + variant_id + "\" }"@
}

/// The arm of `variant_name` for one variant: the name of the variant as a
/// string literal.
pub open spec fn name_arm(p: MatchPatternView) -> Arm {
    Arm {
        head: ArmHead::Variant(p.variant_id),
        pattern: p.match_pattern,
        body: name_literal(p.variant_id),
    }
}

/// The arms of `variant_name`, one for each variant, in declaration order.
pub open spec fn name_arms(ps: Seq<MatchPatternView>) -> Seq<Arm> {
    Seq::new(ps.len(), |i: int| name_arm(ps[i]))
}

/// The text that `derive_variant_name` gives for `adt`.
pub open spec fn variant_name_text(adt: AdtDescriptor) -> Seq<char> {
    let patterns = variant_patterns(adt.name@, variants_of(adt), None);
    if patterns.len() == 0 {
        Seq::empty()
    } else {
        impl_block(adt, method_text(VARIANT_NAME_SIGNATURE@, arms_text(name_arms(patterns))))
    }
}

/// The pair of an index and an arity, in a block.
pub open spec fn index_arity_pair(index: nat, arity: nat) -> Seq<char> {
    "{ ("@ + decimal(index) + ", "@ + decimal(arity) + ") }"@
}

/// The arm of `variant_index_arity` for the variant at `index`: its index
/// and the number of its fields.
pub open spec fn index_arity_arm(index: nat, p: MatchPatternView) -> Arm {
    Arm {
        head: ArmHead::Variant(p.variant_id),
        pattern: p.match_pattern,
        body: index_arity_pair(index, p.num_args),
    }
}

/// The arms of `variant_index_arity`, one for each variant, in declaration
/// order: the arm at `i` holds the index `i`.
pub open spec fn index_arity_arms(ps: Seq<MatchPatternView>) -> Seq<Arm> {
    Seq::new(ps.len(), |i: int| index_arity_arm(i as nat, ps[i]))
}

/// The text that `derive_variant_index_arity` gives for `adt`.
pub open spec fn variant_index_arity_text(adt: AdtDescriptor) -> Seq<char> {
    let patterns = variant_patterns(adt.name@, variants_of(adt), None);
    if patterns.len() == 0 {
        Seq::empty()
    } else {
        impl_block(
            adt,
            method_text(VARIANT_INDEX_ARITY_SIGNATURE@, arms_text(index_arity_arms(patterns))),
        )
    }
}

/// The arm that stands for every variant but the one of a method.
pub open spec fn otherwise_arm(body: Seq<char>) -> Arm {
    Arm { head: ArmHead::Otherwise, pattern: "_"@, body }
}

/// The arms of the method of one variant: the arm of that variant, which
/// gives `body`, and where there are several variants the arm of all
/// others, which gives `otherwise`.
pub open spec fn variant_method_arms(
    p: MatchPatternView,
    body: Seq<char>,
    otherwise: Seq<char>,
    several_variants: bool,
) -> Seq<Arm> {
    let own = Arm { head: ArmHead::Variant(p.variant_id), pattern: p.match_pattern, body };
    if several_variants {
        seq![own, otherwise_arm(otherwise)]
    } else {
        seq![own]
    }
}

/// The arms of an `is_*` predicate: `true` for its variant, and `false` for
/// any other variant where there is one.
pub open spec fn is_a_arms(p: MatchPatternView, several_variants: bool) -> Seq<Arm> {
    variant_method_arms(p, "true"@, "false"@, several_variants)
}

/// The `is_*` predicate of one variant.
pub open spec fn is_a_method(p: MatchPatternView, several_variants: bool) -> Seq<char> {
    method_text(
        "is_"@ + snake_case(p.variant_id) + "(&self) -> "@ + "bool"@,
        arms_text(is_a_arms(p, several_variants)),
    )
}

/// The tuple of the names that a pattern binds.
pub open spec fn bound_fields(p: MatchPatternView) -> Seq<char> {
    "("@ + join(p.named_args, ", "@) + ")"@
}

/// The fault of an `as_*` accessor that is called on an instance of
/// another variant. It names the declaration and the accessor.
pub open spec fn wrong_variant_fault(adt_name: Seq<char>, variant_id: Seq<char>) -> Seq<char> {
    "unreachable!(\""@ + adt_name + "::as_"@ + snake_case(variant_id)
        + ": Not the proper variant\")"@
}

/// The arms of an `as_*` accessor: the tuple of the bound fields for its
/// variant, and the fault for any other variant where there is one.
pub open spec fn as_getter_arms(
    adt_name: Seq<char>,
    p: MatchPatternView,
    several_variants: bool,
) -> Seq<Arm> {
    variant_method_arms(
        p,
        bound_fields(p),
        wrong_variant_fault(adt_name, p.variant_id),
        several_variants,
    )
}

/// Shared references to the types of the fields: `&(T)` for each `T`.
pub open spec fn reference_types(types: Seq<Seq<char>>) -> Seq<Seq<char>> {
    Seq::new(types.len(), |i: int| "&("@ + types[i] + ")"@)
}

/// What an `as_*` accessor returns: the tuple of the references.
pub open spec fn as_getter_return(p: MatchPatternView) -> Seq<char> {
    "("@ + join(reference_types(p.arg_types), ", "@) + ")"@
}

/// The `as_*` accessor of one variant.
pub open spec fn as_getter_method(
    adt_name: Seq<char>,
    p: MatchPatternView,
    several_variants: bool,
) -> Seq<char> {
    method_text(
        "as_"@ + snake_case(p.variant_id) + "(&self) -> "@ + as_getter_return(p),
        arms_text(as_getter_arms(adt_name, p, several_variants)),
    )
}

/// The base name of the variables that the patterns of a derivation bind:
/// the accessors bind `x0`, `x1`, …, the predicates bind nothing.
pub open spec fn pattern_base(kind: EnumMethodKind) -> Option<Seq<char>> {
    match kind {
        EnumMethodKind::EnumIsA => None,
        EnumMethodKind::EnumAsGetters => Some("x"@),
    }
}

/// The method that the derivation `kind` gives for one variant.
pub open spec fn variant_method(
    kind: EnumMethodKind,
    adt_name: Seq<char>,
    p: MatchPatternView,
    several_variants: bool,
) -> Seq<char> {
    match kind {
        EnumMethodKind::EnumIsA => is_a_method(p, several_variants),
        EnumMethodKind::EnumAsGetters => as_getter_method(adt_name, p, several_variants),
    }
}

/// The methods that the derivation `kind` gives, one for each variant, in
/// declaration order.
pub open spec fn variant_methods(kind: EnumMethodKind, adt: AdtDescriptor) -> Seq<Seq<char>> {
    let variants = variants_of(adt);
    let patterns = variant_patterns(adt.name@, variants, pattern_base(kind));
    Seq::new(
        patterns.len(),
        |i: int| variant_method(kind, adt.name@, patterns[i], variants.len() > 1),
    )
}

/// The text that `derive_enum_variant_method` gives for `adt`.
pub open spec fn enum_methods_text(kind: EnumMethodKind, adt: AdtDescriptor) -> Seq<char> {
    if variants_of(adt).len() == 0 {
        Seq::empty()
    } else {
        impl_block(adt, join(variant_methods(kind, adt), "\n\n"@))
    }
}

/// Renders the arms of the method of one variant: the arm of the variant
/// with the pattern `mp`, which gives `body`, and where there are several
/// variants the arm of all others, which gives `otherwise`.
pub fn variant_method_arms_to_string(
    mp: &MatchPattern,
    body: &str,
    otherwise: &str,
    several_variants: bool,
) -> (out: String)
    ensures
        out@ == arms_text(variant_method_arms(mp@, body@, otherwise@, several_variants)),
{
    let mut lines: Vec<String> = Vec::new();
    lines.push(arm_to_string(mp.match_pattern.as_str(), body));
    if several_variants {
        lines.push(arm_to_string("_", otherwise));
    }
    proof {
        assert(views(lines@) =~= arm_lines(
            variant_method_arms(mp@, body@, otherwise@, several_variants),
        ));
    }
    join_strings(&lines, "\n")
}

/// Renders a method that matches on `self`.
pub fn method_to_string(signature: &str, arms: &str) -> (out: String)
    ensures
        out@ == method_text(signature@, arms@),
{
    let mut out = String::from_str(METHOD_OPEN);
    out.append(signature);
    out.append(MATCH_OPEN);
    out.append(arms);
    out.append(MATCH_CLOSE);
    out
}

/// Renders the impl block for `adt` around `body`, from the rendered
/// parameters and where-clause.
fn impl_block_to_string(
    generic_params_with_constraints: &str,
    adt_name: &str,
    generic_params_without_constraints: &str,
    where_clause: &str,
    body: &str,
) -> (out: String)
    ensures
        out@ == "impl"@ + generic_params_with_constraints@ + " "@ + adt_name@
            + generic_params_without_constraints@ + where_clause@ + " {\n"@ + body@ + "\n}"@,
{
    let mut out = String::from_str("impl");
    out.append(generic_params_with_constraints);
    out.append(" ");
    out.append(adt_name);
    out.append(generic_params_without_constraints);
    out.append(where_clause);
    out.append(" {\n");
    out.append(body);
    out.append("\n}");
    out
}

/// Derives `fn variant_name(&self) -> &'static str`, which gives the name of
/// the variant of an instance. Only an enumeration has it.
pub fn derive_variant_name(adt: &AdtDescriptor) -> (r: Result<String, GenError>)
    ensures
        renders(r, derive_error(*adt), variant_name_text(*adt)),
{
    let generic_params_with_constraints = generic_params_to_string(&adt.params)?;
    let generic_params_without_constraints = generic_params_without_constraints_to_string(
        &adt.params,
    )?;
    let where_clause = opt_where_clause_to_string(&adt.where_clause)?;
    let mut match_branches: Vec<String> = Vec::new();
    match &adt.data {
        Data::Enum(variants) => {
            let patterns = generate_variant_match_patterns(&adt.name, variants, None)?;
            let ghost expected = variant_patterns(adt.name@, variants@, None);
            let mut i: usize = 0;
            while i < patterns.len()
                invariant
                    i <= patterns.len(),
                    pattern_views(patterns@) == expected,
                    match_branches@.len() == i,
                    forall|j: int|
                        0 <= j < i ==> (#[trigger] match_branches@[j])@ == arm_line(
                            expected[j].match_pattern,
                            name_literal(expected[j].variant_id),
                        ),
                decreases patterns.len() - i,
            {
                let mp = &patterns[i];
                let mut body = String::from_str("{ \"");
                body.append(mp.variant_id.as_str());
                body.append("\" }");
                match_branches.push(arm_to_string(mp.match_pattern.as_str(), body.as_str()));
                i = i + 1;
            }
            proof {
                assert(views(match_branches@) =~= arm_lines(name_arms(expected)));
            }
        },
        Data::Struct => {
            return Err(GenError::WrongDeclarationKind(DeclKind::Struct));
        },
        Data::Union => {
            return Err(GenError::WrongDeclarationKind(DeclKind::Union));
        },
    }
    if match_branches.len() > 0 {
        let match_branches = join_strings(&match_branches, "\n");
        let body = method_to_string(VARIANT_NAME_SIGNATURE, match_branches.as_str());
        Ok(
            impl_block_to_string(
                generic_params_with_constraints.as_str(),
                adt.name.as_str(),
                generic_params_without_constraints.as_str(),
                where_clause.as_str(),
                body.as_str(),
            ),
        )
    } else {
        Ok(String::new())
    }
}

/// Derives `fn variant_index_arity(&self) -> (u32, usize)`, which gives the
/// index of the variant of an instance, counted from zero in declaration
/// order, and the number of its fields. Only an enumeration has it.
pub fn derive_variant_index_arity(adt: &AdtDescriptor) -> (r: Result<String, GenError>)
    ensures
        renders(r, derive_error(*adt), variant_index_arity_text(*adt)),
{
    let generic_params_with_constraints = generic_params_to_string(&adt.params)?;
    let generic_params_without_constraints = generic_params_without_constraints_to_string(
        &adt.params,
    )?;
    let where_clause = opt_where_clause_to_string(&adt.where_clause)?;
    let mut match_branches: Vec<String> = Vec::new();
    match &adt.data {
        Data::Enum(variants) => {
            let patterns = generate_variant_match_patterns(&adt.name, variants, None)?;
            let ghost expected = variant_patterns(adt.name@, variants@, None);
            let mut i: usize = 0;
            while i < patterns.len()
                invariant
                    i <= patterns.len(),
                    pattern_views(patterns@) == expected,
                    match_branches@.len() == i,
                    forall|j: int|
                        0 <= j < i ==> (#[trigger] match_branches@[j])@ == arm_line(
                            expected[j].match_pattern,
                            index_arity_pair(j as nat, expected[j].num_args),
                        ),
                decreases patterns.len() - i,
            {
                let mp = &patterns[i];
                let mut body = String::from_str("{ (");
                push_decimal(&mut body, i);
                body.append(", ");
                push_decimal(&mut body, mp.num_args);
                body.append(") }");
                match_branches.push(arm_to_string(mp.match_pattern.as_str(), body.as_str()));
                i = i + 1;
            }
            proof {
                assert(views(match_branches@) =~= arm_lines(index_arity_arms(expected)));
            }
        },
        Data::Struct => {
            return Err(GenError::WrongDeclarationKind(DeclKind::Struct));
        },
        Data::Union => {
            return Err(GenError::WrongDeclarationKind(DeclKind::Union));
        },
    }
    if match_branches.len() > 0 {
        let match_branches = join_strings(&match_branches, "\n");
        let body = method_to_string(VARIANT_INDEX_ARITY_SIGNATURE, match_branches.as_str());
        Ok(
            impl_block_to_string(
                generic_params_with_constraints.as_str(),
                adt.name.as_str(),
                generic_params_without_constraints.as_str(),
                where_clause.as_str(),
                body.as_str(),
            ),
        )
    } else {
        Ok(String::new())
    }
}

/// Renders the `is_*` predicate of the variant with the pattern `mp`.
pub fn is_a_method_to_string(mp: &MatchPattern, several_variants: bool) -> (out: String)
    ensures
        out@ == is_a_method(mp@, several_variants),
{
    let complete_pat = variant_method_arms_to_string(mp, "true", "false", several_variants);
    let mut signature = String::from_str("is_");
    signature.append(to_snake_case(mp.variant_id.as_str()).as_str());
    signature.append("(&self) -> ");
    signature.append("bool");
    method_to_string(signature.as_str(), complete_pat.as_str())
}

/// Renders the `as_*` accessor of the variant with the pattern `mp`, for the
/// enumeration `adt_name`.
pub fn as_getter_method_to_string(adt_name: &str, mp: &MatchPattern, several_variants: bool) -> (out:
    String)
    ensures
        out@ == as_getter_method(adt_name@, mp@, several_variants),
{
    let snake = to_snake_case(mp.variant_id.as_str());
    let mut vars = String::from_str("(");
    vars.append(join_strings(&mp.named_args, ", ").as_str());
    vars.append(")");
    let mut fault = String::from_str("unreachable!(\"");
    fault.append(adt_name);
    fault.append("::as_");
    fault.append(snake.as_str());
    fault.append(": Not the proper variant\")");
    let complete_pat = variant_method_arms_to_string(
        mp,
        vars.as_str(),
        fault.as_str(),
        several_variants,
    );
    let mut ret_tys: Vec<String> = Vec::new();
    let mut k: usize = 0;
    while k < mp.arg_types.len()
        invariant
            k <= mp.arg_types.len(),
            ret_tys@.len() == k,
            forall|j: int|
                0 <= j < k ==> (#[trigger] ret_tys@[j])@ == "&("@ + mp.arg_types@[j]@ + ")"@,
        decreases mp.arg_types.len() - k,
    {
        let mut ret = String::from_str("&(");
        ret.append(mp.arg_types[k].as_str());
        ret.append(")");
        ret_tys.push(ret);
        k = k + 1;
    }
    proof {
        assert(views(ret_tys@) =~= reference_types(mp@.arg_types));
    }
    let mut signature = String::from_str("as_");
    signature.append(snake.as_str());
    signature.append("(&self) -> ");
    let mut ret_ty = String::from_str("(");
    ret_ty.append(join_strings(&ret_tys, ", ").as_str());
    ret_ty.append(")");
    signature.append(ret_ty.as_str());
    method_to_string(signature.as_str(), complete_pat.as_str())
}

/// Derives one method for each variant of an enumeration, in one impl
/// block: the `is_*` predicates or the `as_*` accessors.
pub fn derive_enum_variant_method(adt: &AdtDescriptor, method_kind: EnumMethodKind) -> (r: Result<
    String,
    GenError,
>)
    ensures
        renders(r, derive_error(*adt), enum_methods_text(method_kind, *adt)),
{
    let generic_params_with_constraints = generic_params_to_string(&adt.params)?;
    let generic_params_without_constraints = generic_params_without_constraints_to_string(
        &adt.params,
    )?;
    let where_clause = opt_where_clause_to_string(&adt.where_clause)?;
    let mut impls: Vec<String> = Vec::new();
    match &adt.data {
        Data::Enum(variants) => {
            let several_variants = variants.len() > 1;
            let x = String::from_str("x");
            let varbasename: Option<&String> = match method_kind {
                EnumMethodKind::EnumIsA => None,
                EnumMethodKind::EnumAsGetters => Some(&x),
            };
            let patterns = generate_variant_match_patterns(&adt.name, variants, varbasename)?;
            let ghost expected = variant_patterns(adt.name@, variants@, pattern_base(method_kind));
            let mut i: usize = 0;
            while i < patterns.len()
                invariant
                    i <= patterns.len(),
                    pattern_views(patterns@) == expected,
                    impls@.len() == i,
                    forall|j: int|
                        0 <= j < i ==> (#[trigger] impls@[j])@ == variant_method(
                            method_kind,
                            adt.name@,
                            expected[j],
                            several_variants,
                        ),
                decreases patterns.len() - i,
            {
                let mp = &patterns[i];
                let method = match method_kind {
                    EnumMethodKind::EnumIsA => is_a_method_to_string(mp, several_variants),
                    EnumMethodKind::EnumAsGetters => as_getter_method_to_string(
                        adt.name.as_str(),
                        mp,
                        several_variants,
                    ),
                };
                impls.push(method);
                i = i + 1;
            }
            proof {
                assert(views(impls@) =~= variant_methods(method_kind, *adt));
            }
        },
        Data::Struct => {
            return Err(GenError::WrongDeclarationKind(DeclKind::Struct));
        },
        Data::Union => {
            return Err(GenError::WrongDeclarationKind(DeclKind::Union));
        },
    }
    if impls.len() > 0 {
        let impls = join_strings(&impls, "\n\n");
        Ok(
            impl_block_to_string(
                generic_params_with_constraints.as_str(),
                adt.name.as_str(),
                generic_params_without_constraints.as_str(),
                where_clause.as_str(),
                impls.as_str(),
            ),
        )
    } else {
        Ok(String::new())
    }
}

/// Derives the predicates `fn is_{variant}(&self) -> bool`, one for each
/// variant: for a list, `is_cons` and `is_nil`.
pub fn derive_enum_is_a(adt: &AdtDescriptor) -> (r: Result<String, GenError>)
    ensures
        renders(r, derive_error(*adt), enum_methods_text(EnumMethodKind::EnumIsA, *adt)),
{
    derive_enum_variant_method(adt, EnumMethodKind::EnumIsA)
}

/// Derives the accessors `fn as_{variant}(&self) -> (&T1, …)`, one for each
/// variant, which give shared borrows of the fields of an instance of that
/// variant.
pub fn derive_enum_as_getters(adt: &AdtDescriptor) -> (r: Result<String, GenError>)
    ensures
        renders(r, derive_error(*adt), enum_methods_text(EnumMethodKind::EnumAsGetters, *adt)),
{
    derive_enum_variant_method(adt, EnumMethodKind::EnumAsGetters)
}

/// Generating twice from an unchanged declaration gives the same result:
/// the same text, character for character, or the same failure. `text` is
/// the text of whichever derivation was asked for.
pub proof fn lemma_derivation_repeats(
    adt: AdtDescriptor,
    text: Seq<char>,
    first: Result<String, GenError>,
    second: Result<String, GenError>,
)
    requires
        renders(first, derive_error(adt), text),
        renders(second, derive_error(adt), text),
    ensures
        first is Ok <==> second is Ok,
        first is Ok ==> first->Ok_0@ == second->Ok_0@,
        first is Err ==> first->Err_0 == second->Err_0,
{
}

/// Whether the variants have names that differ from one another, as the
/// variants of an enumeration do.
pub open spec fn distinct_names(variants: Seq<VariantDescriptor>) -> bool {
    forall|i: int, j: int|
        0 <= i < j < variants.len() ==> (#[trigger] variants[i]).name@ != (
        #[trigger] variants[j]).name@
}

/// The names of the variants, in declaration order.
pub open spec fn variant_names(variants: Seq<VariantDescriptor>) -> Seq<Seq<char>> {
    Seq::new(variants.len(), |i: int| variants[i].name@)
}

/// `variant_name` names the variant of an instance: for an instance of the
/// variant declared at `k`, the emitted match gives the name of that
/// variant as a string literal.
pub proof fn lemma_variant_name_names_the_variant(adt: AdtDescriptor, k: int)
    requires
        distinct_names(variants_of(adt)),
        0 <= k < variants_of(adt).len(),
    ensures
        taken_body(
            name_arms(variant_patterns(adt.name@, variants_of(adt), None)),
            variants_of(adt)[k].name@,
        ) == Some(name_literal(variants_of(adt)[k].name@)),
{
    let variants = variants_of(adt);
    lemma_taken_body_at(
        name_arms(variant_patterns(adt.name@, variants, None)),
        variant_names(variants),
        k,
    );
}

/// `variant_index_arity` has one arm for each variant, in declaration
/// order: the arm at `k` has the head of the variant declared at `k`, and
/// gives the pair of the numerals of `k` and of the number of fields of that
/// variant.
pub proof fn lemma_index_arity_arm_at(adt: AdtDescriptor, k: int)
    requires
        0 <= k < variants_of(adt).len(),
    ensures
        index_arity_arms(variant_patterns(adt.name@, variants_of(adt), None)).len()
            == variants_of(adt).len(),
        index_arity_arms(variant_patterns(adt.name@, variants_of(adt), None))[k] == (Arm {
            head: ArmHead::Variant(variants_of(adt)[k].name@),
            pattern: adt.name@ + "::"@ + variants_of(adt)[k].name@ + fields_pattern(
                variants_of(adt)[k].fields,
                None,
            ),
            body: index_arity_pair(k as nat, arity(variants_of(adt)[k].fields)),
        }),
{
}

/// `variant_index_arity` numbers the variants from zero in declaration
/// order and pairs each number with the number of fields of its variant:
/// for an instance of the variant declared at `k`, the emitted match gives
/// the pair of the numerals of `k` and of the number of fields of that
/// variant.
pub proof fn lemma_index_arity_in_declaration_order(adt: AdtDescriptor, k: int)
    requires
        distinct_names(variants_of(adt)),
        0 <= k < variants_of(adt).len(),
    ensures
        taken_body(
            index_arity_arms(variant_patterns(adt.name@, variants_of(adt), None)),
            variants_of(adt)[k].name@,
        ) == Some(index_arity_pair(k as nat, arity(variants_of(adt)[k].fields))),
{
    let variants = variants_of(adt);
    lemma_taken_body_at(
        index_arity_arms(variant_patterns(adt.name@, variants, None)),
        variant_names(variants),
        k,
    );
}

/// The arms of `variant_index_arity` of two different variants hold
/// different numerals: no index is given twice.
pub proof fn lemma_index_arity_indices_differ(i: nat, j: nat)
    requires
        i != j,
    ensures
        decimal(i) != decimal(j),
{
    if decimal(i) == decimal(j) {
        lemma_decimal_injective(i, j);
    }
}

/// The predicates are exhaustive and exclusive: for an instance of the
/// variant declared at `k`, the predicate of the variant declared at `j`
/// gives `true` if `j` is `k` and `false` otherwise. So exactly one
/// predicate gives `true`, that of the instance's own variant.
pub proof fn lemma_exactly_one_predicate_holds(adt: AdtDescriptor, j: int, k: int)
    requires
        distinct_names(variants_of(adt)),
        0 <= j < variants_of(adt).len(),
        0 <= k < variants_of(adt).len(),
    ensures
        taken_body(
            is_a_arms(
                variant_patterns(adt.name@, variants_of(adt), None)[j],
                variants_of(adt).len() > 1,
            ),
            variants_of(adt)[k].name@,
        ) == Some(
            if j == k {
                "true"@
            } else {
                "false"@
            },
        ),
        "true"@ != "false"@,
{
    reveal_with_fuel(taken_body, 3);
    reveal_strlit("true");
    reveal_strlit("false");
    assert("true"@.len() != "false"@.len());
}

/// An accessor gives the fields of its own variant and faults on any
/// other: for an instance of the variant declared at `k`, the accessor of
/// the variant declared at `j` gives the tuple of the names that its
/// pattern binds to the fields, in declaration order, if `j` is `k`, and
/// otherwise the fault that names the declaration and the accessor.
pub proof fn lemma_accessor_gives_fields_or_faults(adt: AdtDescriptor, j: int, k: int)
    requires
        distinct_names(variants_of(adt)),
        0 <= j < variants_of(adt).len(),
        0 <= k < variants_of(adt).len(),
    ensures
        taken_body(
            as_getter_arms(
                adt.name@,
                variant_patterns(adt.name@, variants_of(adt), Some("x"@))[j],
                variants_of(adt).len() > 1,
            ),
            variants_of(adt)[k].name@,
        ) == Some(
            if j == k {
                "("@ + join(binding_names(Some("x"@), arity(variants_of(adt)[k].fields)), ", "@)
                    + ")"@
            } else {
                wrong_variant_fault(adt.name@, variants_of(adt)[j].name@)
            },
        ),
{
    reveal_with_fuel(taken_body, 3);
}

/// Every derivation gives one impl block or nothing: nothing exactly for
/// an enumeration without variants.
pub proof fn lemma_no_variants_no_text(adt: AdtDescriptor, kind: EnumMethodKind)
    requires
        variants_of(adt).len() == 0,
    ensures
        variant_name_text(adt) == Seq::<char>::empty(),
        variant_index_arity_text(adt) == Seq::<char>::empty(),
        enum_methods_text(kind, adt) == Seq::<char>::empty(),
{
}

} // verus!
