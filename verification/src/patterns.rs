//! Match patterns for the variants of an enumeration.
//!
//! The pattern of a variant is the one source of its arm head, its arity,
//! the names it binds and the types of its fields: every derivation reads
//! them from here.

use crate::ast::{Fields, GenError, NamedField, VariantDescriptor};
use crate::printer::{type_error, type_errors, type_text, type_texts, type_to_string, types_to_strings};
use crate::text::{decimal, first_some, join, join_strings, lemma_first_some_at, lemma_first_some_none, push_decimal, views};
use vstd::prelude::*;
use vstd::string::StringExecFns;

verus! {

/// The match pattern of one variant.
#[derive(Debug)]
pub struct MatchPattern {
    /// The name of the variant.
    pub variant_id: String,
    /// The head of the match arm, as in `List::Cons(hd, tl)`.
    pub match_pattern: String,
    /// The number of fields, bound by name or not.
    pub num_args: usize,
    /// The names that the pattern binds, in order: `["hd", "tl"]` for
    /// `List::Cons(hd, tl)`, and none where the fields are matched by `_`.
    pub named_args: Vec<String>,
    /// The types of the fields, in order.
    pub arg_types: Vec<String>,
}

/// What a match pattern holds, as text and numbers.
pub struct MatchPatternView {
    pub variant_id: Seq<char>,
    pub match_pattern: Seq<char>,
    pub num_args: nat,
    pub named_args: Seq<Seq<char>>,
    pub arg_types: Seq<Seq<char>>,
}

impl View for MatchPattern {
    type V = MatchPatternView;

    /// The views of the fields.
    open spec fn view(&self) -> MatchPatternView {
        MatchPatternView {
            variant_id: self.variant_id@,
            match_pattern: self.match_pattern@,
            num_args: self.num_args as nat,
            named_args: views(self.named_args@),
            arg_types: views(self.arg_types@),
        }
    }
}

/// The base name for bindings, as text.
pub open spec fn base_view(patvar_name: Option<&String>) -> Option<Seq<char>> {
    match patvar_name {
        Some(name) => Some(name@),
        None => None,
    }
}

/// The binding for the field at `index`: `_` without a base name, and the
/// base name followed by the index with one.
pub open spec fn binding_name(base: Option<Seq<char>>, index: nat) -> Seq<char> {
    match base {
        Some(name) => name + decimal(index),
        None => "_"@,
    }
}

/// The bindings for `n` fields, numbered from zero.
pub open spec fn binding_names(base: Option<Seq<char>>, n: nat) -> Seq<Seq<char>> {
    Seq::new(n, |i: int| binding_name(base, i as nat))
}

/// The number of fields of a variant.
pub open spec fn arity(fields: Fields) -> nat {
    match fields {
        Fields::Named(fs) => fs@.len(),
        Fields::Unnamed(ts) => ts@.len(),
        Fields::Unit => 0,
    }
}

/// The patterns of named fields: `field:binding` for each.
pub open spec fn named_field_patterns(fs: Seq<NamedField>, base: Option<Seq<char>>) -> Seq<
    Seq<char>,
> {
    Seq::new(fs.len(), |i: int| fs[i].name@ + ":"@ + binding_name(base, i as nat))
}

/// The part of an arm head after the variant's name: `{ a:x0, b:x1 }` for
/// named fields, `(x0, x1)` for positional ones, nothing for a unit.
pub open spec fn fields_pattern(fields: Fields, base: Option<Seq<char>>) -> Seq<char> {
    match fields {
        Fields::Named(fs) => "{ "@ + join(named_field_patterns(fs@, base), ", "@) + " }"@,
        Fields::Unnamed(ts) => "("@ + join(binding_names(base, ts@.len()), ", "@) + ")"@,
        Fields::Unit => Seq::empty(),
    }
}

/// The names that the pattern of a variant binds.
pub open spec fn introduced_names(fields: Fields, base: Option<Seq<char>>) -> Seq<Seq<char>> {
    if base is None {
        Seq::empty()
    } else {
        binding_names(base, arity(fields))
    }
}

/// For each named field, why its type cannot be rendered, if it cannot.
pub open spec fn named_field_type_errors(fs: Seq<NamedField>) -> Seq<Option<GenError>> {
    Seq::new(fs.len(), |i: int| type_error(fs[i].ty))
}

/// The types of named fields, in order.
pub open spec fn named_field_type_texts(fs: Seq<NamedField>) -> Seq<Seq<char>> {
    Seq::new(fs.len(), |i: int| type_text(fs[i].ty))
}

/// The first field type of a variant that cannot be rendered.
pub open spec fn variant_error(v: VariantDescriptor) -> Option<GenError> {
    match v.fields {
        Fields::Named(fs) => first_some(named_field_type_errors(fs@)),
        Fields::Unnamed(ts) => first_some(type_errors(ts)),
        Fields::Unit => None,
    }
}

/// The types of the fields of a variant, in declaration order.
pub open spec fn field_type_texts(fields: Fields) -> Seq<Seq<char>> {
    match fields {
        Fields::Named(fs) => named_field_type_texts(fs@),
        Fields::Unnamed(ts) => type_texts(ts),
        Fields::Unit => Seq::empty(),
    }
}

/// The match pattern of the variant `v` of the enumeration `enum_name`.
pub open spec fn variant_pattern(
    enum_name: Seq<char>,
    v: VariantDescriptor,
    base: Option<Seq<char>>,
) -> MatchPatternView {
    MatchPatternView {
        variant_id: v.name@,
        match_pattern: enum_name + "::"@ + v.name@ + fields_pattern(v.fields, base),
        num_args: arity(v.fields),
        named_args: introduced_names(v.fields, base),
        arg_types: field_type_texts(v.fields),
    }
}

/// For each variant, the first of its field types that cannot be rendered.
pub open spec fn variant_errors(variants: Seq<VariantDescriptor>) -> Seq<Option<GenError>> {
    Seq::new(variants.len(), |i: int| variant_error(variants[i]))
}

/// The first field type among all variants that cannot be rendered.
pub open spec fn patterns_error(variants: Seq<VariantDescriptor>) -> Option<GenError> {
    first_some(variant_errors(variants))
}

/// The match patterns of all variants, in declaration order.
pub open spec fn variant_patterns(
    enum_name: Seq<char>,
    variants: Seq<VariantDescriptor>,
    base: Option<Seq<char>>,
) -> Seq<MatchPatternView> {
    Seq::new(variants.len(), |i: int| variant_pattern(enum_name, variants[i], base))
}

/// The views of a row of match patterns.
pub open spec fn pattern_views(patterns: Seq<MatchPattern>) -> Seq<MatchPatternView> {
    Seq::new(patterns.len(), |i: int| patterns[i]@)
}

/// The name to bind the next field to, and the index moved on by one where
/// a name was made from it.
pub fn generate_varname(var_index: &mut usize, patvar_name: Option<&String>) -> (name: String)
    requires
        patvar_name is Some ==> *old(var_index) < usize::MAX,
    ensures
        name@ == binding_name(base_view(patvar_name), *old(var_index) as nat),
        patvar_name is Some ==> *final(var_index) == *old(var_index) + 1,
        patvar_name is None ==> *final(var_index) == *old(var_index),
{
    match patvar_name {
        None => String::from_str("_"),
        Some(v) => {
            let mut s = v.clone();
            push_decimal(&mut s, *var_index);
            *var_index = *var_index + 1;
            s
        },
    }
}

/// Builds the match pattern of one variant.
pub fn variant_match_pattern(
    enum_name: &String,
    variant: &VariantDescriptor,
    patvar_name: Option<&String>,
) -> (r: Result<MatchPattern, GenError>)
    ensures
        match r {
            Ok(p) => variant_error(*variant) is None && p@ == variant_pattern(
                enum_name@,
                *variant,
                base_view(patvar_name),
            ),
            Err(e) => variant_error(*variant) == Some(e),
        },
{
    let ghost base = base_view(patvar_name);
    let mut var_index: usize = 0;
    let mut pattern = enum_name.clone();
    pattern.append("::");
    pattern.append(variant.name.as_str());
    let num_vars: usize;
    let mut named_vars: Vec<String> = Vec::new();
    let vartypes: Vec<String>;
    match &variant.fields {
        Fields::Named(fields) => {
            let mut fields_pats: Vec<String> = Vec::new();
            let mut i: usize = 0;
            while i < fields.len()
                invariant
                    i <= fields.len(),
                    base == base_view(patvar_name),
                    patvar_name is Some ==> var_index == i,
                    fields_pats@.len() == i,
                    patvar_name is Some ==> named_vars@.len() == i,
                    patvar_name is None ==> named_vars@.len() == 0,
                    forall|j: int|
                        0 <= j < i ==> fields_pats@[j]@ == (#[trigger] fields@[j]).name@ + ":"@
                            + binding_name(base, j as nat),
                    patvar_name is Some ==> forall|j: int|
                        0 <= j < i ==> (#[trigger] named_vars@[j])@ == binding_name(base, j as nat),
                decreases fields.len() - i,
            {
                let var = generate_varname(&mut var_index, patvar_name);
                let mut field = fields[i].name.clone();
                field.append(":");
                field.append(var.as_str());
                fields_pats.push(field);
                if patvar_name.is_some() {
                    named_vars.push(var);
                }
                i = i + 1;
            }
            num_vars = fields.len();
            let mut types: Vec<String> = Vec::new();
            let mut k: usize = 0;
            while k < fields.len()
                invariant
                    k <= fields.len(),
                    variant.fields == Fields::Named(*fields),
                    types@.len() == k,
                    forall|j: int|
                        0 <= j < k ==> type_error((#[trigger] fields@[j]).ty) is None
                            && types@[j]@ == type_text(fields@[j].ty),
                decreases fields.len() - k,
            {
                match type_to_string(&fields[k].ty) {
                    Ok(t) => {
                        types.push(t);
                    },
                    Err(e) => {
                        proof {
                            lemma_first_some_at(named_field_type_errors(fields@), k as int);
                        }
                        return Err(e);
                    },
                }
                k = k + 1;
            }
            vartypes = types;
            pattern.append("{ ");
            pattern.append(join_strings(&fields_pats, ", ").as_str());
            pattern.append(" }");
            proof {
                lemma_first_some_none(named_field_type_errors(fields@));
                assert(views(vartypes@) =~= named_field_type_texts(fields@));
                assert(views(fields_pats@) =~= named_field_patterns(fields@, base));
                assert(views(named_vars@) =~= introduced_names(variant.fields, base));
                assert(pattern@ =~= enum_name@ + "::"@ + variant.name@ + fields_pattern(
                    variant.fields,
                    base,
                ));
            }
        },
        Fields::Unnamed(fields) => {
            let mut fields_pats: Vec<String> = Vec::new();
            let mut i: usize = 0;
            while i < fields.len()
                invariant
                    i <= fields.len(),
                    base == base_view(patvar_name),
                    patvar_name is Some ==> var_index == i,
                    fields_pats@.len() == i,
                    patvar_name is Some ==> named_vars@.len() == i,
                    patvar_name is None ==> named_vars@.len() == 0,
                    forall|j: int|
                        0 <= j < i ==> (#[trigger] fields_pats@[j])@ == binding_name(
                            base,
                            j as nat,
                        ),
                    patvar_name is Some ==> forall|j: int|
                        0 <= j < i ==> (#[trigger] named_vars@[j])@ == binding_name(base, j as nat),
                decreases fields.len() - i,
            {
                let var = generate_varname(&mut var_index, patvar_name);
                fields_pats.push(var.clone());
                if patvar_name.is_some() {
                    named_vars.push(var);
                }
                i = i + 1;
            }
            num_vars = fields.len();
            vartypes = types_to_strings(fields)?;
            pattern.append("(");
            pattern.append(join_strings(&fields_pats, ", ").as_str());
            pattern.append(")");
            proof {
                assert(views(fields_pats@) =~= binding_names(base, fields@.len() as nat));
                assert(views(named_vars@) =~= introduced_names(variant.fields, base));
                assert(pattern@ =~= enum_name@ + "::"@ + variant.name@ + fields_pattern(
                    variant.fields,
                    base,
                ));
            }
        },
        Fields::Unit => {
            num_vars = 0;
            vartypes = Vec::new();
            proof {
                assert(views(vartypes@) =~= Seq::<Seq<char>>::empty());
                assert(views(named_vars@) =~= introduced_names(variant.fields, base));
            }
        },
    }
    Ok(
        MatchPattern {
            variant_id: variant.name.clone(),
            match_pattern: pattern,
            num_args: num_vars,
            named_args: named_vars,
            arg_types: vartypes,
        },
    )
}

/// Builds the match patterns of the variants of the enumeration
/// `enum_name`, in declaration order. `patvar_name` is the base name of the
/// variables that the patterns bind, numbered from zero in each pattern;
/// without it the fields are matched by `_`.
pub fn generate_variant_match_patterns(
    enum_name: &String,
    variants: &Vec<VariantDescriptor>,
    patvar_name: Option<&String>,
) -> (r: Result<Vec<MatchPattern>, GenError>)
    ensures
        match r {
            Ok(patterns) => patterns_error(variants@) is None && pattern_views(patterns@)
                == variant_patterns(enum_name@, variants@, base_view(patvar_name)),
            Err(e) => patterns_error(variants@) == Some(e),
        },
{
    let mut patterns: Vec<MatchPattern> = Vec::new();
    let mut i: usize = 0;
    while i < variants.len()
        invariant
            i <= variants.len(),
            patterns@.len() == i,
            forall|j: int|
                0 <= j < i ==> variant_error(#[trigger] variants@[j]) is None && patterns@[j]@
                    == variant_pattern(enum_name@, variants@[j], base_view(patvar_name)),
        decreases variants.len() - i,
    {
        match variant_match_pattern(enum_name, &variants[i], patvar_name) {
            Ok(p) => {
                patterns.push(p);
            },
            Err(e) => {
                proof {
                    lemma_first_some_at(variant_errors(variants@), i as int);
                }
                return Err(e);
            },
        }
        i = i + 1;
    }
    proof {
        lemma_first_some_none(variant_errors(variants@));
    }
    Ok(patterns)
}

} // verus!
