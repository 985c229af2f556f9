//! The message of a failure: it names the form that was refused, and for a
//! derivation asked of the wrong kind of declaration, the derivation.

use crate::ast::{DeclKind, Form, GenError, TypeForm};
use vstd::prelude::*;
use vstd::string::StringExecFns;

verus! {

/// The name of a type shape; none for a shape that has no name.
pub open spec fn type_form_name(form: TypeForm) -> Seq<char> {
    match form {
        TypeForm::BareFn => "BareFn"@,
        TypeForm::Group => "Group"@,
        TypeForm::ImplTrait => "ImplTrait"@,
        TypeForm::Infer => "Infer"@,
        TypeForm::Macro => "Macro"@,
        TypeForm::Never => "Never"@,
        TypeForm::Paren => "Paren"@,
        TypeForm::Ptr => "Ptr"@,
        TypeForm::TraitObject => "TraitObject"@,
        TypeForm::Verbatim => "Verbatim"@,
        TypeForm::Unknown => Seq::empty(),
    }
}

/// What a construct without a rendering is called.
pub open spec fn form_name(form: Form) -> Seq<char> {
    match form {
        Form::ByteStrLiteral => "byte string literal"@,
        Form::VerbatimLiteral => "verbatim literal"@,
        Form::NonLiteralExpr => "expression that is not a literal"@,
        Form::ParenthesizedArguments => "parenthesized path arguments"@,
        Form::QualifiedSelf => "path with a qualified self type"@,
        Form::TraitBoundModifier => "trait bound with a modifier"@,
        Form::HigherRankedLifetimes => "bound with higher-ranked lifetimes"@,
    }
}

/// What the declarations of a kind are called.
pub open spec fn decl_kind_name(kind: DeclKind) -> Seq<char> {
    match kind {
        DeclKind::Struct => "structs"@,
        DeclKind::Union => "unions"@,
    }
}

/// The message of the failure `error` of the macro `macro_name`.
pub open spec fn message_text(error: GenError, macro_name: Seq<char>) -> Seq<char> {
    match error {
        GenError::UnsupportedTypeForm(form) => if form is Unknown {
            "type_to_string: unexpected type"@
        } else {
            "type_to_string: unexpected type: "@ + type_form_name(form)
        },
        GenError::UnsupportedGenericConstParam => "not implemented: const generic parameter"@,
        GenError::Unimplemented(form) => "not implemented: "@ + form_name(form),
        GenError::WrongDeclarationKind(kind) => macro_name + " macro can not be called on "@
            + decl_kind_name(kind),
        GenError::MalformedInvocation =>
            "generate_index_type: invalid parameters: should receive exactly one identifier"@,
    }
}

fn type_form_to_str(form: TypeForm) -> (out: &'static str)
    ensures
        out@ == type_form_name(form),
{
    match form {
        TypeForm::BareFn => "BareFn",
        TypeForm::Group => "Group",
        TypeForm::ImplTrait => "ImplTrait",
        TypeForm::Infer => "Infer",
        TypeForm::Macro => "Macro",
        TypeForm::Never => "Never",
        TypeForm::Paren => "Paren",
        TypeForm::Ptr => "Ptr",
        TypeForm::TraitObject => "TraitObject",
        TypeForm::Verbatim => "Verbatim",
        TypeForm::Unknown => {
            proof {
                reveal_strlit("");
            }
            ""
        },
    }
}

fn form_to_str(form: Form) -> (out: &'static str)
    ensures
        out@ == form_name(form),
{
    match form {
        Form::ByteStrLiteral => "byte string literal",
        Form::VerbatimLiteral => "verbatim literal",
        Form::NonLiteralExpr => "expression that is not a literal",
        Form::ParenthesizedArguments => "parenthesized path arguments",
        Form::QualifiedSelf => "path with a qualified self type",
        Form::TraitBoundModifier => "trait bound with a modifier",
        Form::HigherRankedLifetimes => "bound with higher-ranked lifetimes",
    }
}

/// The message of a failure. `macro_name` is the name of the macro that
/// failed; only the message of a wrong kind of declaration holds it.
pub fn message(error: GenError, macro_name: &str) -> (out: String)
    ensures
        out@ == message_text(error, macro_name@),
{
    match error {
        GenError::UnsupportedTypeForm(form) => {
            match form {
                TypeForm::Unknown => String::from_str("type_to_string: unexpected type"),
                _ => {
                    let mut out = String::from_str("type_to_string: unexpected type: ");
                    out.append(type_form_to_str(form));
                    out
                },
            }
        },
        GenError::UnsupportedGenericConstParam => String::from_str(
            "not implemented: const generic parameter",
        ),
        GenError::Unimplemented(form) => {
            let mut out = String::from_str("not implemented: ");
            out.append(form_to_str(form));
            out
        },
        GenError::WrongDeclarationKind(kind) => {
            let mut out = String::from_str(macro_name);
            out.append(" macro can not be called on ");
            match kind {
                DeclKind::Struct => out.append("structs"),
                DeclKind::Union => out.append("unions"),
            }
            out
        },
        GenError::MalformedInvocation => String::from_str(
            "generate_index_type: invalid parameters: should receive exactly one identifier",
        ),
    }
}

} // verus!
