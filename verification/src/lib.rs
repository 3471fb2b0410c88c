//! Derivation of a conversion from a string-keyed mapping into a struct with
//! named fields.
//!
//! The derivation has two stages. [`field::parse_fields`] classifies the
//! fields of a declaration: each becomes a plan that says under which key the
//! field is looked up, whether it may be absent, and how its raw string is
//! decoded. [`generation::generate_from_impl`] then writes the conversion
//! routine from the plans.
//!
//! [`conversion::convert`] states what the routine does when it runs, and the
//! proof functions beside it state what follows for every mapping and every
//! decoder.
use vstd::prelude::*;
use vstd::string::StringExecFns;
use crate::descriptor::{DataView, FieldsView, TypeDescriptor, TypeDescriptorView};
use crate::field::{classify, parse_fields, UnsupportedShape};
use crate::generation::{generate_from_impl, impl_text};

pub mod descriptor;
pub mod field;
pub mod generation;
pub mod conversion;

verus! {

/// The conversion routine derived for a declaration, or the reason why the
/// declaration is rejected.
pub open spec fn derived_impl(input: TypeDescriptorView) -> Result<Seq<char>, UnsupportedShape> {
    match classify(input) {
        Ok(fields) => Ok(impl_text(input.ident, fields)),
        Err(e) => Err(e),
    }
}

/// The source text that reports `message` as a compile-time error.
pub open spec fn compile_error_text(message: Seq<char>) -> Seq<char> {
    "::core::compile_error! { \""@ + message + "\" }\n"@
}

/// The source text that takes the place of the derive request: the conversion
/// routine, or for a rejected declaration the report of the rejection.
pub open spec fn derived_text(input: TypeDescriptorView) -> Seq<char> {
    match derived_impl(input) {
        Ok(text) => text,
        Err(e) => compile_error_text(e.message_text()),
    }
}

/// Derives the conversion routine for a declaration.
///
/// A struct with named fields gets its routine; for any other declaration the
/// result is a compile-time error, so that nothing of the rejection is left
/// to run time.
pub fn derive_try_from_map(input: &TypeDescriptor) -> (output: String)
    ensures
        output@ == derived_text(input@),
{
    match _derive_try_from_map(input) {
        Ok(output) => output,
        Err(e) => {
            let message = e.message();
            let mut output = String::from_str("::core::compile_error! { \"");
            output.append(message.as_str());
            output.append("\" }\n");
            output
        },
    }
}

/// Classifies the fields of a declaration and writes its conversion routine,
/// or gives the reason why the declaration is rejected.
pub fn _derive_try_from_map(parsed: &TypeDescriptor) -> (output: Result<String, UnsupportedShape>)
    ensures
        match output {
            Ok(text) => derived_impl(parsed@) == Ok::<Seq<char>, UnsupportedShape>(text@),
            Err(e) => derived_impl(parsed@) == Err::<Seq<char>, UnsupportedShape>(e),
        },
{
    match parse_fields(parsed) {
        Ok(fields) => Ok(generate_from_impl(parsed.ident.as_str(), &fields)),
        Err(e) => Err(e),
    }
}

/// Whether a declaration is a struct with named fields.
pub open spec fn is_named_struct(input: TypeDescriptorView) -> bool {
    input.data matches DataView::Struct(FieldsView::Named(_))
}

/// A struct with named fields gets a routine. Every other declaration is
/// rejected when the routine would be generated: what is derived for it is the
/// report of a compile-time error and no routine.
pub proof fn lemma_only_named_structs_are_accepted(input: TypeDescriptorView)
    ensures
        derived_impl(input) is Ok <==> is_named_struct(input),
        input.data matches DataView::Struct(fields) && !(fields is Named) ==> derived_impl(input)
            == Err::<Seq<char>, UnsupportedShape>(UnsupportedShape::UnnamedFields),
        !(input.data is Struct) ==> derived_impl(input) == Err::<Seq<char>, UnsupportedShape>(
            UnsupportedShape::NotAStruct,
        ),
        !is_named_struct(input) ==> derived_text(input) == compile_error_text(
            derived_impl(input)->Err_0.message_text(),
        ),
{
}

/// Two declarations with the same structure get the same text, character for
/// character.
pub proof fn lemma_derivation_is_deterministic(first: TypeDescriptor, second: TypeDescriptor)
    requires
        first@ == second@,
    ensures
        derived_impl(first@) == derived_impl(second@),
        derived_text(first@) == derived_text(second@),
{
}

} // verus!
