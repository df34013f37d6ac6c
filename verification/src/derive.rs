//! The expansion of the derive: a declaration in, generated code or a
//! diagnostic out.

use crate::emit::expand;
use crate::error::DeriveError;
use crate::input::{all_accepted, arms, first_fault, Data, Fields, Input, Variant};
use crate::tokens::tokens;
use proc_macro2::TokenStream;
use vstd::prelude::*;

verus! {

/// The type of the one field of each variant, in the order of the variants;
/// or the diagnostic for the first variant that is no tuple variant with
/// exactly one field.
pub fn payload_types(variants: &Vec<Variant>) -> (r: Result<Vec<&TokenStream>, DeriveError>)
    ensures
        match r {
            Ok(types) => {
                &&& all_accepted(variants@)
                &&& types@.len() == variants@.len()
                &&& forall|k: int|
                    0 <= k < types@.len() ==> Some(*#[trigger] types@[k]) == variants@[k].payload()
            },
            Err(e) => exists|at: int|
                {
                    &&& #[trigger] first_fault(variants@, at)
                    &&& e.span == variants@[at].fault_span()
                    &&& e.kind.text() == variants@[at].fault_text()
                },
        },
{
    let mut types: Vec<&TokenStream> = Vec::new();
    let mut k: usize = 0;
    while k < variants.len()
        invariant
            k <= variants@.len(),
            types@.len() == k,
            forall|j: int| 0 <= j < k ==> (#[trigger] variants@[j]).accepted(),
            forall|j: int| 0 <= j < k ==> Some(*#[trigger] types@[j]) == variants@[j].payload(),
        decreases variants@.len() - k,
    {
        let variant = &variants[k];
        match &variant.fields {
            Fields::Unnamed { types: listed, span } => {
                if listed.len() != 1 {
                    let e = DeriveError::custom(
                        "tupple variants may contain only 1 element",
                        *span,
                    );
                    assert(first_fault(variants@, k as int));
                    return Err(e);
                }
                types.push(&listed[0]);
            },
            _ => {
                let e = DeriveError::custom(
                    "unsupported variant, this macro only works with unnamed single-value tuple variants",
                    variant.span,
                );
                assert(first_fault(variants@, k as int));
                return Err(e);
            },
        }
        k += 1;
    }
    Ok(types)
}

/// Expands the derive for a declaration.
///
/// An enum without generic parameters that has a variant, and whose
/// variants are all tuple variants with exactly one field, gets the
/// generated impls. Any other declaration gets the diagnostic that is owed
/// for it: a struct or a union the one at its keyword; an enum with a
/// variant of another shape the one of its first such variant; an enum with
/// variants of that shape only the one at its first generic parameter, if
/// it has any, and else the one at its keyword, if it has no variant.
pub fn separable_derive_wrapper(input: Input) -> (r: Result<TokenStream, DeriveError>)
    ensures
        match r {
            Ok(stream) => {
                &&& input.accepted()
                &&& tokens(stream) == input.expansion()
            },
            Err(e) => !input.accepted() && input.rejected_with(e.span, e.kind.text()),
        },
{
    match &input.data {
        Data::Enum { span, variants } => {
            match payload_types(variants) {
                Ok(types) => {
                    if input.parameters.len() > 0 {
                        return Err(
                            DeriveError::custom(
                                "derive macro works only with enums without generic parameters",
                                input.parameters[0],
                            ),
                        );
                    }
                    if variants.len() == 0 {
                        return Err(
                            DeriveError::custom(
                                "derive macro works only with enums with at least one variant",
                                *span,
                            ),
                        );
                    }
                    let ghost named = arms(variants@);
                    Ok(expand(&input.ident, variants, &types, Ghost(named)))
                },
                Err(e) => {
                    assert(!all_accepted(variants@));
                    Err(e)
                },
            }
        },
        Data::Struct { span } => Err(
            DeriveError::custom("derive macro works only with enums", *span),
        ),
        Data::Union { span } => Err(
            DeriveError::custom("derive macro works only with enums", *span),
        ),
    }
}

} // verus!
