//! The declaration that a derive is asked to expand, as far as the
//! expansion reads it.

use crate::template::{expansion, Arm};
use crate::tokens::{tokens, Tok};
use proc_macro2::{Span, TokenStream};
use vstd::prelude::*;

verus! {

/// The fields of one variant.
pub enum Fields {
    /// Fields with names, in braces.
    Named,
    /// Fields without names, in parentheses: the type of each, and the place
    /// of the whole list.
    Unnamed { types: Vec<TokenStream>, span: Span },
    /// No fields at all.
    Unit,
}

/// One variant of an enum: its name, where the name stands, and its fields.
pub struct Variant {
    pub ident: TokenStream,
    pub span: Span,
    pub fields: Fields,
}

/// What kind of type a declaration declares.
pub enum Data {
    /// A struct, with the place of its `struct` keyword.
    Struct { span: Span },
    /// An enum, with the place of its `enum` keyword and its variants in
    /// their order.
    Enum { span: Span, variants: Vec<Variant> },
    /// A union, with the place of its `union` keyword.
    Union { span: Span },
}

/// A type declaration: its name, the place of each of its generic
/// parameters in their order, and what it declares.
pub struct Input {
    pub ident: TokenStream,
    pub parameters: Vec<Span>,
    pub data: Data,
}

/// The message for a declaration that is no enum.
pub open spec fn not_an_enum() -> Seq<char> {
    "derive macro works only with enums"@
}

/// The message for an enum with generic parameters. The generated impls
/// name the enum alone, which is no type where it has parameters.
pub open spec fn not_without_parameters() -> Seq<char> {
    "derive macro works only with enums without generic parameters"@
}

/// The message for an enum without variants. The tuple of no sequences
/// cannot be written the way the generated code writes its tuples.
pub open spec fn not_one_variant() -> Seq<char> {
    "derive macro works only with enums with at least one variant"@
}

/// The message for a tuple variant with no field or with several.
pub open spec fn not_one_field() -> Seq<char> {
    "tupple variants may contain only 1 element"@
}

/// The message for a variant that is no tuple variant.
pub open spec fn not_a_tuple() -> Seq<char> {
    "unsupported variant, this macro only works with unnamed single-value tuple variants"@
}

impl Variant {
    /// The type of the variant's field, where it is a tuple variant with
    /// exactly one.
    pub open spec fn payload(self) -> Option<TokenStream> {
        match self.fields {
            Fields::Unnamed { types, span } => if types@.len() == 1 {
                Some(types@[0])
            } else {
                None
            },
            _ => None,
        }
    }

    /// Whether the derive takes this variant.
    pub open spec fn accepted(self) -> bool {
        self.payload() is Some
    }

    /// Where the diagnostic for this variant points, if it is not accepted:
    /// at the list of fields of a tuple variant, at the name of any other.
    pub open spec fn fault_span(self) -> Span {
        match self.fields {
            Fields::Unnamed { types, span } => span,
            _ => self.span,
        }
    }

    /// What the diagnostic for this variant says, if it is not accepted.
    pub open spec fn fault_text(self) -> Seq<char> {
        match self.fields {
            Fields::Unnamed { types, span } => not_one_field(),
            _ => not_a_tuple(),
        }
    }

    /// The variant as the generated code names it.
    pub open spec fn arm(self) -> Arm
        recommends
            self.accepted(),
    {
        Arm { variant: tokens(self.ident), payload: tokens(self.payload().unwrap()) }
    }
}

/// Whether the derive takes every one of the variants.
pub open spec fn all_accepted(variants: Seq<Variant>) -> bool {
    forall|k: int| 0 <= k < variants.len() ==> (#[trigger] variants[k]).accepted()
}

/// Whether `at` is the first of the variants that the derive does not take.
pub open spec fn first_fault(variants: Seq<Variant>, at: int) -> bool {
    &&& 0 <= at < variants.len()
    &&& !variants[at].accepted()
    &&& forall|k: int| 0 <= k < at ==> (#[trigger] variants[k]).accepted()
}

/// The variants as the generated code names them, in their order.
pub open spec fn arms(variants: Seq<Variant>) -> Seq<Arm>
    recommends
        all_accepted(variants),
{
    Seq::new(variants.len(), |k: int| variants[k].arm())
}

impl Input {
    /// Whether the derive takes this declaration: an enum without generic
    /// parameters that has a variant, and whose variants are all tuple
    /// variants with one field.
    pub open spec fn accepted(self) -> bool {
        match self.data {
            Data::Enum { span, variants } => {
                &&& self.parameters@.len() == 0
                &&& variants@.len() > 0
                &&& all_accepted(variants@)
            },
            _ => false,
        }
    }

    /// The code that the derive generates for this declaration.
    pub open spec fn expansion(self) -> Seq<Tok>
        recommends
            self.accepted(),
    {
        match self.data {
            Data::Enum { span, variants } => expansion(tokens(self.ident), arms(variants@)),
            _ => Seq::empty(),
        }
    }

    /// Whether a diagnostic at `span` that says `text` is the one owed for
    /// this declaration. A struct or a union has the one at its keyword. An
    /// enum with a variant that is not accepted has the one of the first
    /// such variant, whatever else holds of it. An enum whose variants are
    /// all accepted has the one at its first generic parameter, if it has
    /// parameters, and else the one at its keyword, if it has no variant.
    pub open spec fn rejected_with(self, span: Span, text: Seq<char>) -> bool {
        match self.data {
            Data::Struct { span: keyword } => span == keyword && text == not_an_enum(),
            Data::Union { span: keyword } => span == keyword && text == not_an_enum(),
            Data::Enum { span: keyword, variants } => if !all_accepted(variants@) {
                exists|at: int|
                    {
                        &&& #[trigger] first_fault(variants@, at)
                        &&& span == variants@[at].fault_span()
                        &&& text == variants@[at].fault_text()
                    }
            } else if self.parameters@.len() > 0 {
                span == self.parameters@[0] && text == not_without_parameters()
            } else {
                variants@.len() == 0 && span == keyword && text == not_one_variant()
            },
        }
    }
}

/// Where a variant is not accepted, one of the variants up to it is the
/// first that is not.
pub proof fn lemma_first_fault_up_to(variants: Seq<Variant>, bound: int)
    requires
        0 <= bound < variants.len(),
        !variants[bound].accepted(),
    ensures
        exists|at: int| 0 <= at <= bound && #[trigger] first_fault(variants, at),
    decreases bound,
{
    if forall|k: int| 0 <= k < bound ==> (#[trigger] variants[k]).accepted() {
        assert(first_fault(variants, bound));
    } else {
        let k = choose|k: int| 0 <= k < bound && !(#[trigger] variants[k]).accepted();
        lemma_first_fault_up_to(variants, k);
    }
}

/// At most one of the variants is the first that is not accepted.
pub proof fn lemma_first_fault_is_unique(variants: Seq<Variant>, at: int, other: int)
    requires
        first_fault(variants, at),
        first_fault(variants, other),
    ensures
        at == other,
{
}

/// A declaration is rejected with some diagnostic exactly if it is not
/// accepted.
pub proof fn lemma_rejected_unless_accepted(input: Input)
    ensures
        input.accepted() <==> !exists|span: Span, text: Seq<char>|
            input.rejected_with(span, text),
{
    match input.data {
        Data::Struct { span } => {
            assert(input.rejected_with(span, not_an_enum()));
        },
        Data::Union { span } => {
            assert(input.rejected_with(span, not_an_enum()));
        },
        Data::Enum { span, variants } => {
            if !all_accepted(variants@) {
                let k = choose|k: int|
                    0 <= k < variants@.len() && !(#[trigger] variants@[k]).accepted();
                lemma_first_fault_up_to(variants@, k);
                let at = choose|at: int| 0 <= at <= k && #[trigger] first_fault(variants@, at);
                assert(input.rejected_with(variants@[at].fault_span(), variants@[at].fault_text()));
            } else if input.parameters@.len() > 0 {
                assert(input.rejected_with(input.parameters@[0], not_without_parameters()));
            } else if variants@.len() == 0 {
                assert(input.rejected_with(span, not_one_variant()));
            }
        },
    }
}

/// The diagnostic for a rejected declaration is determined: any two that
/// are owed for it point at the same place and say the same.
pub proof fn lemma_diagnostic_is_determined(
    input: Input,
    span: Span,
    text: Seq<char>,
    other_span: Span,
    other_text: Seq<char>,
)
    requires
        input.rejected_with(span, text),
        input.rejected_with(other_span, other_text),
    ensures
        span == other_span,
        text == other_text,
{
    match input.data {
        Data::Enum { span: keyword, variants } => {
            if !all_accepted(variants@) {
                let at = choose|at: int|
                    {
                        &&& #[trigger] first_fault(variants@, at)
                        &&& span == variants@[at].fault_span()
                        &&& text == variants@[at].fault_text()
                    };
                let other = choose|at: int|
                    {
                        &&& #[trigger] first_fault(variants@, at)
                        &&& other_span == variants@[at].fault_span()
                        &&& other_text == variants@[at].fault_text()
                    };
                lemma_first_fault_is_unique(variants@, at, other);
            }
        },
        _ => {},
    }
}

/// An enum with a variant that is not accepted is rejected with the
/// diagnostic of the first such variant, whether or not it has generic
/// parameters.
pub proof fn lemma_variant_fault_comes_first(
    input: Input,
    at: int,
    span: Span,
    text: Seq<char>,
)
    requires
        input.data is Enum,
        first_fault(input.data->variants@, at),
        input.rejected_with(span, text),
    ensures
        span == input.data->variants@[at].fault_span(),
        text == input.data->variants@[at].fault_text(),
{
    let variants = input.data->variants@;
    assert(!variants[at].accepted());
    let other = choose|other: int|
        {
            &&& #[trigger] first_fault(variants, other)
            &&& span == variants[other].fault_span()
            &&& text == variants[other].fault_text()
        };
    lemma_first_fault_is_unique(variants, at, other);
}

} // verus!
