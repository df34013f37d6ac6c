//! The generated code, stated as sequences of tokens.
//!
//! For an enum `E` with the variants `A(X)` and `B(Y)` the derive writes
//! three impls of `FromIterator`, which collect values of `E`, `&E` and
//! `&mut E` into `(Vec<X>, Vec<Y>,)`, `(Vec<&X>, Vec<&Y>,)` and
//! `(Vec<&mut X>, Vec<&mut Y>,)`, and three impls of `Separable`, which
//! name those tuples as the targets of `E`, `&E` and `&mut E`.

use crate::names::collection_text;
use crate::tokens::{group, Delim, Spacing, Tok};
use vstd::prelude::*;

verus! {

/// A variant as the generated code names it: the tokens of its name and of
/// the type of its one field.
pub struct Arm {
    pub variant: Seq<Tok>,
    pub payload: Seq<Tok>,
}

/// How the collected values are held: themselves, or behind a shared or an
/// exclusive reference.
#[derive(Clone, Copy, Debug, PartialEq, Eq, Structural)]
pub enum Flavour {
    Owned,
    Shared,
    Exclusive,
}

/// One word.
pub open spec fn word(text: &str) -> Seq<Tok> {
    seq![Tok::Word(text@)]
}

/// One punctuation character that ends its operator.
pub open spec fn punct(ch: char) -> Seq<Tok> {
    seq![Tok::Punct(ch, Spacing::Alone)]
}

/// One punctuation character that the next one continues.
pub open spec fn joint(ch: char) -> Seq<Tok> {
    seq![Tok::Punct(ch, Spacing::Joint)]
}

/// `::`
pub open spec fn path_sep() -> Seq<Tok> {
    joint(':') + punct(':')
}

/// `'a`
pub open spec fn lifetime() -> Seq<Tok> {
    joint('\'') + word("a")
}

/// Nothing, `&'a` or `&'a mut`.
pub open spec fn borrow(flavour: Flavour) -> Seq<Tok> {
    match flavour {
        Flavour::Owned => Seq::empty(),
        Flavour::Shared => punct('&') + lifetime(),
        Flavour::Exclusive => punct('&') + lifetime() + word("mut"),
    }
}

/// The generic parameters of an impl: none, or `<'a>`.
pub open spec fn generics(flavour: Flavour) -> Seq<Tok> {
    match flavour {
        Flavour::Owned => Seq::empty(),
        _ => punct('<') + lifetime() + punct('>'),
    }
}

/// The type of the collected values: `E`, `&'a E` or `&'a mut E`.
pub open spec fn item(flavour: Flavour, name: Seq<Tok>) -> Seq<Tok> {
    borrow(flavour) + name
}

/// `Vec<X>`, `Vec<&'a X>` or `Vec<&'a mut X>`.
pub open spec fn vec_of(flavour: Flavour, payload: Seq<Tok>) -> Seq<Tok> {
    word("Vec") + punct('<') + borrow(flavour) + payload + punct('>')
}

/// The parts in their order, with the separator between each two.
pub open spec fn joined(parts: Seq<Seq<Tok>>, separator: Seq<Tok>) -> Seq<Tok>
    decreases parts.len(),
{
    if parts.len() == 0 {
        Seq::empty()
    } else if parts.len() == 1 {
        parts[0]
    } else {
        joined(parts.drop_last(), separator) + separator + parts.last()
    }
}

/// One part more makes the joined parts longer by the separator, unless the
/// part is the first, and by the part.
pub proof fn lemma_joined_step(parts: Seq<Seq<Tok>>, separator: Seq<Tok>, k: int)
    requires
        0 <= k < parts.len(),
    ensures
        joined(parts.take(k + 1), separator) == if k == 0 {
            parts[k]
        } else {
            joined(parts.take(k), separator) + separator + parts[k]
        },
{
    assert(parts.take(k + 1).drop_last() =~= parts.take(k));
    assert(parts.take(k + 1).last() == parts[k]);
}

/// The sequence types of the variants, one for each.
pub open spec fn vec_types(flavour: Flavour, arms: Seq<Arm>) -> Seq<Seq<Tok>> {
    Seq::new(arms.len(), |k: int| vec_of(flavour, arms[k].payload))
}

/// The tuple of the sequence types: `(Vec<X>, Vec<Y>,)`.
pub open spec fn target(flavour: Flavour, arms: Seq<Arm>) -> Seq<Tok> {
    group(Delim::Parenthesis, joined(vec_types(flavour, arms), punct(',')) + punct(','))
}

/// The name of the local sequence for the variant at `index`.
pub open spec fn collection(index: int) -> Seq<Tok> {
    seq![Tok::Word(collection_text(index as nat))]
}

/// `let mut collection_0 = Vec::new();`
pub open spec fn creation(index: int) -> Seq<Tok> {
    word("let") + word("mut") + collection(index) + punct('=') + word("Vec") + path_sep() + word(
        "new",
    ) + group(Delim::Parenthesis, Seq::empty()) + punct(';')
}

/// `E::A(v) => collection_0.push(v)`
pub open spec fn match_arm(name: Seq<Tok>, variant: Seq<Tok>, index: int) -> Seq<Tok> {
    name + path_sep() + variant + group(Delim::Parenthesis, word("v")) + joint('=') + punct('>')
        + collection(index) + punct('.') + word("push") + group(Delim::Parenthesis, word("v"))
}

/// The statements that create the local sequences, one for each variant.
pub open spec fn creations(count: nat) -> Seq<Seq<Tok>> {
    Seq::new(count, |k: int| creation(k))
}

/// The arms of the `match`, one for each variant.
pub open spec fn match_arms(name: Seq<Tok>, arms: Seq<Arm>) -> Seq<Seq<Tok>> {
    Seq::new(arms.len(), |k: int| match_arm(name, arms[k].variant, k))
}

/// The names of the local sequences, one for each variant.
pub open spec fn collections(count: nat) -> Seq<Seq<Tok>> {
    Seq::new(count, |k: int| collection(k))
}

/// `for i in iter { match i { .. } }`
pub open spec fn distribution(name: Seq<Tok>, arms: Seq<Arm>) -> Seq<Tok> {
    word("for") + word("i") + word("in") + word("iter") + group(
        Delim::Brace,
        word("match") + word("i") + group(Delim::Brace, joined(match_arms(name, arms), punct(','))),
    )
}

/// The body of `from_iter`: the local sequences are created, each value
/// goes to the one of its variant, and the tuple of them is the result.
pub open spec fn body(name: Seq<Tok>, arms: Seq<Arm>) -> Seq<Tok> {
    joined(creations(arms.len()), punct(';')) + distribution(name, arms) + group(
        Delim::Parenthesis,
        joined(collections(arms.len()), punct(',')) + punct(','),
    )
}

/// `<I: IntoIterator<Item = E>>`
pub open spec fn iterator_parameter(flavour: Flavour, name: Seq<Tok>) -> Seq<Tok> {
    punct('<') + word("I") + punct(':') + word("IntoIterator") + punct('<') + word("Item")
        + punct('=') + item(flavour, name) + joint('>') + punct('>')
}

/// `fn from_iter<I: IntoIterator<Item = E>>(iter: I) -> Self { .. }`
pub open spec fn from_iter_fn(flavour: Flavour, name: Seq<Tok>, arms: Seq<Arm>) -> Seq<Tok> {
    word("fn") + word("from_iter") + iterator_parameter(flavour, name) + group(
        Delim::Parenthesis,
        word("iter") + punct(':') + word("I"),
    ) + joint('-') + punct('>') + word("Self") + group(Delim::Brace, body(name, arms))
}

/// `impl FromIterator<E> for (Vec<X>, Vec<Y>,) { .. }`
pub open spec fn from_iterator_impl(flavour: Flavour, name: Seq<Tok>, arms: Seq<Arm>) -> Seq<
    Tok,
> {
    word("impl") + generics(flavour) + word("FromIterator") + punct('<') + item(flavour, name)
        + punct('>') + word("for") + target(flavour, arms) + group(
        Delim::Brace,
        from_iter_fn(flavour, name, arms),
    )
}

/// `impl separable::Separable for E { type Target = (Vec<X>, Vec<Y>,); }`
pub open spec fn separable_impl(flavour: Flavour, name: Seq<Tok>, arms: Seq<Arm>) -> Seq<Tok> {
    word("impl") + generics(flavour) + word("separable") + path_sep() + word("Separable") + word(
        "for",
    ) + item(flavour, name) + group(
        Delim::Brace,
        word("type") + word("Target") + punct('=') + target(flavour, arms) + punct(';'),
    )
}

/// All that the derive generates for an enum with the given name and
/// variants.
pub open spec fn expansion(name: Seq<Tok>, arms: Seq<Arm>) -> Seq<Tok> {
    from_iterator_impl(Flavour::Owned, name, arms) + from_iterator_impl(
        Flavour::Shared,
        name,
        arms,
    ) + from_iterator_impl(Flavour::Exclusive, name, arms) + separable_impl(
        Flavour::Owned,
        name,
        arms,
    ) + separable_impl(Flavour::Shared, name, arms) + separable_impl(
        Flavour::Exclusive,
        name,
        arms,
    )
}

} // verus!
