//! Writing the generated code into a token stream.

use crate::input::Variant;
use crate::names::collection_name;
use crate::template::{
    body, borrow, collection, collections, creation, creations, distribution, expansion,
    from_iter_fn, from_iterator_impl, generics, item, iterator_parameter, joined,
    lemma_joined_step, lifetime, match_arm, match_arms, path_sep, punct, separable_impl, target,
    vec_of, vec_types, word, Arm, Flavour,
};
use crate::tokens::{
    call_site, group, new_stream, push_group, push_punct, push_stream, push_word, tokens, Delim,
    Spacing,
};
use proc_macro2::{Span, TokenStream};
use vstd::prelude::*;

verus! {

/// Whether `arms` names the variants with the given payload types.
pub open spec fn describes(
    arms: Seq<Arm>,
    variants: Seq<Variant>,
    types: Seq<&TokenStream>,
) -> bool {
    &&& arms.len() == variants.len()
    &&& arms.len() == types.len()
    &&& forall|k: int|
        0 <= k < arms.len() ==> (#[trigger] arms[k]).variant == tokens(variants[k].ident)
    &&& forall|k: int| 0 <= k < arms.len() ==> (#[trigger] arms[k]).payload == tokens(*types[k])
}

/// `::`
fn emit_path_sep(stream: &mut TokenStream)
    ensures
        tokens(*final(stream)) == tokens(*old(stream)) + path_sep(),
{
    push_punct(stream, ':', Spacing::Joint);
    push_punct(stream, ':', Spacing::Alone);
    assert(tokens(*stream) =~= tokens(*old(stream)) + path_sep());
}

/// `'a`
fn emit_lifetime(stream: &mut TokenStream, span: Span)
    ensures
        tokens(*final(stream)) == tokens(*old(stream)) + lifetime(),
{
    proof {
        reveal_strlit("a");
    }
    push_punct(stream, '\'', Spacing::Joint);
    push_word(stream, "a", span);
    assert(tokens(*stream) =~= tokens(*old(stream)) + lifetime());
}

/// Nothing, `&'a` or `&'a mut`.
fn emit_borrow(stream: &mut TokenStream, flavour: Flavour, span: Span)
    ensures
        tokens(*final(stream)) == tokens(*old(stream)) + borrow(flavour),
{
    proof {
        reveal_strlit("mut");
    }
    match flavour {
        Flavour::Owned => {},
        Flavour::Shared => {
            push_punct(stream, '&', Spacing::Alone);
            emit_lifetime(stream, span);
        },
        Flavour::Exclusive => {
            push_punct(stream, '&', Spacing::Alone);
            emit_lifetime(stream, span);
            push_word(stream, "mut", span);
        },
    }
    assert(tokens(*stream) =~= tokens(*old(stream)) + borrow(flavour));
}

/// The generic parameters of an impl: none, or `<'a>`.
fn emit_generics(stream: &mut TokenStream, flavour: Flavour, span: Span)
    ensures
        tokens(*final(stream)) == tokens(*old(stream)) + generics(flavour),
{
    match flavour {
        Flavour::Owned => {},
        _ => {
            push_punct(stream, '<', Spacing::Alone);
            emit_lifetime(stream, span);
            push_punct(stream, '>', Spacing::Alone);
        },
    }
    assert(tokens(*stream) =~= tokens(*old(stream)) + generics(flavour));
}

/// The type of the collected values.
fn emit_item(stream: &mut TokenStream, flavour: Flavour, name: &TokenStream, span: Span)
    ensures
        tokens(*final(stream)) == tokens(*old(stream)) + item(flavour, tokens(*name)),
{
    emit_borrow(stream, flavour, span);
    push_stream(stream, name);
    assert(tokens(*stream) =~= tokens(*old(stream)) + item(flavour, tokens(*name)));
}

/// The sequence type for one payload type.
fn emit_vec_of(stream: &mut TokenStream, flavour: Flavour, payload: &TokenStream, span: Span)
    ensures
        tokens(*final(stream)) == tokens(*old(stream)) + vec_of(flavour, tokens(*payload)),
{
    proof {
        reveal_strlit("Vec");
    }
    push_word(stream, "Vec", span);
    push_punct(stream, '<', Spacing::Alone);
    emit_borrow(stream, flavour, span);
    push_stream(stream, payload);
    push_punct(stream, '>', Spacing::Alone);
    assert(tokens(*stream) =~= tokens(*old(stream)) + vec_of(flavour, tokens(*payload)));
}

/// The tuple of the sequence types.
fn emit_target(
    stream: &mut TokenStream,
    flavour: Flavour,
    types: &Vec<&TokenStream>,
    span: Span,
    Ghost(arms): Ghost<Seq<Arm>>,
)
    requires
        arms.len() == types@.len(),
        forall|k: int| 0 <= k < arms.len() ==> (#[trigger] arms[k]).payload == tokens(*types@[k]),
    ensures
        tokens(*final(stream)) == tokens(*old(stream)) + target(flavour, arms),
{
    let ghost parts = vec_types(flavour, arms);
    let mut inner = new_stream();
    let mut k: usize = 0;
    while k < types.len()
        invariant
            k <= types@.len(),
            arms.len() == types@.len(),
            parts == vec_types(flavour, arms),
            forall|j: int|
                0 <= j < arms.len() ==> (#[trigger] arms[j]).payload == tokens(*types@[j]),
            tokens(inner) == joined(parts.take(k as int), punct(',')),
        decreases types@.len() - k,
    {
        let ghost before = tokens(inner);
        if k > 0 {
            push_punct(&mut inner, ',', Spacing::Alone);
        }
        emit_vec_of(&mut inner, flavour, types[k], span);
        proof {
            lemma_joined_step(parts, punct(','), k as int);
            assert(parts[k as int] == vec_of(flavour, arms[k as int].payload));
            assert(tokens(inner) =~= joined(parts.take(k + 1), punct(',')));
        }
        k += 1;
    }
    assert(parts.take(k as int) =~= parts);
    push_punct(&mut inner, ',', Spacing::Alone);
    push_group(stream, Delim::Parenthesis, inner);
    assert(tokens(*stream) =~= tokens(*old(stream)) + target(flavour, arms));
}

/// The name of the local sequence for the variant at `index`.
fn emit_collection(stream: &mut TokenStream, index: usize, span: Span)
    ensures
        tokens(*final(stream)) == tokens(*old(stream)) + collection(index as int),
{
    let name = collection_name(index);
    push_word(stream, name.as_str(), span);
    assert(tokens(*stream) =~= tokens(*old(stream)) + collection(index as int));
}

/// The statement that creates the local sequence for the variant at `index`.
fn emit_creation(stream: &mut TokenStream, index: usize, span: Span)
    ensures
        tokens(*final(stream)) == tokens(*old(stream)) + creation(index as int),
{
    proof {
        reveal_strlit("let");
        reveal_strlit("mut");
        reveal_strlit("Vec");
        reveal_strlit("new");
    }
    push_word(stream, "let", span);
    push_word(stream, "mut", span);
    emit_collection(stream, index, span);
    push_punct(stream, '=', Spacing::Alone);
    push_word(stream, "Vec", span);
    emit_path_sep(stream);
    push_word(stream, "new", span);
    push_group(stream, Delim::Parenthesis, new_stream());
    push_punct(stream, ';', Spacing::Alone);
    assert(tokens(*stream) =~= tokens(*old(stream)) + creation(index as int));
}

/// `(v)`
fn emit_binding(stream: &mut TokenStream, span: Span)
    ensures
        tokens(*final(stream)) == tokens(*old(stream)) + group(Delim::Parenthesis, word("v")),
{
    proof {
        reveal_strlit("v");
    }
    let mut inner = new_stream();
    push_word(&mut inner, "v", span);
    assert(tokens(inner) =~= word("v"));
    push_group(stream, Delim::Parenthesis, inner);
}

/// The arm of the `match` for one variant.
fn emit_match_arm(
    stream: &mut TokenStream,
    name: &TokenStream,
    variant: &TokenStream,
    index: usize,
    span: Span,
)
    ensures
        tokens(*final(stream)) == tokens(*old(stream)) + match_arm(
            tokens(*name),
            tokens(*variant),
            index as int,
        ),
{
    proof {
        reveal_strlit("push");
    }
    push_stream(stream, name);
    emit_path_sep(stream);
    push_stream(stream, variant);
    emit_binding(stream, span);
    push_punct(stream, '=', Spacing::Joint);
    push_punct(stream, '>', Spacing::Alone);
    emit_collection(stream, index, span);
    push_punct(stream, '.', Spacing::Alone);
    push_word(stream, "push", span);
    emit_binding(stream, span);
    assert(tokens(*stream) =~= tokens(*old(stream)) + match_arm(
        tokens(*name),
        tokens(*variant),
        index as int,
    ));
}

/// The statements that create the local sequences, with `;` between them.
fn joined_creations(count: usize, span: Span) -> (r: TokenStream)
    ensures
        tokens(r) == joined(creations(count as nat), punct(';')),
{
    let ghost parts = creations(count as nat);
    let mut inner = new_stream();
    let mut k: usize = 0;
    while k < count
        invariant
            k <= count,
            parts == creations(count as nat),
            tokens(inner) == joined(parts.take(k as int), punct(';')),
        decreases count - k,
    {
        if k > 0 {
            push_punct(&mut inner, ';', Spacing::Alone);
        }
        emit_creation(&mut inner, k, span);
        proof {
            lemma_joined_step(parts, punct(';'), k as int);
            assert(tokens(inner) =~= joined(parts.take(k + 1), punct(';')));
        }
        k += 1;
    }
    assert(parts.take(k as int) =~= parts);
    inner
}

/// The names of the local sequences, with `,` between them.
fn joined_collections(count: usize, span: Span) -> (r: TokenStream)
    ensures
        tokens(r) == joined(collections(count as nat), punct(',')),
{
    let ghost parts = collections(count as nat);
    let mut inner = new_stream();
    let mut k: usize = 0;
    while k < count
        invariant
            k <= count,
            parts == collections(count as nat),
            tokens(inner) == joined(parts.take(k as int), punct(',')),
        decreases count - k,
    {
        if k > 0 {
            push_punct(&mut inner, ',', Spacing::Alone);
        }
        emit_collection(&mut inner, k, span);
        proof {
            lemma_joined_step(parts, punct(','), k as int);
            assert(tokens(inner) =~= joined(parts.take(k + 1), punct(',')));
        }
        k += 1;
    }
    assert(parts.take(k as int) =~= parts);
    inner
}

/// The arms of the `match`, with `,` between them.
fn joined_match_arms(
    name: &TokenStream,
    variants: &Vec<Variant>,
    span: Span,
    Ghost(arms): Ghost<Seq<Arm>>,
) -> (r: TokenStream)
    requires
        arms.len() == variants@.len(),
        forall|k: int|
            0 <= k < arms.len() ==> (#[trigger] arms[k]).variant == tokens(variants@[k].ident),
    ensures
        tokens(r) == joined(match_arms(tokens(*name), arms), punct(',')),
{
    let ghost parts = match_arms(tokens(*name), arms);
    let mut inner = new_stream();
    let mut k: usize = 0;
    while k < variants.len()
        invariant
            k <= variants@.len(),
            arms.len() == variants@.len(),
            parts == match_arms(tokens(*name), arms),
            forall|j: int|
                0 <= j < arms.len() ==> (#[trigger] arms[j]).variant == tokens(
                    variants@[j].ident,
                ),
            tokens(inner) == joined(parts.take(k as int), punct(',')),
        decreases variants@.len() - k,
    {
        if k > 0 {
            push_punct(&mut inner, ',', Spacing::Alone);
        }
        emit_match_arm(&mut inner, name, &variants[k].ident, k, span);
        proof {
            lemma_joined_step(parts, punct(','), k as int);
            assert(parts[k as int] == match_arm(tokens(*name), arms[k as int].variant, k as int));
            assert(tokens(inner) =~= joined(parts.take(k + 1), punct(',')));
        }
        k += 1;
    }
    assert(parts.take(k as int) =~= parts);
    inner
}

/// The loop that hands each value to the sequence of its variant.
fn emit_distribution(
    stream: &mut TokenStream,
    name: &TokenStream,
    variants: &Vec<Variant>,
    span: Span,
    Ghost(arms): Ghost<Seq<Arm>>,
)
    requires
        arms.len() == variants@.len(),
        forall|k: int|
            0 <= k < arms.len() ==> (#[trigger] arms[k]).variant == tokens(variants@[k].ident),
    ensures
        tokens(*final(stream)) == tokens(*old(stream)) + distribution(tokens(*name), arms),
{
    proof {
        reveal_strlit("for");
        reveal_strlit("i");
        reveal_strlit("in");
        reveal_strlit("iter");
        reveal_strlit("match");
    }
    let mut selection = new_stream();
    push_word(&mut selection, "match", span);
    push_word(&mut selection, "i", span);
    push_group(&mut selection, Delim::Brace, joined_match_arms(name, variants, span, Ghost(arms)));
    assert(tokens(selection) =~= word("match") + word("i") + group(
        Delim::Brace,
        joined(match_arms(tokens(*name), arms), punct(',')),
    ));
    push_word(stream, "for", span);
    push_word(stream, "i", span);
    push_word(stream, "in", span);
    push_word(stream, "iter", span);
    push_group(stream, Delim::Brace, selection);
    assert(tokens(*stream) =~= tokens(*old(stream)) + distribution(tokens(*name), arms));
}

/// The body of `from_iter`.
fn emit_body(
    stream: &mut TokenStream,
    name: &TokenStream,
    variants: &Vec<Variant>,
    span: Span,
    Ghost(arms): Ghost<Seq<Arm>>,
)
    requires
        arms.len() == variants@.len(),
        forall|k: int|
            0 <= k < arms.len() ==> (#[trigger] arms[k]).variant == tokens(variants@[k].ident),
    ensures
        tokens(*final(stream)) == tokens(*old(stream)) + body(tokens(*name), arms),
{
    push_stream(stream, &joined_creations(variants.len(), span));
    emit_distribution(stream, name, variants, span, Ghost(arms));
    let mut result = joined_collections(variants.len(), span);
    push_punct(&mut result, ',', Spacing::Alone);
    push_group(stream, Delim::Parenthesis, result);
    assert(tokens(*stream) =~= tokens(*old(stream)) + body(tokens(*name), arms));
}

/// The generic parameter of `from_iter`.
fn emit_iterator_parameter(
    stream: &mut TokenStream,
    flavour: Flavour,
    name: &TokenStream,
    span: Span,
)
    ensures
        tokens(*final(stream)) == tokens(*old(stream)) + iterator_parameter(
            flavour,
            tokens(*name),
        ),
{
    proof {
        reveal_strlit("I");
        reveal_strlit("IntoIterator");
        reveal_strlit("Item");
    }
    push_punct(stream, '<', Spacing::Alone);
    push_word(stream, "I", span);
    push_punct(stream, ':', Spacing::Alone);
    push_word(stream, "IntoIterator", span);
    push_punct(stream, '<', Spacing::Alone);
    push_word(stream, "Item", span);
    push_punct(stream, '=', Spacing::Alone);
    emit_item(stream, flavour, name, span);
    push_punct(stream, '>', Spacing::Joint);
    push_punct(stream, '>', Spacing::Alone);
    assert(tokens(*stream) =~= tokens(*old(stream)) + iterator_parameter(flavour, tokens(*name)));
}

/// The function `from_iter`.
fn emit_from_iter_fn(
    stream: &mut TokenStream,
    flavour: Flavour,
    name: &TokenStream,
    variants: &Vec<Variant>,
    span: Span,
    Ghost(arms): Ghost<Seq<Arm>>,
)
    requires
        arms.len() == variants@.len(),
        forall|k: int|
            0 <= k < arms.len() ==> (#[trigger] arms[k]).variant == tokens(variants@[k].ident),
    ensures
        tokens(*final(stream)) == tokens(*old(stream)) + from_iter_fn(
            flavour,
            tokens(*name),
            arms,
        ),
{
    proof {
        reveal_strlit("fn");
        reveal_strlit("from_iter");
        reveal_strlit("I");
        reveal_strlit("iter");
        reveal_strlit("Self");
    }
    let mut parameters = new_stream();
    push_word(&mut parameters, "iter", span);
    push_punct(&mut parameters, ':', Spacing::Alone);
    push_word(&mut parameters, "I", span);
    assert(tokens(parameters) =~= word("iter") + punct(':') + word("I"));
    let mut block = new_stream();
    emit_body(&mut block, name, variants, span, Ghost(arms));
    assert(tokens(block) =~= body(tokens(*name), arms));
    push_word(stream, "fn", span);
    push_word(stream, "from_iter", span);
    emit_iterator_parameter(stream, flavour, name, span);
    push_group(stream, Delim::Parenthesis, parameters);
    push_punct(stream, '-', Spacing::Joint);
    push_punct(stream, '>', Spacing::Alone);
    push_word(stream, "Self", span);
    push_group(stream, Delim::Brace, block);
    assert(tokens(*stream) =~= tokens(*old(stream)) + from_iter_fn(flavour, tokens(*name), arms));
}

/// One impl of `FromIterator`.
fn emit_from_iterator_impl(
    stream: &mut TokenStream,
    flavour: Flavour,
    name: &TokenStream,
    variants: &Vec<Variant>,
    types: &Vec<&TokenStream>,
    span: Span,
    Ghost(arms): Ghost<Seq<Arm>>,
)
    requires
        describes(arms, variants@, types@),
    ensures
        tokens(*final(stream)) == tokens(*old(stream)) + from_iterator_impl(
            flavour,
            tokens(*name),
            arms,
        ),
{
    proof {
        reveal_strlit("impl");
        reveal_strlit("FromIterator");
        reveal_strlit("for");
    }
    let mut block = new_stream();
    emit_from_iter_fn(&mut block, flavour, name, variants, span, Ghost(arms));
    assert(tokens(block) =~= from_iter_fn(flavour, tokens(*name), arms));
    push_word(stream, "impl", span);
    emit_generics(stream, flavour, span);
    push_word(stream, "FromIterator", span);
    push_punct(stream, '<', Spacing::Alone);
    emit_item(stream, flavour, name, span);
    push_punct(stream, '>', Spacing::Alone);
    push_word(stream, "for", span);
    emit_target(stream, flavour, types, span, Ghost(arms));
    push_group(stream, Delim::Brace, block);
    assert(tokens(*stream) =~= tokens(*old(stream)) + from_iterator_impl(
        flavour,
        tokens(*name),
        arms,
    ));
}

/// One impl of `Separable`.
fn emit_separable_impl(
    stream: &mut TokenStream,
    flavour: Flavour,
    name: &TokenStream,
    types: &Vec<&TokenStream>,
    span: Span,
    Ghost(arms): Ghost<Seq<Arm>>,
)
    requires
        arms.len() == types@.len(),
        forall|k: int| 0 <= k < arms.len() ==> (#[trigger] arms[k]).payload == tokens(*types@[k]),
    ensures
        tokens(*final(stream)) == tokens(*old(stream)) + separable_impl(
            flavour,
            tokens(*name),
            arms,
        ),
{
    proof {
        reveal_strlit("impl");
        reveal_strlit("separable");
        reveal_strlit("Separable");
        reveal_strlit("for");
        reveal_strlit("type");
        reveal_strlit("Target");
    }
    let mut block = new_stream();
    push_word(&mut block, "type", span);
    push_word(&mut block, "Target", span);
    push_punct(&mut block, '=', Spacing::Alone);
    emit_target(&mut block, flavour, types, span, Ghost(arms));
    push_punct(&mut block, ';', Spacing::Alone);
    assert(tokens(block) =~= word("type") + word("Target") + punct('=') + target(flavour, arms)
        + punct(';'));
    push_word(stream, "impl", span);
    emit_generics(stream, flavour, span);
    push_word(stream, "separable", span);
    emit_path_sep(stream);
    push_word(stream, "Separable", span);
    push_word(stream, "for", span);
    emit_item(stream, flavour, name, span);
    push_group(stream, Delim::Brace, block);
    assert(tokens(*stream) =~= tokens(*old(stream)) + separable_impl(
        flavour,
        tokens(*name),
        arms,
    ));
}

/// All that the derive generates for an enum with the given name, whose
/// variants have the given payload types.
pub(crate) fn expand(
    name: &TokenStream,
    variants: &Vec<Variant>,
    types: &Vec<&TokenStream>,
    Ghost(arms): Ghost<Seq<Arm>>,
) -> (r: TokenStream)
    requires
        describes(arms, variants@, types@),
    ensures
        tokens(r) == expansion(tokens(*name), arms),
{
    let span = call_site();
    let mut stream = new_stream();
    emit_from_iterator_impl(&mut stream, Flavour::Owned, name, variants, types, span, Ghost(arms));
    emit_from_iterator_impl(&mut stream, Flavour::Shared, name, variants, types, span, Ghost(arms));
    emit_from_iterator_impl(
        &mut stream,
        Flavour::Exclusive,
        name,
        variants,
        types,
        span,
        Ghost(arms),
    );
    emit_separable_impl(&mut stream, Flavour::Owned, name, types, span, Ghost(arms));
    emit_separable_impl(&mut stream, Flavour::Shared, name, types, span, Ghost(arms));
    emit_separable_impl(&mut stream, Flavour::Exclusive, name, types, span, Ghost(arms));
    assert(tokens(stream) =~= expansion(tokens(*name), arms));
    stream
}

} // verus!
