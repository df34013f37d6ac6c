//! The names of the local sequences in the generated code.

use crate::tokens::{is_word, is_word_continue};
use vstd::prelude::*;
use vstd::string::{StrSliceExecFns, StringExecFns};

verus! {

/// The ten digits, each at the place of its value.
pub open spec fn digits() -> Seq<char> {
    "0123456789"@
}

/// A number written in decimal, without leading zeros.
pub open spec fn decimal(n: nat) -> Seq<char>
    decreases n,
{
    if n < 10 {
        seq![digits()[n as int]]
    } else {
        decimal(n / 10).push(digits()[(n % 10) as int])
    }
}

/// The name of the sequence that collects the variant at `index`:
/// `collection_` and the index in decimal.
pub open spec fn collection_text(index: nat) -> Seq<char> {
    "collection_"@ + decimal(index)
}

/// A number in decimal is not empty and holds digits only.
pub proof fn lemma_decimal_is_digits(n: nat)
    ensures
        decimal(n).len() > 0,
        forall|i: int| 0 <= i < decimal(n).len() ==> '0' <= #[trigger] decimal(n)[i] <= '9',
    decreases n,
{
    reveal_strlit("0123456789");
    if n >= 10 {
        lemma_decimal_is_digits(n / 10);
    }
}

/// The name of a collecting sequence is a word.
pub proof fn lemma_collection_text_is_word(index: nat)
    ensures
        is_word(collection_text(index)),
{
    reveal_strlit("collection_");
    lemma_decimal_is_digits(index);
    let text = collection_text(index);
    assert forall|i: int| 0 < i < text.len() implies is_word_continue(#[trigger] text[i]) by {
        if i >= 11 {
            assert(text[i] == decimal(index)[i - 11]);
        }
    }
}

/// The number that a text of digits denotes in decimal.
pub open spec fn denoted(text: Seq<char>) -> nat
    decreases text.len(),
{
    if text.len() == 0 {
        0
    } else {
        denoted(text.drop_last()) * 10 + (text.last() as nat - '0' as nat) as nat
    }
}

/// A number written in decimal denotes that number.
pub proof fn lemma_decimal_denotes(n: nat)
    ensures
        denoted(decimal(n)) == n,
    decreases n,
{
    reveal_strlit("0123456789");
    let text = decimal(n);
    if n < 10 {
        assert(text.drop_last() =~= Seq::<char>::empty());
        assert(denoted(text.drop_last()) == 0);
        assert(text.last() == digits()[n as int]);
    } else {
        lemma_decimal_denotes(n / 10);
        assert(text.drop_last() =~= decimal(n / 10));
        assert(text.last() == digits()[(n % 10) as int]);
    }
}

/// Two numbers that are written alike in decimal are the same number.
pub proof fn lemma_decimal_is_injective(m: nat, n: nat)
    requires
        decimal(m) == decimal(n),
    ensures
        m == n,
{
    lemma_decimal_denotes(m);
    lemma_decimal_denotes(n);
}

/// Variants at different places collect into sequences of different names.
pub proof fn lemma_collection_texts_differ(index: nat, other: nat)
    requires
        index != other,
    ensures
        collection_text(index) != collection_text(other),
{
    if collection_text(index) == collection_text(other) {
        let prefix = "collection_"@;
        assert(decimal(index) =~= collection_text(index).subrange(
            prefix.len() as int,
            collection_text(index).len() as int,
        ));
        assert(decimal(other) =~= collection_text(other).subrange(
            prefix.len() as int,
            collection_text(other).len() as int,
        ));
        lemma_decimal_is_injective(index, other);
    }
}

/// Writes `n` in decimal at the end of `text`.
fn push_decimal(text: &mut String, n: usize)
    ensures
        final(text)@ == old(text)@ + decimal(n as nat),
    decreases n,
{
    if n >= 10 {
        push_decimal(text, n / 10);
    }
    proof {
        reveal_strlit("0123456789");
    }
    let d = n % 10;
    let digit = "0123456789".substring_ascii(d, d + 1);
    assert(digit@ =~= seq![digits()[d as int]]);
    text.append(digit);
    assert(text@ =~= old(text)@ + decimal(n as nat));
}

/// The name of the sequence that collects the variant at `index`.
pub fn collection_name(index: usize) -> (r: String)
    ensures
        r@ == collection_text(index as nat),
        is_word(r@),
{
    let mut text = String::from_str("collection_");
    push_decimal(&mut text, index);
    proof {
        lemma_collection_text_is_word(index as nat);
    }
    text
}

} // verus!
