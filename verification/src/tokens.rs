//! Token streams as sequences of tokens, and the calls that build them.

use proc_macro2::{Delimiter, Group, Ident, Punct, Span, TokenStream};
use quote::{ToTokens, TokenStreamExt};
use vstd::prelude::*;

verus! {

/// A sequence of tokens, as the compiler hands it to a macro and takes it
/// back.
#[verifier::external_type_specification]
#[verifier::external_body]
pub struct ExTokenStream(TokenStream);

/// The brackets round a group of tokens.
#[derive(Clone, Copy, Debug, PartialEq, Eq, Structural)]
pub enum Delim {
    /// `( ... )`
    Parenthesis,
    /// `{ ... }`
    Brace,
    /// `[ ... ]`
    Bracket,
    /// No visible bracket.
    Invisible,
}

/// Whether a punctuation character is followed at once by another one that
/// belongs to the same operator.
#[derive(Clone, Copy, Debug, PartialEq, Eq, Structural)]
pub enum Spacing {
    /// The operator ends with this character.
    Alone,
    /// The next token continues the operator, as the first `:` does in `::`.
    Joint,
}

/// One token of a stream whose groups are written out flat.
pub enum Tok {
    /// An identifier or a keyword.
    Word(Seq<char>),
    /// One punctuation character.
    Punct(char, Spacing),
    /// A literal, as it is written.
    Literal(Seq<char>),
    /// The opening bracket of a group.
    Open(Delim),
    /// The closing bracket of a group.
    Close(Delim),
}

/// The tokens of a stream in their order. A group stands as its opening
/// bracket, the tokens inside it and its closing bracket. Where a token
/// comes from is not part of it.
pub uninterp spec fn tokens(stream: TokenStream) -> Seq<Tok>;

/// The tokens of a group with the given brackets and content.
pub open spec fn group(delim: Delim, inner: Seq<Tok>) -> Seq<Tok> {
    seq![Tok::Open(delim)] + inner + seq![Tok::Close(delim)]
}

/// A character that may start a word.
pub open spec fn is_word_start(c: char) -> bool {
    ('a' <= c && c <= 'z') || ('A' <= c && c <= 'Z') || c == '_'
}

/// A character that may stand in a word after the first.
pub open spec fn is_word_continue(c: char) -> bool {
    is_word_start(c) || ('0' <= c && c <= '9')
}

/// A text that every Rust compiler takes as an identifier or keyword: ASCII
/// letters, digits and underscores, not starting with a digit.
pub open spec fn is_word(text: Seq<char>) -> bool {
    &&& text.len() > 0
    &&& is_word_start(text[0])
    &&& forall|i: int| 0 < i < text.len() ==> is_word_continue(#[trigger] text[i])
}

/// A character that can stand as a punctuation token.
pub open spec fn is_punct(c: char) -> bool {
    c == '!' || c == '#' || c == '$' || c == '%' || c == '&' || c == '\'' || c == '*' || c == '+'
        || c == ',' || c == '-' || c == '.' || c == '/' || c == ':' || c == ';' || c == '<'
        || c == '=' || c == '>' || c == '?' || c == '@' || c == '^' || c == '|' || c == '~'
}

/// `TokenStream::new`: a stream without tokens.
#[verifier::external_body]
pub(crate) fn new_stream() -> (r: TokenStream)
    ensures
        tokens(r) == Seq::<Tok>::empty(),
{
    TokenStream::new()
}

/// `Span::call_site`: the place where the running macro was invoked.
#[verifier::external_body]
pub(crate) fn call_site() -> Span {
    Span::call_site()
}

/// `TokenStreamExt::append` with the result of `Ident::new`: one word more
/// at the end of the stream. `Ident::new` panics on a text that is no
/// identifier.
#[verifier::external_body]
pub(crate) fn push_word(stream: &mut TokenStream, text: &str, span: Span)
    requires
        is_word(text@),
    ensures
        tokens(*final(stream)) == tokens(*old(stream)).push(Tok::Word(text@)),
{
    stream.append(Ident::new(text, span));
}

/// `TokenStreamExt::append` with the result of `Punct::new`: one punctuation
/// character more at the end of the stream. `Punct::new` panics on a
/// character that is none.
#[verifier::external_body]
pub(crate) fn push_punct(stream: &mut TokenStream, ch: char, spacing: Spacing)
    requires
        is_punct(ch),
    ensures
        tokens(*final(stream)) == tokens(*old(stream)).push(Tok::Punct(ch, spacing)),
{
    let spacing = match spacing {
        Spacing::Alone => proc_macro2::Spacing::Alone,
        Spacing::Joint => proc_macro2::Spacing::Joint,
    };
    stream.append(Punct::new(ch, spacing));
}

/// `TokenStreamExt::append` with the result of `Group::new`: one group more
/// at the end of the stream, holding the tokens of `inner`.
#[verifier::external_body]
pub(crate) fn push_group(stream: &mut TokenStream, delim: Delim, inner: TokenStream)
    ensures
        tokens(*final(stream)) == tokens(*old(stream)) + group(delim, tokens(inner)),
{
    let delimiter = match delim {
        Delim::Parenthesis => Delimiter::Parenthesis,
        Delim::Brace => Delimiter::Brace,
        Delim::Bracket => Delimiter::Bracket,
        Delim::Invisible => Delimiter::None,
    };
    stream.append(Group::new(delimiter, inner));
}

/// `ToTokens::to_tokens` of a stream: its tokens, copied to the end of
/// another stream.
#[verifier::external_body]
pub(crate) fn push_stream(stream: &mut TokenStream, other: &TokenStream)
    ensures
        tokens(*final(stream)) == tokens(*old(stream)) + tokens(*other),
{
    other.to_tokens(stream);
}

} // verus!
