//! Diagnostics for declarations that the derive does not accept.

use proc_macro2::Span;
use vstd::prelude::*;

verus! {

/// A place in the source text that a diagnostic points at.
#[verifier::external_type_specification]
#[verifier::external_body]
pub struct ExSpan(Span);

/// A diagnostic in the form that the compiler reports.
#[verifier::external_type_specification]
#[verifier::external_body]
pub struct ExSynError(syn::Error);

/// The texts of the messages that a `syn::Error` holds, in their order.
pub uninterp spec fn messages(error: syn::Error) -> Seq<Seq<char>>;

/// The span that a `syn::Error` keeps for its first message: the one that
/// the message was made with. What `syn::Error::span` hands out is another
/// thing, since it depends on the thread that asks.
pub uninterp spec fn made_at(error: syn::Error) -> Span;

/// `syn::Error::new` with a string as its message: the error holds that one
/// message and no other, and keeps the span as it was given.
#[verifier::external_body]
fn new_syn_error(span: Span, message: &str) -> (r: syn::Error)
    ensures
        messages(r) == seq![message@],
        made_at(r) == span,
{
    syn::Error::new(span, message)
}

/// `String::from` on a string slice: the new string holds the characters of
/// the slice.
pub assume_specification<'a, 'b>[ <String as From<&'a str>>::from ](s: &'b str) -> (r: String)
    ensures
        r@ == s@,
;

/// `From::from` of a type for itself, which hands its argument back.
pub assume_specification<T>[ <T as From<T>>::from ](t: T) -> (r: T)
    ensures
        r == t,
;

/// What went wrong.
#[derive(Debug)]
pub enum ErrorKind {
    /// A failure described by its message alone.
    Custom(String),
}

impl ErrorKind {
    /// The message that the diagnostic shows.
    pub open spec fn text(self) -> Seq<char> {
        match self {
            ErrorKind::Custom(message) => message@,
        }
    }

    /// A failure with the given message: the message is what `into` makes
    /// of `message`.
    pub fn custom<A: Into<String>>(message: A) -> (r: Self)
        ensures
            r is Custom,
            call_ensures(<A as Into<String>>::into, (message,), r->Custom_0),
    {
        ErrorKind::Custom(message.into())
    }

    /// The message as an owned string.
    pub fn to_string(&self) -> (r: String)
        ensures
            r@ == self.text(),
    {
        match self {
            ErrorKind::Custom(message) => message.clone(),
        }
    }
}

/// A diagnostic: what went wrong, and where.
#[derive(Debug)]
pub struct DeriveError {
    pub span: Span,
    pub kind: ErrorKind,
}

impl DeriveError {
    /// A diagnostic at `span` with the given message.
    pub fn custom<A: Into<String>>(message: A, span: Span) -> (r: Self)
        ensures
            r.span == span,
            r.kind is Custom,
            call_ensures(<A as Into<String>>::into, (message,), r.kind->Custom_0),
    {
        DeriveError { kind: ErrorKind::Custom(message.into()), span }
    }

    /// The message as an owned string.
    pub fn to_string(&self) -> (r: String)
        ensures
            r@ == self.kind.text(),
    {
        self.kind.to_string()
    }

    /// The diagnostic in the form that the compiler reports: one message,
    /// with the text of this one, made at the span of this one.
    pub fn to_syn_error(self) -> (r: syn::Error)
        ensures
            messages(r) == seq![self.kind.text()],
            made_at(r) == self.span,
    {
        let message = self.kind.to_string();
        new_syn_error(self.span, message.as_str())
    }
}

impl From<DeriveError> for syn::Error {
    /// The same as [`DeriveError::to_syn_error`].
    fn from(error: DeriveError) -> (r: syn::Error)
        ensures
            messages(r) == seq![error.kind.text()],
            made_at(r) == error.span,
    {
        error.to_syn_error()
    }
}

/// A `syn::Error` is known by its messages and its span only, so the
/// conversion has no spec function that gives its result; what `from`
/// ensures says all that is known of it.
impl vstd::std_specs::convert::FromSpecImpl<DeriveError> for syn::Error {
    open spec fn obeys_from_spec() -> bool {
        false
    }

    open spec fn from_spec(v: DeriveError) -> syn::Error {
        arbitrary()
    }
}

/// A message that is handed over as a string slice is kept as it is.
pub proof fn lemma_borrowed_message_is_kept(message: &str, kept: String)
    requires
        call_ensures(<&str as Into<String>>::into, (message,), kept),
    ensures
        kept@ == message@,
{
}

/// A message that is handed over as a string is kept as it is.
pub proof fn lemma_owned_message_is_kept(message: String, kept: String)
    requires
        call_ensures(<String as Into<String>>::into, (message,), kept),
    ensures
        kept == message,
{
}

} // verus!
