//! The calls into `syn`, `quote` and `proc-macro2`.
//!
//! Everything in this file is taken on trust: Verus reads the signatures and
//! never the bodies. Each function makes one call and turns what comes back
//! into plain values.
//!
//! What a parser makes of a stream that it is part-way through depends on
//! where the stream stands, which no contract can speak of: of the parsers
//! that take a `ParseBuffer` nothing is claimed. What `syn` makes of a whole
//! token stream depends on that stream alone, on its tokens, their spans and
//! whoever made them, the compiler or `proc-macro2` itself. That result has
//! a name, one for each of the three things that are read from a stream. The
//! lists that `syn` hands out have a name for what they hold: the entries of
//! a parameter list, the types of a list of types, and the messages of an
//! error.

use crate::diagnostic::{note_texts, Note};
use crate::input::{
    param_list_of, read_call_list, read_declaration, CallList, CallType, CallTypeView,
    ContractInput, ContractInputView, StructItemView,
};
use crate::model::{GenericParam, GenericParamView, TypeParam, Visibility};
use quote::ToTokens;
use syn::spanned::Spanned;
use vstd::prelude::*;

verus! {

/// A sequence of tokens, as a macro receives it.
#[verifier::external_type_specification]
#[verifier::external_body]
pub struct ExTokenStream(proc_macro2::TokenStream);

/// The error of every `syn` parser.
#[verifier::external_type_specification]
#[verifier::external_body]
pub struct ExError(syn::Error);

/// A position in a token stream that is being parsed.
#[verifier::external_type_specification]
#[verifier::external_body]
pub struct ExParseBuffer<'a>(syn::parse::ParseBuffer<'a>);

/// A generic parameter list as `syn` holds it.
#[verifier::external_type_specification]
#[verifier::external_body]
pub struct ExGenerics(syn::Generics);

/// `syn::Attribute::parse_outer`: reads the outer attributes that the stream
/// starts with, none included. Each comes back as the text of its tokens.
#[verifier::external_body]
pub(crate) fn parse_outer_attributes(input: &syn::parse::ParseBuffer) -> Result<
    Vec<String>,
    syn::Error,
> {
    let attrs = syn::Attribute::parse_outer(input)?;
    Ok(attrs.iter().map(|attr| attr.to_token_stream().to_string()).collect())
}

/// `syn::Visibility::parse`: reads a visibility qualifier, which may be absent.
#[verifier::external_body]
pub(crate) fn parse_visibility(input: &syn::parse::ParseBuffer) -> Result<Visibility, syn::Error> {
    Ok(
        match input.parse::<syn::Visibility>()? {
            syn::Visibility::Public(_) => Visibility::Public,
            syn::Visibility::Restricted(scope) => Visibility::Scoped(
                scope.to_token_stream().to_string(),
            ),
            syn::Visibility::Inherited => Visibility::Private,
        },
    )
}

/// `syn::Ident::parse`: reads one identifier that is no keyword.
#[verifier::external_body]
pub(crate) fn parse_ident(input: &syn::parse::ParseBuffer) -> Result<String, syn::Error> {
    Ok(input.parse::<syn::Ident>()?.to_string())
}

/// `syn::Generics::parse`: reads a parameter list in angle brackets, or
/// nothing where the stream does not go on with `<`.
#[verifier::external_body]
pub(crate) fn parse_generics(input: &syn::parse::ParseBuffer) -> Result<syn::Generics, syn::Error> {
    input.parse::<syn::Generics>()
}

/// A type as `syn` holds it.
#[verifier::external_type_specification]
#[verifier::external_body]
pub struct ExType(syn::Type);

/// The token `,`.
#[verifier::external_type_specification]
#[verifier::external_body]
pub struct ExComma(syn::token::Comma);

/// A list of syntax tree nodes with punctuation between them.
#[verifier::external_type_specification]
#[verifier::external_body]
#[verifier::reject_recursive_types(T)]
#[verifier::reject_recursive_types(P)]
pub struct ExPunctuated<T, P>(syn::punctuated::Punctuated<T, P>);

/// What a parameter list of `syn` holds: its entries in order, a lifetime by
/// its name with the quote, a type placeholder by its name and by the text of
/// its tokens, a const parameter by nothing.
pub uninterp spec fn params_of(generics: syn::Generics) -> Seq<GenericParamView>;

/// Where a parameter list of `syn` stands: the span that `syn` joins from
/// its `<` to its `>`, or the call site for a list without entries.
pub uninterp spec fn extent_of(generics: syn::Generics) -> proc_macro2::Span;

/// What a `syn::Error` holds: its messages, in order.
pub uninterp spec fn messages_of(error: syn::Error) -> Seq<Seq<char>>;

/// The declaration of a wrapper that a token stream holds, where it holds one
/// and nothing else: what `syn` reads from the stream with
/// `ContractInput::parse` as the parser.
pub uninterp spec fn declaration_read(tokens: proc_macro2::TokenStream) -> Option<
    ContractInputView,
>;

/// The call types that a token stream holds, where it holds a list of types
/// and nothing else: what `syn` reads from the stream with `CallList::parse`
/// as the parser.
pub uninterp spec fn call_list_read(tokens: proc_macro2::TokenStream) -> Option<
    Seq<CallTypeView>,
>;

/// The name and the parameter list of the struct that a token stream holds,
/// where it holds a struct definition and nothing else.
pub uninterp spec fn struct_read(tokens: proc_macro2::TokenStream) -> Option<StructItemView>;

/// What a list of types that `syn` read holds: its types in order, repeats
/// and all, each by the text of its tokens and by its span.
pub uninterp spec fn types_of(
    list: syn::punctuated::Punctuated<syn::Type, syn::token::Comma>,
) -> Seq<CallTypeView>;

/// The entries of `syn::Generics::params`, in order, each as a plain value:
/// the result holds what `params_of` names.
#[verifier::external_body]
pub(crate) fn generic_params(generics: &syn::Generics) -> (params: Vec<GenericParam>)
    ensures
        params.deep_view() == params_of(*generics),
{
    generics.params.iter().map(
        |param|
            match param {
                syn::GenericParam::Lifetime(def) => GenericParam::Lifetime(def.lifetime.to_string()),
                syn::GenericParam::Type(def) => GenericParam::Type(
                    TypeParam { ident: def.ident.to_string(), tokens: def.to_token_stream().to_string() },
                ),
                syn::GenericParam::Const(_) => GenericParam::Const,
            },
    ).collect()
}

/// `syn::spanned::Spanned::span` of a parameter list: the span that
/// `extent_of` names.
#[verifier::external_body]
pub(crate) fn generics_span(generics: &syn::Generics) -> (span: proc_macro2::Span)
    ensures
        span == extent_of(*generics),
{
    generics.span()
}

/// `syn::parse::ParseBuffer::span`: the token that the stream stands at, or
/// the call site at its end.
#[verifier::external_body]
pub(crate) fn stream_span(input: &syn::parse::ParseBuffer) -> proc_macro2::Span {
    input.span()
}

/// `syn::punctuated::Punctuated::parse_terminated` for types separated by
/// commas: reads the stream to its end.
#[verifier::external_body]
pub(crate) fn parse_call_types(input: &syn::parse::ParseBuffer) -> Result<
    syn::punctuated::Punctuated<syn::Type, syn::token::Comma>,
    syn::Error,
> {
    syn::punctuated::Punctuated::<syn::Type, syn::token::Comma>::parse_terminated(input)
}

/// The entries of a list of types as `syn::punctuated::Punctuated::iter`
/// hands them out, each as a plain value: the result holds what `types_of`
/// names.
#[verifier::external_body]
pub(crate) fn call_types(
    list: &syn::punctuated::Punctuated<syn::Type, syn::token::Comma>,
) -> (types: Vec<CallType>)
    ensures
        types.deep_view() == types_of(*list),
{
    list.iter().map(
        |ty| CallType { tokens: ty.to_token_stream().to_string(), span: ty.span() },
    ).collect()
}

/// `syn::parse2` for `syn::ItemStruct`: reads a whole struct definition and
/// hands out its name and its parameter list. The tokens are left as they
/// were. It succeeds where the stream holds a struct, and what it hands out
/// is what `struct_read` names.
#[verifier::external_body]
pub(crate) fn parse_item_struct(tokens: &proc_macro2::TokenStream) -> (r: Result<
    (String, syn::Generics),
    syn::Error,
>)
    ensures
        match r {
            Ok((ident, generics)) => struct_read(*tokens) == Some(
                StructItemView { ident: ident@, generics: param_list_of(generics) },
            ),
            Err(_) => struct_read(*tokens) is None,
        },
{
    let item = syn::parse2::<syn::ItemStruct>(tokens.clone())?;
    Ok((item.ident.to_string(), item.generics))
}

/// `syn::parse::Parser::parse2` with `ContractInput::parse` as the parser:
/// fails where that parser fails or leaves tokens unread. It succeeds where
/// the stream holds a declaration, and what it returns is what
/// `declaration_read` names. That is the very value that the parser returned,
/// so what `ContractInput::parse` ensures of a declaration holds of this one.
#[verifier::external_body]
pub(crate) fn run_contract_parser(tokens: proc_macro2::TokenStream) -> (r: Result<
    ContractInput,
    syn::Error,
>)
    ensures
        match r {
            Ok(decl) => declaration_read(tokens) == Some(decl@) && read_declaration(decl@),
            Err(_) => declaration_read(tokens) is None,
        },
{
    syn::parse::Parser::parse2(|input: syn::parse::ParseStream| ContractInput::parse(input), tokens)
}

/// `syn::parse::Parser::parse2` with `CallList::parse` as the parser: fails
/// where that parser fails or leaves tokens unread. It succeeds where the
/// stream holds a list of types, and what it returns is what `call_list_read`
/// names. That is the very value that the parser returned, so what
/// `CallList::parse` ensures of a list holds of this one.
#[verifier::external_body]
pub(crate) fn run_call_list_parser(tokens: proc_macro2::TokenStream) -> (r: Result<
    CallList,
    syn::Error,
>)
    ensures
        match r {
            Ok(list) => call_list_read(tokens) == Some(list@) && read_call_list(list@),
            Err(_) => call_list_read(tokens) is None,
        },
{
    syn::parse::Parser::parse2(|input: syn::parse::ParseStream| CallList::parse(input), tokens)
}

/// The messages of a `syn::Error` as its `IntoIterator` hands them out, each
/// with what `Display` and `syn::Error::span` give for it. An error has one
/// message at least, and the texts are the ones that `messages_of` names.
#[verifier::external_body]
pub(crate) fn error_notes(error: &syn::Error) -> (notes: Vec<Note>)
    ensures
        notes.len() > 0,
        note_texts(notes.deep_view()) == messages_of(*error),
{
    error.into_iter().map(|one| Note { message: one.to_string(), span: one.span() }).collect()
}

} // verus!
