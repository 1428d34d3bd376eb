//! Reading the two declarations: the wrapper type, and the list of call types
//! on the struct it becomes.

use crate::diagnostic::{note_texts, Diagnostic, ErrorKind};
use crate::model::{
    extract_type_params, type_params_of, ParamList, ParamListView, TypeParam, TypeParamView,
    Visibility, VisibilityView,
};
use crate::syntax::{
    call_list_read, call_types, declaration_read, error_notes, extent_of, generic_params,
    generics_span, messages_of, params_of, parse_call_types, parse_generics, parse_ident,
    parse_item_struct, parse_outer_attributes, parse_visibility, run_call_list_parser,
    run_contract_parser, stream_span, struct_read, types_of,
};
use vstd::prelude::*;

verus! {

/// A request for a wrapper struct: attributes to pass on, a visibility, a name
/// and the type placeholders that were written after it.
#[derive(Debug)]
pub struct ContractInput {
    pub attrs: Vec<String>,
    pub vis: Visibility,
    pub name: String,
    pub type_params: Vec<TypeParam>,
    pub span: proc_macro2::Span,
}

pub struct ContractInputView {
    pub attrs: Seq<Seq<char>>,
    pub vis: VisibilityView,
    pub name: Seq<char>,
    pub type_params: Seq<TypeParamView>,
    pub span: proc_macro2::Span,
}

impl View for ContractInput {
    type V = ContractInputView;

    open spec fn view(&self) -> ContractInputView {
        ContractInputView {
            attrs: self.attrs.deep_view(),
            vis: self.vis@,
            name: self.name@,
            type_params: self.type_params.deep_view(),
            span: self.span,
        }
    }
}

/// One call-description type, as written, and where.
#[derive(Debug)]
pub struct CallType {
    pub tokens: String,
    pub span: proc_macro2::Span,
}

pub struct CallTypeView {
    pub tokens: Seq<char>,
    pub span: proc_macro2::Span,
}

impl View for CallType {
    type V = CallTypeView;

    open spec fn view(&self) -> CallTypeView {
        CallTypeView { tokens: self.tokens@, span: self.span }
    }
}

impl DeepView for CallType {
    type V = CallTypeView;

    open spec fn deep_view(&self) -> CallTypeView {
        self@
    }
}

/// The call-description types of one wrapper, in the order they were listed.
/// A type may occur twice; nothing here objects to that.
#[derive(Debug)]
pub struct CallList {
    pub types: Vec<CallType>,
}

impl View for CallList {
    type V = Seq<CallTypeView>;

    open spec fn view(&self) -> Seq<CallTypeView> {
        self.types.deep_view()
    }
}

/// What the method generator reads of a struct definition.
#[derive(Debug)]
pub struct StructItem {
    pub ident: String,
    pub generics: ParamList,
}

pub struct StructItemView {
    pub ident: Seq<char>,
    pub generics: ParamListView,
}

impl View for StructItem {
    type V = StructItemView;

    open spec fn view(&self) -> StructItemView {
        StructItemView { ident: self.ident@, generics: self.generics@ }
    }
}

/// What a stream parser of this crate ensures of a declaration that it read:
/// its placeholders are the type entries of a parameter list of `syn`, in the
/// order of that list, with the list's lifetimes and const parameters left
/// out.
pub open spec fn read_declaration(decl: ContractInputView) -> bool {
    exists|list: syn::Generics| decl.type_params == type_params_of(#[trigger] params_of(list))
}

/// What a stream parser of this crate ensures of a list of call types that it
/// read: it holds the types of a list of `syn`, all of them and in its order.
pub open spec fn read_call_list(list: Seq<CallTypeView>) -> bool {
    exists|raw: syn::punctuated::Punctuated<syn::Type, syn::token::Comma>|
        list == #[trigger] types_of(raw)
}

/// The plain form of a parameter list of `syn`: its entries, and where it
/// stands.
pub open spec fn param_list_of(generics: syn::Generics) -> ParamListView {
    ParamListView { params: params_of(generics), span: extent_of(generics) }
}

/// The declaration made of what was written: the attributes, the visibility
/// and the name as they are, and of the parameter list its type placeholders
/// in order.
pub open spec fn declaration_of(
    attrs: Seq<Seq<char>>,
    vis: VisibilityView,
    name: Seq<char>,
    generics: ParamListView,
    span: proc_macro2::Span,
) -> ContractInputView {
    ContractInputView { attrs, vis, name, type_params: type_params_of(generics.params), span }
}

impl ParamList {
    /// The plain form of a parameter list that `syn` has read: its entries,
    /// all of them and in its order, and the span that `syn` gives the list.
    pub(crate) fn from_syn(generics: &syn::Generics) -> (list: ParamList)
        ensures
            list@ == param_list_of(*generics),
    {
        ParamList { params: generic_params(generics), span: generics_span(generics) }
    }
}

impl Diagnostic {
    /// The report for tokens that a parser refused: a syntax error with the
    /// messages of the parser's error, all of them and in their order, each
    /// at the place the parser names for it.
    pub(crate) fn from_syntax_error(error: &syn::Error) -> (d: Diagnostic)
        ensures
            d.kind == ErrorKind::Syntax,
            seq![d.message@] + note_texts(d@.further) == messages_of(*error),
    {
        let mut notes = error_notes(error);
        let ghost all = notes.deep_view();
        let first = notes.remove(0);
        let d = Diagnostic {
            kind: ErrorKind::Syntax,
            message: first.message,
            span: first.span,
            further: notes,
        };
        assert(d@.further =~= all.subrange(1, all.len() as int));
        assert(seq![d.message@] + note_texts(d@.further) =~= note_texts(all));
        d
    }
}

impl ContractInput {
    /// Puts a declaration together from its parts as they were written: the
    /// attributes, the visibility and the name are kept as they are, and of
    /// the parameter list the type placeholders are kept, in their order and
    /// each with its bounds. Lifetimes and const parameters are left out.
    pub fn from_parts(
        attrs: Vec<String>,
        vis: Visibility,
        name: String,
        generics: &ParamList,
        span: proc_macro2::Span,
    ) -> (decl: ContractInput)
        ensures
            decl@ == declaration_of(attrs.deep_view(), vis@, name@, generics@, span),
    {
        let type_params = extract_type_params(generics);
        ContractInput { attrs, vis, name, type_params, span }
    }

    /// Reads outer attributes, a visibility, a name and a generic parameter
    /// list, in that order, and puts the declaration together from them with
    /// `from_parts`. Its span is where the stream stands after them.
    ///
    /// What the stream holds, and so whether reading succeeds, is for `syn` to
    /// say. Of a declaration that was read, the placeholders are the type
    /// entries of the parameter list that `syn` read, in the order of that
    /// list: its lifetimes and const parameters are left out.
    pub(crate) fn parse(input: &syn::parse::ParseBuffer) -> (r: Result<ContractInput, syn::Error>)
        ensures
            r matches Ok(decl) ==> read_declaration(decl@),
    {
        let attrs = parse_outer_attributes(input)?;
        let vis = parse_visibility(input)?;
        let name = parse_ident(input)?;
        let generics = parse_generics(input)?;
        let decl = ContractInput::from_parts(
            attrs,
            vis,
            name,
            &ParamList::from_syn(&generics),
            stream_span(input),
        );
        assert(decl@.type_params == type_params_of(params_of(generics)));
        Ok(decl)
    }
}

impl CallList {
    /// Reads types separated by commas up to the end of the stream.
    ///
    /// What the stream holds, and so whether reading succeeds, is for `syn` to
    /// say. A list that was read holds the types that `syn` read, all of them
    /// and in the order they were written, a type as often as it was written.
    pub(crate) fn parse(input: &syn::parse::ParseBuffer) -> (r: Result<CallList, syn::Error>)
        ensures
            r matches Ok(list) ==> read_call_list(list@),
    {
        let raw = parse_call_types(input)?;
        let types = call_types(&raw);
        assert(types.deep_view() == types_of(raw));
        Ok(CallList { types })
    }
}

/// Reads the declaration of a wrapper type. The tokens must hold nothing else.
///
/// It succeeds where the tokens hold a declaration, and returns that
/// declaration. Otherwise it returns a syntax error in the parser's words.
pub fn parse_contract_input(tokens: proc_macro2::TokenStream) -> (r: Result<
    ContractInput,
    Diagnostic,
>)
    ensures
        r is Ok <==> declaration_read(tokens) is Some,
        r matches Ok(decl) ==> declaration_read(tokens) == Some(decl@) && read_declaration(decl@),
        r matches Err(d) ==> d.kind == ErrorKind::Syntax,
{
    match run_contract_parser(tokens) {
        Ok(decl) => Ok(decl),
        Err(error) => Err(Diagnostic::from_syntax_error(&error)),
    }
}

/// Reads a list of call types. The tokens must hold nothing else.
///
/// It succeeds where the tokens hold a list of types, and returns the types
/// in the order they were written. Otherwise it returns a syntax error in the
/// parser's words.
pub fn parse_call_list(tokens: proc_macro2::TokenStream) -> (r: Result<CallList, Diagnostic>)
    ensures
        r is Ok <==> call_list_read(tokens) is Some,
        r matches Ok(list) ==> call_list_read(tokens) == Some(list@) && read_call_list(list@),
        r matches Err(d) ==> d.kind == ErrorKind::Syntax,
{
    match run_call_list_parser(tokens) {
        Ok(calls) => Ok(calls),
        Err(error) => Err(Diagnostic::from_syntax_error(&error)),
    }
}

/// Reads a struct definition and keeps its name and generic parameters. The
/// tokens themselves are not consumed.
///
/// It succeeds where the tokens hold a struct, and returns that struct's name
/// and parameter list. Otherwise it returns a syntax error in the parser's
/// words.
pub fn parse_struct_item(tokens: &proc_macro2::TokenStream) -> (r: Result<StructItem, Diagnostic>)
    ensures
        r is Ok <==> struct_read(*tokens) is Some,
        r matches Ok(item) ==> struct_read(*tokens) == Some(item@),
        r matches Err(d) ==> d.kind == ErrorKind::Syntax,
{
    match parse_item_struct(tokens) {
        Ok((ident, generics)) => Ok(StructItem { ident, generics: ParamList::from_syn(&generics) }),
        Err(error) => Err(Diagnostic::from_syntax_error(&error)),
    }
}

} // verus!
