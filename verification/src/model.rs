//! The parts of a declaration that the generators read, as plain values.

use vstd::prelude::*;

verus! {

/// Who may name the generated struct.
#[derive(Debug, PartialEq, Eq)]
pub enum Visibility {
    /// No qualifier.
    Private,
    /// `pub`.
    Public,
    /// `pub` with a restriction, held as it was written.
    Scoped(String),
}

pub enum VisibilityView {
    Private,
    Public,
    Scoped(Seq<char>),
}

impl View for Visibility {
    type V = VisibilityView;

    open spec fn view(&self) -> VisibilityView {
        match self {
            Visibility::Private => VisibilityView::Private,
            Visibility::Public => VisibilityView::Public,
            Visibility::Scoped(restriction) => VisibilityView::Scoped(restriction@),
        }
    }
}

/// A type placeholder: its name, and the whole parameter with whatever bounds
/// and default it was declared with.
#[derive(Debug, PartialEq, Eq)]
pub struct TypeParam {
    pub ident: String,
    pub tokens: String,
}

pub struct TypeParamView {
    pub ident: Seq<char>,
    pub tokens: Seq<char>,
}

impl View for TypeParam {
    type V = TypeParamView;

    open spec fn view(&self) -> TypeParamView {
        TypeParamView { ident: self.ident@, tokens: self.tokens@ }
    }
}

impl DeepView for TypeParam {
    type V = TypeParamView;

    open spec fn deep_view(&self) -> TypeParamView {
        self@
    }
}

impl Clone for TypeParam {
    fn clone(&self) -> (copy: TypeParam)
        ensures
            copy == *self,
    {
        TypeParam { ident: self.ident.clone(), tokens: self.tokens.clone() }
    }
}

/// One entry of a generic parameter list.
#[derive(Debug, PartialEq, Eq)]
pub enum GenericParam {
    /// A lifetime, written with its quote: `'a`.
    Lifetime(String),
    /// A type placeholder.
    Type(TypeParam),
    /// A const parameter. Neither generator reads anything of it.
    Const,
}

pub enum GenericParamView {
    Lifetime(Seq<char>),
    Type(TypeParamView),
    Const,
}

impl View for GenericParam {
    type V = GenericParamView;

    open spec fn view(&self) -> GenericParamView {
        match self {
            GenericParam::Lifetime(name) => GenericParamView::Lifetime(name@),
            GenericParam::Type(param) => GenericParamView::Type(param@),
            GenericParam::Const => GenericParamView::Const,
        }
    }
}

impl DeepView for GenericParam {
    type V = GenericParamView;

    open spec fn deep_view(&self) -> GenericParamView {
        self@
    }
}

/// A generic parameter list and the tokens it covers.
#[derive(Debug)]
pub struct ParamList {
    pub params: Vec<GenericParam>,
    pub span: proc_macro2::Span,
}

pub struct ParamListView {
    pub params: Seq<GenericParamView>,
    pub span: proc_macro2::Span,
}

impl View for ParamList {
    type V = ParamListView;

    open spec fn view(&self) -> ParamListView {
        ParamListView { params: self.params.deep_view(), span: self.span }
    }
}

/// The lifetime that an entry declares, if it declares one.
pub open spec fn lifetime_of(param: GenericParamView) -> Option<Seq<char>> {
    match param {
        GenericParamView::Lifetime(name) => Some(name),
        _ => None,
    }
}

/// The type placeholder that an entry declares, if it declares one.
pub open spec fn type_param_of(param: GenericParamView) -> Option<TypeParamView> {
    match param {
        GenericParamView::Type(param) => Some(param),
        _ => None,
    }
}

/// The name of the type placeholder that an entry declares, if it declares one.
pub open spec fn type_ident_of(param: GenericParamView) -> Option<Seq<char>> {
    match param {
        GenericParamView::Type(param) => Some(param.ident),
        _ => None,
    }
}

/// The lifetimes of a parameter list, in the order they are declared.
pub open spec fn lifetimes_of(params: Seq<GenericParamView>) -> Seq<Seq<char>> {
    params.filter_map(|p: GenericParamView| lifetime_of(p))
}

/// The type placeholders of a parameter list, in the order they are declared.
pub open spec fn type_params_of(params: Seq<GenericParamView>) -> Seq<TypeParamView> {
    params.filter_map(|p: GenericParamView| type_param_of(p))
}

/// The names of the type placeholders of a parameter list, in the order they
/// are declared.
pub open spec fn type_idents_of(params: Seq<GenericParamView>) -> Seq<Seq<char>> {
    params.filter_map(|p: GenericParamView| type_ident_of(p))
}

/// The lifetimes and the names of the type placeholders of a parameter list,
/// each in declaration order. Const parameters are passed over.
pub fn extract_lifetimes_and_type_params(generics: &ParamList) -> (found: (Vec<String>, Vec<String>))
    ensures
        found.0.deep_view() == lifetimes_of(generics@.params),
        found.1.deep_view() == type_idents_of(generics@.params),
{
    let mut lifetimes: Vec<String> = Vec::new();
    let mut type_params: Vec<String> = Vec::new();
    let ghost params = generics@.params;
    let mut i: usize = 0;
    while i < generics.params.len()
        invariant
            i <= generics.params.len(),
            params == generics@.params,
            lifetimes.deep_view() == lifetimes_of(params.take(i as int)),
            type_params.deep_view() == type_idents_of(params.take(i as int)),
        decreases generics.params.len() - i,
    {
        proof {
            assert(params.take(i + 1).drop_last() =~= params.take(i as int));
            assert(params.take(i + 1).last() == generics.params[i as int]@);
        }
        let ghost old_lifetimes = lifetimes.deep_view();
        let ghost old_type_params = type_params.deep_view();
        match &generics.params[i] {
            GenericParam::Lifetime(name) => {
                lifetimes.push(name.clone());
                assert(lifetimes.deep_view() =~= old_lifetimes + seq![name@]);
            },
            GenericParam::Type(param) => {
                type_params.push(param.ident.clone());
                assert(type_params.deep_view() =~= old_type_params + seq![param.ident@]);
            },
            GenericParam::Const => {},
        }
        i += 1;
    }
    assert(params.take(i as int) =~= params);
    (lifetimes, type_params)
}

/// The type placeholders of a parameter list, in declaration order.
pub fn extract_type_params(generics: &ParamList) -> (found: Vec<TypeParam>)
    ensures
        found.deep_view() == type_params_of(generics@.params),
{
    let mut type_params: Vec<TypeParam> = Vec::new();
    let ghost params = generics@.params;
    let mut i: usize = 0;
    while i < generics.params.len()
        invariant
            i <= generics.params.len(),
            params == generics@.params,
            type_params.deep_view() == type_params_of(params.take(i as int)),
        decreases generics.params.len() - i,
    {
        proof {
            assert(params.take(i + 1).drop_last() =~= params.take(i as int));
            assert(params.take(i + 1).last() == generics.params[i as int]@);
        }
        let ghost old_type_params = type_params.deep_view();
        if let GenericParam::Type(param) = &generics.params[i] {
            type_params.push(param.clone());
            assert(type_params.deep_view() =~= old_type_params + seq![param@]);
        }
        i += 1;
    }
    assert(params.take(i as int) =~= params);
    type_params
}

} // verus!
