//! The method generator: from a wrapper struct and a list of call types to
//! the block that holds one method per call type.

use crate::diagnostic::{Diagnostic, DiagnosticView, ErrorKind};
use crate::input::{
    parse_call_list, parse_struct_item, CallList, CallType, CallTypeView, StructItem,
    StructItemView,
};
use crate::syntax::{call_list_read, struct_read};
use crate::model::{
    extract_lifetimes_and_type_params, lifetimes_of, type_idents_of, GenericParamView,
};
use crate::names::{call_suffix, derive_method_name, method_name_of, without_call_suffix};
use crate::struct_gen::{generic_list_text, write_generic_list};
use vstd::prelude::*;
use vstd::string::*;

verus! {

/// One method of a wrapper: its name, and the call type it takes.
#[derive(Debug, PartialEq, Eq)]
pub struct GeneratedMethod {
    pub method_name: String,
    pub call_type: String,
}

pub struct GeneratedMethodView {
    pub method_name: Seq<char>,
    pub call_type: Seq<char>,
}

impl View for GeneratedMethod {
    type V = GeneratedMethodView;

    open spec fn view(&self) -> GeneratedMethodView {
        GeneratedMethodView { method_name: self.method_name@, call_type: self.call_type@ }
    }
}

impl DeepView for GeneratedMethod {
    type V = GeneratedMethodView;

    open spec fn deep_view(&self) -> GeneratedMethodView {
        self@
    }
}

/// The block of methods of one wrapper: the struct it is for, that struct's
/// two lifetimes and two type placeholders in declaration order, and the
/// methods in the order of the call list.
#[derive(Debug, PartialEq, Eq)]
pub struct GeneratedImpl {
    pub struct_name: String,
    pub outer: String,
    pub inner: String,
    pub ctx: String,
    pub db: String,
    pub methods: Vec<GeneratedMethod>,
}

pub struct GeneratedImplView {
    pub struct_name: Seq<char>,
    pub outer: Seq<char>,
    pub inner: Seq<char>,
    pub ctx: Seq<char>,
    pub db: Seq<char>,
    pub methods: Seq<GeneratedMethodView>,
}

impl View for GeneratedImpl {
    type V = GeneratedImplView;

    open spec fn view(&self) -> GeneratedImplView {
        GeneratedImplView {
            struct_name: self.struct_name@,
            outer: self.outer@,
            inner: self.inner@,
            ctx: self.ctx@,
            db: self.db@,
            methods: self.methods.deep_view(),
        }
    }
}

/// What the method generator hands back for a struct it could read: the
/// struct's own tokens, and either the block of methods or the report that
/// stands in its place.
#[derive(Debug)]
pub struct Expansion {
    pub item: proc_macro2::TokenStream,
    pub implementation: Result<GeneratedImpl, Diagnostic>,
}

/// Whether a parameter list has the shape of a wrapper's: two lifetimes and
/// two type placeholders.
pub open spec fn has_wrapper_shape(params: Seq<GenericParamView>) -> bool {
    lifetimes_of(params).len() == 2 && type_idents_of(params).len() == 2
}

/// What is reported for a struct without exactly two lifetimes.
pub open spec fn lifetime_count_diagnostic(span: proc_macro2::Span) -> DiagnosticView {
    DiagnosticView {
        kind: ErrorKind::Shape,
        message: "Expected exactly two lifetimes in the struct definition"@,
        span,
        further: Seq::empty(),
    }
}

/// What is reported for a struct without exactly two type placeholders.
pub open spec fn type_param_count_diagnostic(span: proc_macro2::Span) -> DiagnosticView {
    DiagnosticView {
        kind: ErrorKind::Shape,
        message: "Expected exactly two type parameters in the struct definition"@,
        span,
        further: Seq::empty(),
    }
}

/// What is reported for a call type that leaves no method name.
pub open spec fn degenerate_name_diagnostic(span: proc_macro2::Span) -> DiagnosticView {
    DiagnosticView {
        kind: ErrorKind::DegenerateName,
        message: "Expected a call type that names a method once `Call` is removed"@,
        span,
        further: Seq::empty(),
    }
}

/// Whether nothing is left of a call type's name to call its method by:
/// nothing once `Call` is removed, or nothing once the rest is converted.
pub open spec fn is_degenerate(call: CallTypeView) -> bool {
    without_call_suffix(call.tokens).len() == 0 || method_name_of(call.tokens).len() == 0
}

/// The method that a call type stands for.
pub open spec fn method_of(call: CallTypeView) -> GeneratedMethodView {
    GeneratedMethodView { method_name: method_name_of(call.tokens), call_type: call.tokens }
}

/// The methods of a call list: one for each entry, in order, repeats included.
pub open spec fn methods_of(calls: Seq<CallTypeView>) -> Seq<GeneratedMethodView> {
    Seq::new(calls.len(), |i: int| method_of(calls[i]))
}

/// The position of the first call type that leaves no method name.
pub open spec fn first_degenerate(calls: Seq<CallTypeView>) -> Option<int>
    decreases calls.len(),
{
    if calls.len() == 0 {
        None
    } else {
        match first_degenerate(calls.drop_last()) {
            Some(i) => Some(i),
            None => if is_degenerate(calls.last()) {
                Some(calls.len() - 1)
            } else {
                None
            },
        }
    }
}

/// `first_degenerate` finds a degenerate entry that has none before it, and
/// finds nothing only where there is none.
pub proof fn lemma_first_degenerate_is_least(calls: Seq<CallTypeView>)
    ensures
        match first_degenerate(calls) {
            Some(i) => 0 <= i < calls.len() && is_degenerate(calls[i]) && forall|j: int|
                0 <= j < i ==> !is_degenerate(#[trigger] calls[j]),
            None => forall|j: int| 0 <= j < calls.len() ==> !is_degenerate(#[trigger] calls[j]),
        },
    decreases calls.len(),
{
    if calls.len() > 0 {
        let front = calls.drop_last();
        lemma_first_degenerate_is_least(front);
        assert(forall|j: int| 0 <= j < front.len() ==> front[j] == calls[j]);
    }
}

proof fn lemma_first_degenerate_extends(calls: Seq<CallTypeView>, k: int)
    requires
        0 <= k <= calls.len(),
        first_degenerate(calls.take(k)) is Some,
    ensures
        first_degenerate(calls) == first_degenerate(calls.take(k)),
    decreases calls.len() - k,
{
    if k == calls.len() {
        assert(calls.take(k) =~= calls);
    } else {
        assert(calls.take(k + 1).drop_last() =~= calls.take(k));
        lemma_first_degenerate_extends(calls, k + 1);
    }
}

/// The block of methods for a struct and a call list, or the one report that
/// takes its place: for the lifetimes first, then for the type placeholders,
/// then for the first call type without a method name.
pub open spec fn implementation_of(item: StructItemView, calls: Seq<CallTypeView>) -> Result<
    GeneratedImplView,
    DiagnosticView,
> {
    let lifetimes = lifetimes_of(item.generics.params);
    let idents = type_idents_of(item.generics.params);
    if lifetimes.len() != 2 {
        Err(lifetime_count_diagnostic(item.generics.span))
    } else if idents.len() != 2 {
        Err(type_param_count_diagnostic(item.generics.span))
    } else {
        match first_degenerate(calls) {
            Some(i) => Err(degenerate_name_diagnostic(calls[i].span)),
            None => Ok(
                GeneratedImplView {
                    struct_name: item.ident,
                    outer: lifetimes[0],
                    inner: lifetimes[1],
                    ctx: idents[0],
                    db: idents[1],
                    methods: methods_of(calls),
                },
            ),
        }
    }
}

/// A struct of another shape than a wrapper's gets no methods, whatever its
/// call list holds, and one report at its parameter list.
pub proof fn lemma_other_shape_is_reported(item: StructItemView, calls: Seq<CallTypeView>)
    requires
        !has_wrapper_shape(item.generics.params),
    ensures
        implementation_of(item, calls) matches Err(d) && d.kind == ErrorKind::Shape && d.span
            == item.generics.span,
{
}

/// A call list that holds the bare suffix `Call` gets no methods, not even
/// for a struct of a wrapper's shape: a call type without a method name is
/// reported.
pub proof fn lemma_bare_suffix_is_refused(item: StructItemView, calls: Seq<CallTypeView>, at: int)
    requires
        has_wrapper_shape(item.generics.params),
        0 <= at < calls.len(),
        calls[at].tokens == call_suffix(),
    ensures
        implementation_of(item, calls) matches Err(d) && d.kind == ErrorKind::DegenerateName,
{
    assert(call_suffix().subrange(0, 4) =~= call_suffix());
    assert(is_degenerate(calls[at]));
    lemma_first_degenerate_is_least(calls);
}

/// A struct of a wrapper's shape gets one method for each entry of a call
/// list in which every call type names a method, in the order of the list.
pub proof fn lemma_wrapper_gets_a_method_per_call(item: StructItemView, calls: Seq<CallTypeView>)
    requires
        has_wrapper_shape(item.generics.params),
        forall|i: int| 0 <= i < calls.len() ==> !is_degenerate(#[trigger] calls[i]),
    ensures
        implementation_of(item, calls) matches Ok(block) && block.methods.len() == calls.len()
            && forall|i: int|
            0 <= i < calls.len() ==> #[trigger] block.methods[i] == method_of(calls[i]),
{
    lemma_first_degenerate_is_least(calls);
}

/// Whether an outcome of the generator is the one that `expected` describes.
pub open spec fn is_outcome(
    outcome: Result<GeneratedImpl, Diagnostic>,
    expected: Result<GeneratedImplView, DiagnosticView>,
) -> bool {
    match outcome {
        Ok(block) => expected == Ok::<GeneratedImplView, DiagnosticView>(block@),
        Err(d) => expected == Err::<GeneratedImplView, DiagnosticView>(d@),
    }
}

/// The text of one method. It takes the call and a transaction to start
/// from, puts the encoded call and the wrapper's own address into that
/// transaction, whatever destination it came with, runs it, hands an engine
/// error on as it is, and has the outcome processed.
pub open spec fn method_text(method: GeneratedMethodView, db: Seq<char>) -> Seq<char> {
    "    /// Note that the `tx_env` `data` & `transact_to` are provided by the implementation.\n    pub fn "@
        + method.method_name + "(&mut self, call: "@ + method.call_type
        + ", tx_env: revm::primitives::TxEnv) -> revm::primitives::EVMResultGeneric<crate::types::CallOutput<"@
        + method.call_type + ">, "@ + db
        + "::Error> {\n        let mut tx_env = tx_env;\n        tx_env.data = call.abi_encode().into();\n        tx_env.transact_to = revm::primitives::TxKind::Call(self.address);\n        let tx = self.evm.tx_mut();\n        *tx = tx_env;\n        let result_and_state = self.evm.transact()?;\n        Ok(types::process_transact_result(result_and_state))\n    }\n"@
}

/// The texts of the methods, one after another.
pub open spec fn methods_text(methods: Seq<GeneratedMethodView>, db: Seq<char>) -> Seq<char>
    decreases methods.len(),
{
    if methods.len() == 0 {
        Seq::empty()
    } else {
        methods_text(methods.drop_last(), db) + method_text(methods.last(), db)
    }
}

/// The text of the block of methods.
pub open spec fn implementation_text(block: GeneratedImplView) -> Seq<char> {
    "impl"@ + generic_list_text(block.outer, block.inner, block.ctx, block.db) + " "@
        + block.struct_name + generic_list_text(block.outer, block.inner, block.ctx, block.db)
        + "\nwhere\n    "@ + block.db + ": revm::Database,\n{\n"@ + methods_text(
        block.methods,
        block.db,
    ) + "}\n"@
}

fn write_method(out: &mut String, method: &GeneratedMethod, db: &str)
    ensures
        final(out)@ == old(out)@ + method_text(method@, db@),
{
    let ghost before = out@;
    out.append(
        "    /// Note that the `tx_env` `data` & `transact_to` are provided by the implementation.\n    pub fn ",
    );
    out.append(method.method_name.as_str());
    out.append("(&mut self, call: ");
    out.append(method.call_type.as_str());
    out.append(
        ", tx_env: revm::primitives::TxEnv) -> revm::primitives::EVMResultGeneric<crate::types::CallOutput<",
    );
    out.append(method.call_type.as_str());
    out.append(">, ");
    out.append(db);
    out.append(
        "::Error> {\n        let mut tx_env = tx_env;\n        tx_env.data = call.abi_encode().into();\n        tx_env.transact_to = revm::primitives::TxKind::Call(self.address);\n        let tx = self.evm.tx_mut();\n        *tx = tx_env;\n        let result_and_state = self.evm.transact()?;\n        Ok(types::process_transact_result(result_and_state))\n    }\n",
    );
    assert(out@ =~= before + method_text(method@, db@));
}

impl GeneratedMethod {
    /// The method for a call type whose name was converted to `method_name`,
    /// or the report that nothing is left to call it by.
    pub fn named(call: &CallType, method_name: String) -> (r: Result<GeneratedMethod, Diagnostic>)
        ensures
            r is Err <==> method_name@.len() == 0,
            r matches Ok(method) ==> method@ == (GeneratedMethodView {
                method_name: method_name@,
                call_type: call@.tokens,
            }),
            r matches Err(d) ==> d@ == degenerate_name_diagnostic(call.span),
    {
        if method_name.as_str().unicode_len() == 0 {
            Err(
                Diagnostic::new(
                    ErrorKind::DegenerateName,
                    "Expected a call type that names a method once `Call` is removed",
                    call.span,
                ),
            )
        } else {
            Ok(GeneratedMethod { method_name, call_type: call.tokens.clone() })
        }
    }

    /// The method for one call type, or the report that it has no name.
    pub fn for_call_type(call: &CallType) -> (r: Result<GeneratedMethod, Diagnostic>)
        ensures
            r is Err <==> is_degenerate(call@),
            r matches Ok(method) ==> method@ == method_of(call@),
            r matches Err(d) ==> d@ == degenerate_name_diagnostic(call.span),
    {
        GeneratedMethod::named(call, derive_method_name(call.tokens.as_str()))
    }
}

impl GeneratedImpl {
    /// The block as source text.
    pub fn code(&self) -> (text: String)
        ensures
            text@ == implementation_text(self@),
    {
        let db = self.db.as_str();
        let mut text = String::new();
        text.append("impl");
        write_generic_list(&mut text, self.outer.as_str(), self.inner.as_str(), self.ctx.as_str(), db);
        text.append(" ");
        text.append(self.struct_name.as_str());
        write_generic_list(&mut text, self.outer.as_str(), self.inner.as_str(), self.ctx.as_str(), db);
        text.append("\nwhere\n    ");
        text.append(db);
        text.append(": revm::Database,\n{\n");
        let ghost head = text@;
        let ghost all = self.methods.deep_view();
        let mut i: usize = 0;
        assert(text@ =~= head + methods_text(all.take(0), db@));
        while i < self.methods.len()
            invariant
                i <= self.methods.len(),
                all == self.methods.deep_view(),
                db@ == self.db@,
                text@ == head + methods_text(all.take(i as int), db@),
            decreases self.methods.len() - i,
        {
            proof {
                assert(all.take(i + 1).drop_last() =~= all.take(i as int));
                assert(all.take(i + 1).last() == self.methods[i as int]@);
            }
            write_method(&mut text, &self.methods[i], db);
            i += 1;
            assert(text@ =~= head + methods_text(all.take(i as int), db@));
        }
        assert(all.take(i as int) =~= all);
        text.append("}\n");
        assert(text@ =~= implementation_text(self@));
        text
    }
}

/// The methods of a call list, in order, or the report for the first call
/// type that leaves no method name.
pub fn generate_methods(calls: &CallList) -> (r: Result<Vec<GeneratedMethod>, Diagnostic>)
    ensures
        match first_degenerate(calls@) {
            Some(i) => r matches Err(d) && d@ == degenerate_name_diagnostic(calls@[i].span),
            None => r matches Ok(methods) && methods.deep_view() == methods_of(calls@),
        },
{
    let ghost all = calls@;
    let mut methods: Vec<GeneratedMethod> = Vec::new();
    let mut i: usize = 0;
    assert(methods.deep_view() =~= methods_of(all.take(0)));
    while i < calls.types.len()
        invariant
            i <= calls.types.len(),
            all == calls@,
            first_degenerate(all.take(i as int)) is None,
            methods.deep_view() == methods_of(all.take(i as int)),
        decreases calls.types.len() - i,
    {
        proof {
            assert(all.take(i + 1).drop_last() =~= all.take(i as int));
            assert(all.take(i + 1).last() == calls.types[i as int]@);
        }
        match GeneratedMethod::for_call_type(&calls.types[i]) {
            Ok(method) => {
                let ghost before = methods.deep_view();
                let ghost added = method@;
                methods.push(method);
                assert(methods.deep_view() =~= before.push(added));
                assert(methods_of(all.take(i + 1)) =~= methods_of(all.take(i as int)).push(
                    method_of(all[i as int]),
                ));
            },
            Err(d) => {
                proof {
                    assert(first_degenerate(all.take(i + 1)) == Some(i as int));
                    lemma_first_degenerate_extends(all, i + 1);
                }
                return Err(d);
            },
        }
        i += 1;
    }
    assert(all.take(i as int) =~= all);
    Ok(methods)
}

/// Generates the block of methods for a struct: for a struct with two
/// lifetimes and two type placeholders one method per call type, and for any
/// other struct no method and one report, placed at its parameter list.
pub fn generate_impl(item: &StructItem, calls: &CallList) -> (r: Result<GeneratedImpl, Diagnostic>)
    ensures
        is_outcome(r, implementation_of(item@, calls@)),
        !has_wrapper_shape(item@.generics.params) ==> (r matches Err(d) && d.kind
            == ErrorKind::Shape && d.span == item.generics.span),
{
    let (lifetimes, type_params) = extract_lifetimes_and_type_params(&item.generics);
    if lifetimes.len() != 2 {
        return Err(
            Diagnostic::new(
                ErrorKind::Shape,
                "Expected exactly two lifetimes in the struct definition",
                item.generics.span,
            ),
        );
    }
    if type_params.len() != 2 {
        return Err(
            Diagnostic::new(
                ErrorKind::Shape,
                "Expected exactly two type parameters in the struct definition",
                item.generics.span,
            ),
        );
    }
    let methods = generate_methods(calls)?;
    Ok(
        GeneratedImpl {
            struct_name: item.ident.clone(),
            outer: lifetimes[0].clone(),
            inner: lifetimes[1].clone(),
            ctx: type_params[0].clone(),
            db: type_params[1].clone(),
            methods,
        },
    )
}

/// Puts the struct's own tokens beside what `generate_impl` makes of it. The
/// tokens come back as they went in, whether or not methods were generated.
pub fn expand_calls(tokens: proc_macro2::TokenStream, item: &StructItem, calls: &CallList) -> (e:
    Expansion)
    ensures
        e.item == tokens,
        is_outcome(e.implementation, implementation_of(item@, calls@)),
        !has_wrapper_shape(item@.generics.params) ==> (e.implementation matches Err(d) && d.kind
            == ErrorKind::Shape && d.span == item.generics.span),
{
    Expansion { item: tokens, implementation: generate_impl(item, calls) }
}

/// Reads a struct definition and the call list attached to it, and generates
/// the struct's methods.
///
/// It succeeds where the one stream holds a struct and the other a list of
/// types; the struct is read first. The struct's tokens then come back
/// unchanged beside the outcome of `generate_impl` for the struct and the
/// list that were read. Otherwise it returns a syntax error.
pub fn calls(attr: proc_macro2::TokenStream, item: proc_macro2::TokenStream) -> (r: Result<
    Expansion,
    Diagnostic,
>)
    ensures
        r is Ok <==> struct_read(item) is Some && call_list_read(attr) is Some,
        r matches Ok(e) ==> e.item == item && is_outcome(
            e.implementation,
            implementation_of(struct_read(item)->0, call_list_read(attr)->0),
        ),
        r matches Err(d) ==> d.kind == ErrorKind::Syntax,
{
    let read = parse_struct_item(&item)?;
    let list = parse_call_list(attr)?;
    Ok(expand_calls(item, &read, &list))
}

} // verus!
