//! The struct generator: from a declaration with two type placeholders to the
//! wrapper struct and its constructor.

use crate::diagnostic::{Diagnostic, DiagnosticView, ErrorKind};
use crate::input::{parse_contract_input, ContractInput, ContractInputView};
use crate::syntax::declaration_read;
use crate::model::{Visibility, VisibilityView};
use vstd::prelude::*;
use vstd::string::*;

verus! {

/// The attributes of a declaration, one to a line.
pub open spec fn attributes_text(attrs: Seq<Seq<char>>) -> Seq<char>
    decreases attrs.len(),
{
    if attrs.len() == 0 {
        Seq::empty()
    } else {
        attributes_text(attrs.drop_last()) + attrs.last() + "\n"@
    }
}

/// A visibility as it stands before `struct`.
pub open spec fn visibility_text(vis: VisibilityView) -> Seq<char> {
    match vis {
        VisibilityView::Private => Seq::empty(),
        VisibilityView::Public => "pub "@,
        VisibilityView::Scoped(restriction) => restriction + " "@,
    }
}

/// Two lifetimes and two types between angle brackets.
pub open spec fn generic_list_text(
    outer: Seq<char>,
    inner: Seq<char>,
    ctx: Seq<char>,
    db: Seq<char>,
) -> Seq<char> {
    "<"@ + outer + ", "@ + inner + ", "@ + ctx + ", "@ + db + ">"@
}

/// The `where` clause of the wrapper: the second placeholder is a database,
/// and the engine outlives the borrow of it.
pub open spec fn wrapper_bounds_text(db: Seq<char>) -> Seq<char> {
    "\nwhere\n    "@ + db + ": revm::Database,\n    'a: 'b\n"@
}

/// The type of the exclusive borrow of the engine that the wrapper holds.
pub open spec fn engine_borrow_text(ctx: Seq<char>, db: Seq<char>) -> Seq<char> {
    "&'b mut Evm<'a, "@ + ctx + ", "@ + db + ">"@
}

/// The struct definition for a declaration with two placeholders. Each
/// placeholder stands in the parameter list as it was declared, with its
/// bounds, and by its name alone wherever the struct goes on to use it.
pub open spec fn definition_text(decl: ContractInputView) -> Seq<char>
    recommends
        decl.type_params.len() == 2,
{
    let ctx = decl.type_params[0];
    let db = decl.type_params[1];
    attributes_text(decl.attrs) + visibility_text(decl.vis) + "struct "@ + decl.name
        + generic_list_text("'b"@, "'a"@, ctx.tokens, db.tokens) + wrapper_bounds_text(db.ident)
        + "{\n    pub evm: "@ + engine_borrow_text(ctx.ident, db.ident)
        + ",\n    pub address: alloy::primitives::Address,\n}\n"@
}

/// The `impl` block with the constructor for a declaration with two
/// placeholders. Each placeholder stands in the block's parameter list as it
/// was declared, and by its name alone everywhere else.
pub open spec fn constructor_text(decl: ContractInputView) -> Seq<char>
    recommends
        decl.type_params.len() == 2,
{
    let ctx = decl.type_params[0];
    let db = decl.type_params[1];
    "impl"@ + generic_list_text("'b"@, "'a"@, ctx.tokens, db.tokens) + " "@ + decl.name
        + generic_list_text("'b"@, "'a"@, ctx.ident, db.ident) + wrapper_bounds_text(db.ident)
        + "{\n    pub fn new(address: alloy::primitives::Address, evm: "@ + engine_borrow_text(
        ctx.ident,
        db.ident,
    ) + ") -> Self {\n        Self { address, evm }\n    }\n}\n"@
}

/// What is reported for a declaration without exactly two placeholders.
pub open spec fn placeholder_count_diagnostic(span: proc_macro2::Span) -> DiagnosticView {
    DiagnosticView {
        kind: ErrorKind::Shape,
        message: "Expected exactly two type parameters, e.g., <T1, T2>"@,
        span,
        further: Seq::empty(),
    }
}

/// The code of one wrapper: a struct definition and the block that holds its
/// constructor.
#[derive(Debug, PartialEq, Eq)]
pub struct GeneratedStruct {
    pub definition: String,
    pub constructor: String,
}

pub struct GeneratedStructView {
    pub definition: Seq<char>,
    pub constructor: Seq<char>,
}

impl View for GeneratedStruct {
    type V = GeneratedStructView;

    open spec fn view(&self) -> GeneratedStructView {
        GeneratedStructView { definition: self.definition@, constructor: self.constructor@ }
    }
}

/// The wrapper that a declaration with two placeholders stands for.
pub open spec fn generated_struct(decl: ContractInputView) -> GeneratedStructView
    recommends
        decl.type_params.len() == 2,
{
    GeneratedStructView { definition: definition_text(decl), constructor: constructor_text(decl) }
}

impl GeneratedStruct {
    /// The definition, an empty line, and the constructor.
    pub fn code(&self) -> (text: String)
        ensures
            text@ == self.definition@ + "\n"@ + self.constructor@,
    {
        let mut text = self.definition.clone();
        text.append("\n");
        text.append(self.constructor.as_str());
        text
    }
}

fn write_attributes(out: &mut String, attrs: &Vec<String>)
    ensures
        final(out)@ == old(out)@ + attributes_text(attrs.deep_view()),
{
    let ghost all = attrs.deep_view();
    let ghost before = out@;
    let mut i: usize = 0;
    assert(out@ =~= before + attributes_text(all.take(0)));
    while i < attrs.len()
        invariant
            i <= attrs.len(),
            all == attrs.deep_view(),
            out@ == before + attributes_text(all.take(i as int)),
        decreases attrs.len() - i,
    {
        proof {
            assert(all.take(i + 1).drop_last() =~= all.take(i as int));
            assert(all.take(i + 1).last() == attrs[i as int]@);
        }
        out.append(attrs[i].as_str());
        out.append("\n");
        i += 1;
        assert(out@ =~= before + attributes_text(all.take(i as int)));
    }
    assert(all.take(i as int) =~= all);
}

fn write_visibility(out: &mut String, vis: &Visibility)
    ensures
        final(out)@ == old(out)@ + visibility_text(vis@),
{
    let ghost before = out@;
    match vis {
        Visibility::Private => {},
        Visibility::Public => {
            out.append("pub ");
        },
        Visibility::Scoped(restriction) => {
            out.append(restriction.as_str());
            out.append(" ");
        },
    }
    assert(out@ =~= before + visibility_text(vis@));
}

/// Appends two lifetimes and two types between angle brackets.
pub(crate) fn write_generic_list(out: &mut String, outer: &str, inner: &str, ctx: &str, db: &str)
    ensures
        final(out)@ == old(out)@ + generic_list_text(outer@, inner@, ctx@, db@),
{
    let ghost before = out@;
    out.append("<");
    out.append(outer);
    out.append(", ");
    out.append(inner);
    out.append(", ");
    out.append(ctx);
    out.append(", ");
    out.append(db);
    out.append(">");
    assert(out@ =~= before + generic_list_text(outer@, inner@, ctx@, db@));
}

fn write_wrapper_bounds(out: &mut String, db: &str)
    ensures
        final(out)@ == old(out)@ + wrapper_bounds_text(db@),
{
    let ghost before = out@;
    out.append("\nwhere\n    ");
    out.append(db);
    out.append(": revm::Database,\n    'a: 'b\n");
    assert(out@ =~= before + wrapper_bounds_text(db@));
}

fn write_engine_borrow(out: &mut String, ctx: &str, db: &str)
    ensures
        final(out)@ == old(out)@ + engine_borrow_text(ctx@, db@),
{
    let ghost before = out@;
    out.append("&'b mut Evm<'a, ");
    out.append(ctx);
    out.append(", ");
    out.append(db);
    out.append(">");
    assert(out@ =~= before + engine_borrow_text(ctx@, db@));
}

fn write_definition(decl: &ContractInput) -> (text: String)
    requires
        decl.type_params.len() == 2,
    ensures
        text@ == definition_text(decl@),
{
    let ctx = &decl.type_params[0];
    let db = &decl.type_params[1];
    let mut text = String::new();
    write_attributes(&mut text, &decl.attrs);
    write_visibility(&mut text, &decl.vis);
    text.append("struct ");
    text.append(decl.name.as_str());
    write_generic_list(&mut text, "'b", "'a", ctx.tokens.as_str(), db.tokens.as_str());
    write_wrapper_bounds(&mut text, db.ident.as_str());
    text.append("{\n    pub evm: ");
    write_engine_borrow(&mut text, ctx.ident.as_str(), db.ident.as_str());
    text.append(",\n    pub address: alloy::primitives::Address,\n}\n");
    assert(text@ =~= definition_text(decl@));
    text
}

fn write_constructor(decl: &ContractInput) -> (text: String)
    requires
        decl.type_params.len() == 2,
    ensures
        text@ == constructor_text(decl@),
{
    let ctx = &decl.type_params[0];
    let db = &decl.type_params[1];
    let mut text = String::new();
    text.append("impl");
    write_generic_list(&mut text, "'b", "'a", ctx.tokens.as_str(), db.tokens.as_str());
    text.append(" ");
    text.append(decl.name.as_str());
    write_generic_list(&mut text, "'b", "'a", ctx.ident.as_str(), db.ident.as_str());
    write_wrapper_bounds(&mut text, db.ident.as_str());
    text.append("{\n    pub fn new(address: alloy::primitives::Address, evm: ");
    write_engine_borrow(&mut text, ctx.ident.as_str(), db.ident.as_str());
    text.append(") -> Self {\n        Self { address, evm }\n    }\n}\n");
    assert(text@ =~= constructor_text(decl@));
    text
}

/// Generates the wrapper for a declaration: one struct and one constructor
/// where it has exactly two type placeholders, and otherwise no code and one
/// report, placed where the declaration is.
pub fn generate_struct(decl: &ContractInput) -> (r: Result<GeneratedStruct, Diagnostic>)
    ensures
        r is Ok <==> decl@.type_params.len() == 2,
        r matches Ok(code) ==> code@ == generated_struct(decl@),
        r matches Err(d) ==> d@ == placeholder_count_diagnostic(decl.span),
{
    if decl.type_params.len() != 2 {
        return Err(
            Diagnostic::new(
                ErrorKind::Shape,
                "Expected exactly two type parameters, e.g., <T1, T2>",
                decl.span,
            ),
        );
    }
    Ok(GeneratedStruct { definition: write_definition(decl), constructor: write_constructor(decl) })
}

/// Reads the declaration of a wrapper type and generates its struct.
///
/// It succeeds where the tokens hold a declaration with exactly two type
/// placeholders, and returns the struct and the constructor for it. For a
/// declaration with another number of placeholders it returns the report of
/// their number at the declaration's span, and for tokens that hold no
/// declaration a syntax error.
pub fn contract(input: proc_macro2::TokenStream) -> (r: Result<GeneratedStruct, Diagnostic>)
    ensures
        r is Ok <==> (declaration_read(input) matches Some(decl) && decl.type_params.len() == 2),
        r matches Ok(code) ==> (declaration_read(input) matches Some(decl) && code@
            == generated_struct(decl)),
        r matches Err(d) ==> match declaration_read(input) {
            Some(decl) => d@ == placeholder_count_diagnostic(decl.span),
            None => d.kind == ErrorKind::Syntax,
        },
{
    match parse_contract_input(input) {
        Ok(decl) => generate_struct(&decl),
        Err(d) => Err(d),
    }
}

} // verus!
