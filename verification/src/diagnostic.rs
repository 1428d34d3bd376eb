//! What the generator reports in place of code.

use vstd::prelude::*;

verus! {

/// A region of the tokens that a declaration was read from.
#[verifier::external_type_specification]
#[verifier::external_body]
pub struct ExSpan(proc_macro2::Span);

/// Why a declaration produced no code.
#[derive(Clone, Copy, Debug, PartialEq, Eq, Structural)]
pub enum ErrorKind {
    /// The tokens are not a declaration at all.
    Syntax,
    /// The declaration has the wrong number of lifetimes or type placeholders.
    Shape,
    /// A call type leaves no method name behind.
    DegenerateName,
}

/// One more message of a report, with the tokens it is about.
#[derive(Debug)]
pub struct Note {
    pub message: String,
    pub span: proc_macro2::Span,
}

pub struct NoteView {
    pub message: Seq<char>,
    pub span: proc_macro2::Span,
}

impl View for Note {
    type V = NoteView;

    open spec fn view(&self) -> NoteView {
        NoteView { message: self.message@, span: self.span }
    }
}

impl DeepView for Note {
    type V = NoteView;

    open spec fn deep_view(&self) -> NoteView {
        self@
    }
}

/// The messages of some notes, in their order.
pub open spec fn note_texts(notes: Seq<NoteView>) -> Seq<Seq<char>> {
    Seq::new(notes.len(), |i: int| notes[i].message)
}

/// One report, tied to the tokens it is about. A parser may have more to say
/// than one message: what it says beyond the first stands under `further`.
/// The generators' own reports have one message each.
#[derive(Debug)]
pub struct Diagnostic {
    pub kind: ErrorKind,
    pub message: String,
    pub span: proc_macro2::Span,
    pub further: Vec<Note>,
}

pub struct DiagnosticView {
    pub kind: ErrorKind,
    pub message: Seq<char>,
    pub span: proc_macro2::Span,
    pub further: Seq<NoteView>,
}

impl View for Diagnostic {
    type V = DiagnosticView;

    open spec fn view(&self) -> DiagnosticView {
        DiagnosticView {
            kind: self.kind,
            message: self.message@,
            span: self.span,
            further: self.further.deep_view(),
        }
    }
}

impl Diagnostic {
    /// A report of the given kind with one fixed message.
    pub fn new(kind: ErrorKind, message: &str, span: proc_macro2::Span) -> (d: Diagnostic)
        ensures
            d@ == (DiagnosticView { kind, message: message@, span, further: Seq::empty() }),
    {
        let d = Diagnostic { kind, message: message.to_owned(), span, further: Vec::new() };
        assert(d.further.deep_view() =~= Seq::empty());
        d
    }
}

} // verus!
