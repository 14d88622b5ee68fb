//! The warnings that the analysis gives: one for each finding.

use vstd::prelude::*;
use crate::body::Span;
use crate::scan::DestructionSite;

verus! {

/// The name under which the analysis is registered.
pub const LINT_NAME: &'static str = "drop_linear_type";

pub const MESSAGE_ITEM: &'static str = "dropping an item that should be used";

pub const HELP_ITEM: &'static str =
    "this item should always be consumed before going out of scope. You may have forgotten to call a function that consumes this value";

pub const NOTE_DROPPED_HERE: &'static str = "item is dropped here without being used";

pub const NOTE_DESTRUCTORS: &'static str =
    "this type will provide destructors which perform any necessary cleanup. Check its documentatino for more details";

pub const MESSAGE_TYPE: &'static str = "dropping a type that should be used";

pub const HELP_TYPE: &'static str =
    "one of the types in this scope was supposed to be used but was dropped. This lint *should* show you which variable was dropped, but was unable to do so because of a bug in the linter. Please report this error";

/// How serious a diagnostic is. The analysis only warns.
#[derive(Clone, Copy, Debug, PartialEq, Eq, Structural, Hash)]
pub enum Severity {
    Allow,
    Warning,
    Error,
}

/// A note that points at a place in the source.
#[derive(Clone, Debug, PartialEq, Eq)]
pub struct SpanNote {
    pub span: Span,
    pub text: String,
}

/// A record for the user: what is wrong, where, and what to do about it.
#[derive(Clone, Debug, PartialEq, Eq)]
pub struct Diagnostic {
    pub severity: Severity,
    pub message: String,
    /// Where the diagnostic is anchored.
    pub primary: Span,
    pub help: String,
    pub span_notes: Vec<SpanNote>,
    pub notes: Vec<String>,
}

/// A diagnostic as plain values.
pub ghost struct DiagnosticView {
    pub severity: Severity,
    pub message: Seq<char>,
    pub primary: Span,
    pub help: Seq<char>,
    pub span_notes: Seq<(Span, Seq<char>)>,
    pub notes: Seq<Seq<char>>,
}

impl View for SpanNote {
    type V = (Span, Seq<char>);

    open spec fn view(&self) -> (Span, Seq<char>) {
        (self.span, self.text@)
    }
}

impl View for Diagnostic {
    type V = DiagnosticView;

    open spec fn view(&self) -> DiagnosticView {
        DiagnosticView {
            severity: self.severity,
            message: self.message@,
            primary: self.primary,
            help: self.help@,
            span_notes: self.span_notes@.map_values(|note: SpanNote| note@),
            notes: self.notes@.map_values(|note: String| note@),
        }
    }
}

/// The warning for a destruction at `site`. Where the variable is known, it
/// is anchored at the variable's declaration and points at the destruction
/// in a note; where it is not, it is anchored at the destruction and says
/// that the variable could not be named.
pub open spec fn diagnostic_for(site: DestructionSite) -> DiagnosticView {
    match site {
        DestructionSite::Resolved { declaration, position } => DiagnosticView {
            severity: Severity::Warning,
            message: MESSAGE_ITEM@,
            primary: declaration,
            help: HELP_ITEM@,
            span_notes: seq![(position, NOTE_DROPPED_HERE@)],
            notes: seq![NOTE_DESTRUCTORS@],
        },
        DestructionSite::Unresolved { position } => DiagnosticView {
            severity: Severity::Warning,
            message: MESSAGE_TYPE@,
            primary: position,
            help: HELP_TYPE@,
            span_notes: Seq::empty(),
            notes: Seq::empty(),
        },
    }
}

/// Builds the warning for a destruction at `site`.
pub fn emit(site: &DestructionSite) -> (diagnostic: Diagnostic)
    ensures
        diagnostic@ == diagnostic_for(*site),
{
    match site {
        DestructionSite::Resolved { declaration, position } => {
            let mut span_notes: Vec<SpanNote> = Vec::new();
            span_notes.push(SpanNote { span: *position, text: NOTE_DROPPED_HERE.to_owned() });
            let mut notes: Vec<String> = Vec::new();
            notes.push(NOTE_DESTRUCTORS.to_owned());
            let diagnostic = Diagnostic {
                severity: Severity::Warning,
                message: MESSAGE_ITEM.to_owned(),
                primary: *declaration,
                help: HELP_ITEM.to_owned(),
                span_notes,
                notes,
            };
            assert(diagnostic@.span_notes =~= seq![(*position, NOTE_DROPPED_HERE@)]);
            assert(diagnostic@.notes =~= seq![NOTE_DESTRUCTORS@]);
            diagnostic
        },
        DestructionSite::Unresolved { position } => {
            let diagnostic = Diagnostic {
                severity: Severity::Warning,
                message: MESSAGE_TYPE.to_owned(),
                primary: *position,
                help: HELP_TYPE.to_owned(),
                span_notes: Vec::new(),
                notes: Vec::new(),
            };
            assert(diagnostic@.span_notes =~= Seq::empty());
            assert(diagnostic@.notes =~= Seq::empty());
            diagnostic
        },
    }
}

} // verus!
