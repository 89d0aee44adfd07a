//! Diagnostics: every rejected declaration or stub yields one or more of
//! these, each tied to the source span of the offending construct.

use vstd::prelude::*;

verus! {

/// The failure conditions the validators can report.
#[derive(Clone, Copy, Debug, PartialEq, Eq, Structural)]
pub enum ErrorKind {
    /// A recognized annotation carries an argument of an unexpected shape.
    MalformedAnnotation,
    /// No representation marker guarantees the container's layout.
    MissingLayoutGuarantee,
    /// The representation marker carries an explicit alignment override.
    UnsupportedAlignment,
    /// The declaration is a sum type or a union, not a struct.
    UnsupportedShape,
    /// The declaration is a unit struct with no fields at all.
    EmptyShape,
    /// After classification, the number of significant fields is not one.
    RequiresSingleField,
    /// A per-field trivial marker carries arguments; it must stand alone.
    UnexpectedArguments,
    /// A function stub declares more than one parameter.
    TooManyArguments,
    /// A stub parameter is an opaque bound, not a concrete reference type.
    UnsupportedParameterForm,
    /// The stub's target type produced no capability seal in this unit.
    CapabilityDenied,
}

/// One reported failure: its kind, the span of the offending source
/// construct, and the text of the argument that provoked it (empty when
/// the kind alone identifies the defect).
#[derive(Debug)]
pub struct Diagnostic {
    pub kind: ErrorKind,
    pub span: usize,
    pub detail: String,
}

/// The mathematical content of a [`Diagnostic`].
pub struct DiagView {
    pub kind: ErrorKind,
    pub span: nat,
    pub detail: Seq<char>,
}

impl View for Diagnostic {
    type V = DiagView;

    open spec fn view(&self) -> DiagView {
        DiagView { kind: self.kind, span: self.span as nat, detail: self.detail@ }
    }
}

/// The views of a sequence of diagnostics, for stating what a validator
/// reports as one sequence equation.
pub open spec fn diag_views(s: Seq<Diagnostic>) -> Seq<DiagView> {
    s.map_values(|d: Diagnostic| d@)
}

/// A view with no argument text, the common case.
pub open spec fn plain_diag(kind: ErrorKind, span: nat) -> DiagView {
    DiagView { kind, span, detail: Seq::empty() }
}

} // verus!
