use vstd::prelude::*;

verus! {

/// A diagnostic recorded when a deep link is dropped without an event.
/// Every kind is terminal at the dispatch core and never fatal to the
/// process.
#[derive(Debug, PartialEq, Eq)]
pub enum Diagnostic {
    /// The input did not parse as a URL; carries the original string.
    MalformedDeepLink(String),
    /// A well-formed URL whose provider is not recognized.
    UnrecognizedDeepLink,
    /// A recognized provider asking for an unsupported action.
    UnrecognizedAction,
    /// A recognized action missing a required parameter; carries the
    /// parameter's name.
    MissingRequiredParameter(String),
}

/// The mathematical image of a `Diagnostic`.
pub enum DiagnosticView {
    MalformedDeepLink(Seq<char>),
    UnrecognizedDeepLink,
    UnrecognizedAction,
    MissingRequiredParameter(Seq<char>),
}

impl View for Diagnostic {
    type V = DiagnosticView;

    open spec fn view(&self) -> DiagnosticView {
        match self {
            Diagnostic::MalformedDeepLink(s) => DiagnosticView::MalformedDeepLink(s@),
            Diagnostic::UnrecognizedDeepLink => DiagnosticView::UnrecognizedDeepLink,
            Diagnostic::UnrecognizedAction => DiagnosticView::UnrecognizedAction,
            Diagnostic::MissingRequiredParameter(s) => DiagnosticView::MissingRequiredParameter(
                s@,
            ),
        }
    }
}

} // verus!
