use vstd::prelude::*;

use crate::diagnostic::{Diagnostic, DiagnosticView};
use crate::intent::{classify, classify_view, ClassifiedIntent, IntentView};

verus! {

/// The payload emitted on the single success path: the authorization code
/// the identity provider handed back.
#[derive(Debug, PartialEq, Eq)]
pub struct AuthCallbackEvent {
    pub code: String,
}

impl View for AuthCallbackEvent {
    type V = Seq<char>;

    open spec fn view(&self) -> Seq<char> {
        self.code@
    }
}

/// The one outcome of a dispatch: an event to emit on the auth channel, or
/// a diagnostic to record. Never both, never neither.
#[derive(Debug, PartialEq, Eq)]
pub enum DispatchDecision {
    Emit(AuthCallbackEvent),
    Diagnose(Diagnostic),
}

/// The mathematical image of a `DispatchDecision`.
pub enum DecisionView {
    Emit(Seq<char>),
    Diagnose(DiagnosticView),
}

impl View for DispatchDecision {
    type V = DecisionView;

    open spec fn view(&self) -> DecisionView {
        match self {
            DispatchDecision::Emit(e) => DecisionView::Emit(e@),
            DispatchDecision::Diagnose(d) => DecisionView::Diagnose(d@),
        }
    }
}

/// The one recognized provider.
pub open spec fn provider_oauth2() -> Seq<char> {
    "oauth2"@
}

/// The one recognized action under that provider.
pub open spec fn tidal_callback_action() -> Seq<char> {
    "/callback/tidal"@
}

/// The parameter the recognized action requires.
pub open spec fn code_key() -> Seq<char> {
    "code"@
}

/// The event channel on which a successful authorization callback is
/// published to the surrounding shell.
pub open spec fn auth_channel() -> Seq<char> {
    "tidal-auth-response"@
}

/// Executable name of the channel carrying authorization callback events.
pub fn auth_response_channel() -> (s: String)
    ensures
        s@ == auth_channel(),
{
    "tidal-auth-response".to_owned()
}

/// The routing table of the dispatch core on a classified intent: an unknown
/// provider or action is diagnosed, the recognized pair emits the `code`
/// parameter when it is present and is diagnosed when it is not.
pub open spec fn route_of(i: IntentView) -> DecisionView {
    if i.provider != provider_oauth2() {
        DecisionView::Diagnose(DiagnosticView::UnrecognizedDeepLink)
    } else if i.action != tidal_callback_action() {
        DecisionView::Diagnose(DiagnosticView::UnrecognizedAction)
    } else if !i.parameters.contains_key(code_key()) {
        DecisionView::Diagnose(DiagnosticView::MissingRequiredParameter(code_key()))
    } else {
        DecisionView::Emit(i.parameters[code_key()])
    }
}

/// What the dispatch core decides on a raw deep link: exactly one outcome,
/// for every string.
pub open spec fn decide(s: Seq<char>) -> DecisionView {
    match classify_view(s) {
        Some(i) => route_of(i),
        None => DecisionView::Diagnose(DiagnosticView::MalformedDeepLink(s)),
    }
}

/// The intent of a raw link that classifies.
pub open spec fn intent_view_of(s: Seq<char>) -> IntentView
    recommends
        classify_view(s) is Some,
{
    classify_view(s)->Some_0
}

/// A raw link that asks for the one supported intent: well-formed, provider
/// `oauth2`, action `/callback/tidal`, a `code` parameter present.
pub open spec fn is_tidal_auth_request(s: Seq<char>) -> bool {
    &&& classify_view(s) is Some
    &&& intent_view_of(s).provider == provider_oauth2()
    &&& intent_view_of(s).action == tidal_callback_action()
    &&& intent_view_of(s).parameters.contains_key(code_key())
}

/// The authorization code a supported request carries.
pub open spec fn auth_code_of(s: Seq<char>) -> Seq<char>
    recommends
        is_tidal_auth_request(s),
{
    intent_view_of(s).parameters[code_key()]
}

/// Routes one classified intent.
pub fn route_intent(intent: &ClassifiedIntent) -> (d: DispatchDecision)
    ensures
        d@ == route_of(intent@),
{
    let oauth2: String = "oauth2".to_owned();
    if intent.provider == oauth2 {
        let tidal: String = "/callback/tidal".to_owned();
        if intent.action == tidal {
            match intent.parameter("code") {
                Some(code) => DispatchDecision::Emit(AuthCallbackEvent { code }),
                None => DispatchDecision::Diagnose(
                    Diagnostic::MissingRequiredParameter("code".to_owned()),
                ),
            }
        } else {
            DispatchDecision::Diagnose(Diagnostic::UnrecognizedAction)
        }
    } else {
        DispatchDecision::Diagnose(Diagnostic::UnrecognizedDeepLink)
    }
}

/// Dispatches one raw deep link: parse, classify, route, and decide on the
/// event to emit or the diagnostic to record. Total over all strings and
/// free of panics, so no input can bring the process down.
pub fn dispatch_deep_link(raw: &str) -> (d: DispatchDecision)
    ensures
        d@ == decide(raw@),
        is_tidal_auth_request(raw@) ==> d@ == DecisionView::Emit(auth_code_of(raw@)),
        !is_tidal_auth_request(raw@) ==> !(d@ is Emit),
        classify_view(raw@) is Some && intent_view_of(raw@).provider != provider_oauth2()
            ==> d@ == DecisionView::Diagnose(DiagnosticView::UnrecognizedDeepLink),
        classify_view(raw@) is Some && intent_view_of(raw@).provider == provider_oauth2()
            && intent_view_of(raw@).action != tidal_callback_action() ==> d@
            == DecisionView::Diagnose(DiagnosticView::UnrecognizedAction),
        classify_view(raw@) is Some && intent_view_of(raw@).provider == provider_oauth2()
            && intent_view_of(raw@).action == tidal_callback_action() && !intent_view_of(
            raw@,
        ).parameters.contains_key(code_key()) ==> d@ == DecisionView::Diagnose(
            DiagnosticView::MissingRequiredParameter(code_key()),
        ),
        classify_view(raw@) is None ==> d@ == DecisionView::Diagnose(
            DiagnosticView::MalformedDeepLink(raw@),
        ),
{
    match classify(raw) {
        Ok(intent) => route_intent(&intent),
        Err(diag) => DispatchDecision::Diagnose(diag),
    }
}

} // verus!
