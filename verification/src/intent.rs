use vstd::prelude::*;
use vstd::string::StringExecFns;

use crate::diagnostic::{Diagnostic, DiagnosticView};
use crate::url_parts::{parse_url_parts, pairs_view, url_parse, UrlParts, UrlPartsGhost};

verus! {

/// A deep link classified by intent: who the link addresses, what it asks
/// for, and the query parameters that came with it.
#[derive(Debug, PartialEq, Eq)]
pub struct ClassifiedIntent {
    pub provider: String,
    pub action: String,
    /// Query pairs in the order the URL gave them; the view keeps, for a
    /// repeated key, the last value.
    pub parameters: Vec<(String, String)>,
}

/// The mathematical image of a `ClassifiedIntent`: the parameters are a
/// mapping with unique keys.
pub struct IntentView {
    pub provider: Seq<char>,
    pub action: Seq<char>,
    pub parameters: Map<Seq<char>, Seq<char>>,
}

/// The mapping that a sequence of key/value pairs denotes, a later pair
/// overriding an earlier one with the same key.
pub open spec fn map_of_pairs(ps: Seq<(Seq<char>, Seq<char>)>) -> Map<Seq<char>, Seq<char>>
    decreases ps.len(),
{
    if ps.len() == 0 {
        Map::empty()
    } else {
        map_of_pairs(ps.drop_last()).insert(ps.last().0, ps.last().1)
    }
}

impl View for ClassifiedIntent {
    type V = IntentView;

    open spec fn view(&self) -> IntentView {
        IntentView {
            provider: self.provider@,
            action: self.action@,
            parameters: map_of_pairs(pairs_view(self.parameters@)),
        }
    }
}

/// The action a well-formed URL asks for: its host and path joined into one
/// route, so that the link's whole locator after the scheme names the action.
pub open spec fn action_of(p: UrlPartsGhost) -> Seq<char> {
    match p.host {
        Some(h) => seq!['/'] + h + p.path,
        None => p.path,
    }
}

/// The intent a well-formed URL denotes: its scheme is the provider, its
/// locator the action, its query the parameters.
pub open spec fn intent_of(p: UrlPartsGhost) -> IntentView {
    IntentView {
        provider: p.scheme,
        action: action_of(p),
        parameters: map_of_pairs(p.pairs),
    }
}

/// What classification yields on a raw deep link: the intent of a
/// well-formed URL, nothing for a string that does not parse.
pub open spec fn classify_view(s: Seq<char>) -> Option<IntentView> {
    match url_parse(s) {
        Some(p) => Some(intent_of(p)),
        None => None,
    }
}

/// Classification is a pure transformation: two classifications of the same
/// raw deep link yield identical intents.
pub proof fn lemma_classify_deterministic(
    s: Seq<char>,
    r1: Option<IntentView>,
    r2: Option<IntentView>,
)
    requires
        r1 == classify_view(s),
        r2 == classify_view(s),
    ensures
        r1 == r2,
{
}

/// Joins an optional host and a path into the route the URL locates.
fn join_action(host: Option<String>, path: String) -> (r: String)
    ensures
        r@ == (match host {
            Some(h) => seq!['/'] + h@ + path@,
            None => path@,
        }),
{
    match host {
        None => path,
        Some(h) => {
            let mut a = "/".to_owned();
            a.append(h.as_str());
            a.append(path.as_str());
            proof {
                reveal_strlit("/");
                assert(a@ =~= seq!['/'] + h@ + path@);
            }
            a
        },
    }
}

/// Parses and classifies one raw deep link. Total over all strings: a string
/// that is no well-formed URL is rejected with `MalformedDeepLink` carrying
/// the original input, never by aborting.
pub fn classify(raw: &str) -> (r: Result<ClassifiedIntent, Diagnostic>)
    ensures
        (r is Ok) == (classify_view(raw@) is Some),
        r matches Ok(i) ==> Some(i@) == classify_view(raw@),
        r matches Err(d) ==> d@ == DiagnosticView::MalformedDeepLink(raw@),
{
    match parse_url_parts(raw) {
        None => Err(Diagnostic::MalformedDeepLink(raw.to_owned())),
        Some(p) => {
            let UrlParts { scheme, host, path, pairs } = p;
            let action = join_action(host, path);
            Ok(ClassifiedIntent { provider: scheme, action, parameters: pairs })
        },
    }
}

/// A key that no pair of the tail carries is in the mapping exactly when an
/// earlier pair carries it, with the value of the last such pair.
proof fn lemma_map_of_pairs_found(ps: Seq<(Seq<char>, Seq<char>)>, j: int, k: Seq<char>)
    requires
        0 <= j < ps.len(),
        ps[j].0 == k,
        forall|i: int| j < i < ps.len() ==> ps[i].0 != k,
    ensures
        map_of_pairs(ps).contains_key(k),
        map_of_pairs(ps)[k] == ps[j].1,
    decreases ps.len(),
{
    if j == ps.len() - 1 {
    } else {
        assert(ps.drop_last()[j] == ps[j]);
        lemma_map_of_pairs_found(ps.drop_last(), j, k);
    }
}

/// A key that no pair carries is not in the mapping.
proof fn lemma_map_of_pairs_absent(ps: Seq<(Seq<char>, Seq<char>)>, k: Seq<char>)
    requires
        forall|i: int| 0 <= i < ps.len() ==> ps[i].0 != k,
    ensures
        !map_of_pairs(ps).contains_key(k),
    decreases ps.len(),
{
    if ps.len() > 0 {
        lemma_map_of_pairs_absent(ps.drop_last(), k);
    }
}

impl ClassifiedIntent {
    /// Looks up a query parameter by key: the last value the URL gave for
    /// it, or nothing when the key never occurred.
    pub fn parameter(&self, key: &str) -> (r: Option<String>)
        ensures
            (r is Some) == self@.parameters.contains_key(key@),
            r matches Some(v) ==> v@ == self@.parameters[key@],
    {
        let k: String = key.to_owned();
        let mut j: usize = self.parameters.len();
        while j > 0
            invariant
                j <= self.parameters.len(),
                k@ == key@,
                forall|i: int|
                    j <= i < self.parameters@.len() ==> pairs_view(self.parameters@)[i].0 != key@,
            decreases j,
        {
            j = j - 1;
            if self.parameters[j].0 == k {
                proof {
                    lemma_map_of_pairs_found(pairs_view(self.parameters@), j as int, key@);
                }
                return Some(self.parameters[j].1.clone());
            }
        }
        proof {
            lemma_map_of_pairs_absent(pairs_view(self.parameters@), key@);
        }
        None
    }
}

} // verus!
