use vstd::prelude::*;

verus! {

/// The components of one well-formed URL, held as plain values: the scheme,
/// the authority's host when there is one, the percent-encoded path, and the
/// query decoded as `application/x-www-form-urlencoded` key/value pairs, in
/// the order the query gave them.
pub struct UrlParts {
    pub scheme: String,
    pub host: Option<String>,
    pub path: String,
    pub pairs: Vec<(String, String)>,
}

/// The mathematical image of `UrlParts`.
pub struct UrlPartsGhost {
    pub scheme: Seq<char>,
    pub host: Option<Seq<char>>,
    pub path: Seq<char>,
    pub pairs: Seq<(Seq<char>, Seq<char>)>,
}

/// A sequence of owned key/value pairs, seen as a sequence of pairs of
/// character sequences.
pub open spec fn pairs_view(ps: Seq<(String, String)>) -> Seq<(Seq<char>, Seq<char>)> {
    Seq::new(ps.len(), |i: int| (ps[i].0@, ps[i].1@))
}

impl View for UrlParts {
    type V = UrlPartsGhost;

    open spec fn view(&self) -> UrlPartsGhost {
        UrlPartsGhost {
            scheme: self.scheme@,
            host: match self.host {
                Some(h) => Some(h@),
                None => None,
            },
            path: self.path@,
            pairs: pairs_view(self.pairs@),
        }
    }
}

/// The components of a string that parses as a well-formed absolute URL, or
/// nothing for a string that does not. What this returns is fixed by the URL
/// grammar; it is named here rather than written out.
pub uninterp spec fn url_parse(s: Seq<char>) -> Option<UrlPartsGhost>;

/// Relies on `url::Url::parse` and the accessors `Url::scheme`,
/// `Url::host_str`, `Url::path` and `Url::query_pairs`: whether a string is a
/// well-formed absolute URL, and what its components are, depend on the
/// string alone.
#[verifier::external_body]
pub(crate) fn parse_url_parts(s: &str) -> (r: Option<UrlParts>)
    ensures
        (r is Some) == (url_parse(s@) is Some),
        r matches Some(p) ==> Some(p@) == url_parse(s@),
{
    let u = url::Url::parse(s).ok()?;
    Some(UrlParts {
        scheme: u.scheme().to_string(),
        host: u.host_str().map(|h| h.to_string()),
        path: u.path().to_string(),
        pairs: u.query_pairs().map(|(k, v)| (k.into_owned(), v.into_owned())).collect(),
    })
}

} // verus!
