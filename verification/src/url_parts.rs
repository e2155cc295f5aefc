//! The parts of an absolute URL that the link rules read.

use vstd::prelude::*;

use crate::text::{opt_text, append_str, push_char, ascii_lowercase, chars_eq_str, chars_of, ends_with, is_suffix, to_ascii_lowercase};

verus! {

/// The components of a parsed absolute URL, as plain text.
///
/// `query` holds the `application/x-www-form-urlencoded` key/value pairs of the
/// query string, already decoded, in source order.
pub struct UrlParts {
    pub scheme: String,
    pub host: Option<String>,
    pub path: String,
    pub query: Vec<(String, String)>,
}

/// Mathematical model of [`UrlParts`].
pub struct UrlPartsView {
    pub scheme: Seq<char>,
    pub host: Option<Seq<char>>,
    pub path: Seq<char>,
    pub query: Seq<(Seq<char>, Seq<char>)>,
}

impl View for UrlParts {
    type V = UrlPartsView;

    open spec fn view(&self) -> UrlPartsView {
        UrlPartsView {
            scheme: self.scheme@,
            host: opt_text(self.host),
            path: self.path@,
            query: self.query@.map_values(|p: (String, String)| (p.0@, p.1@)),
        }
    }
}

pub open spec fn opt_parts_view(o: Option<UrlParts>) -> Option<UrlPartsView> {
    match o {
        Some(p) => Some(p@),
        None => None,
    }
}

/// What `url::Url::parse` makes of `input`: `None` where it returns an error,
/// else the scheme, host, path and decoded query pairs that the parsed URL
/// reports.
pub uninterp spec fn parsed_url(input: Seq<char>) -> Option<UrlPartsView>;

/// Calls `url::Url::parse` on `input` and copies out `scheme()`, `host_str()`,
/// `path()` and the pairs of `query_pairs()`. The contract claims only that the
/// result is the value [`parsed_url`] names for the input; what the parser
/// accepts and how it normalises is left to the `url` crate.
#[verifier::external_body]
pub(crate) fn parse_url(input: &str) -> (r: Option<UrlParts>)
    ensures
        opt_parts_view(r) == parsed_url(input@),
{
    let url = url::Url::parse(input).ok()?;
    Some(UrlParts {
        scheme: url.scheme().to_string(),
        host: url.host_str().map(|host| host.to_string()),
        path: url.path().to_string(),
        query: url.query_pairs().map(|(k, v)| (k.into_owned(), v.into_owned())).collect(),
    })
}

/// The scheme is `http` or `https`.
pub open spec fn web_scheme(scheme: Seq<char>) -> bool {
    scheme == "http"@ || scheme == "https"@
}

/// `host` (compared without regard to ASCII case) is `domain` or one of its
/// subdomains.
pub open spec fn host_within(host: Seq<char>, domain: Seq<char>) -> bool {
    let h = ascii_lowercase(host);
    h == domain || is_suffix(seq!['.'] + domain, h)
}

/// A host of YouTube's main domain (`youtube.com` or a subdomain, any ASCII
/// case) is never one of its short-link domain (`youtu.be` or a subdomain):
/// the lower-cased names end in `m` and in `e`.
pub proof fn lemma_youtube_hosts_are_distinct(host: Seq<char>)
    requires
        host_within(host, "youtube.com"@),
    ensures
        !host_within(host, "youtu.be"@),
{
    reveal_strlit("youtube.com");
    reveal_strlit("youtu.be");
    let h = ascii_lowercase(host);
    let d = seq!['.'] + "youtube.com"@;
    let e = seq!['.'] + "youtu.be"@;
    assert(h.last() == 'm') by {
        if h != "youtube.com"@ {
            assert(h[h.len() - 1] == h.subrange(h.len() - d.len(), h.len() as int)[d.len() - 1]);
        }
    }
    if host_within(host, "youtu.be"@) {
        assert(h.last() == 'e') by {
            if h != "youtu.be"@ {
                assert(h[h.len() - 1] == h.subrange(h.len() - e.len(), h.len() as int)[e.len() - 1]);
            }
        }
    }
}

/// `host_within` is plain domain matching: the lower-cased host is the
/// domain itself or ends with `.` followed by the domain.
pub proof fn lemma_host_within_youtube(host: Seq<char>)
    ensures
        host_within(host, "youtube.com"@) <==> (ascii_lowercase(host) == "youtube.com"@
            || is_suffix(".youtube.com"@, ascii_lowercase(host))),
        host_within(host, "youtu.be"@) <==> (ascii_lowercase(host) == "youtu.be"@
            || is_suffix(".youtu.be"@, ascii_lowercase(host))),
{
    reveal_strlit("youtube.com");
    reveal_strlit(".youtube.com");
    reveal_strlit("youtu.be");
    reveal_strlit(".youtu.be");
    assert(".youtube.com"@ =~= seq!['.'] + "youtube.com"@);
    assert(".youtu.be"@ =~= seq!['.'] + "youtu.be"@);
}

/// Some query pair has key `key` and a non-empty value.
pub open spec fn has_param(query: Seq<(Seq<char>, Seq<char>)>, key: Seq<char>) -> bool {
    exists|i: int| 0 <= i < query.len() && query[i].0 == key && query[i].1.len() > 0
}

/// Whether the scheme of `parts` is `http` or `https`.
pub fn is_web_scheme(parts: &UrlParts) -> (r: bool)
    ensures
        r == web_scheme(parts@.scheme),
{
    let s = chars_of(parts.scheme.as_str());
    chars_eq_str(&s, "http") || chars_eq_str(&s, "https")
}

/// Whether `host` is `domain` or a subdomain of it, ignoring ASCII case.
pub fn is_host_within(host: &str, domain: &str) -> (r: bool)
    ensures
        r == host_within(host@, domain@),
{
    let h = to_ascii_lowercase(&chars_of(host));
    let mut dot_domain = String::new();
    push_char(&mut dot_domain, '.');
    append_str(&mut dot_domain, domain);
    assert(dot_domain@ =~= seq!['.'] + domain@);
    chars_eq_str(&h, domain) || ends_with(&h, dot_domain.as_str())
}

/// Whether some query pair of `parts` has key `key` and a non-empty value.
pub fn has_nonempty_param(parts: &UrlParts, key: &str) -> (r: bool)
    ensures
        r == has_param(parts@.query, key@),
{
    let ghost q = parts@.query;
    let mut i: usize = 0;
    while i < parts.query.len()
        invariant
            i <= parts.query.len(),
            q == parts@.query,
            q.len() == parts.query@.len(),
            forall|j: int| 0 <= j < i ==> !(q[j].0 == key@ && q[j].1.len() > 0),
        decreases parts.query.len() - i,
    {
        let pair = &parts.query[i];
        assert(q[i as int] == (pair.0@, pair.1@));
        let k = chars_of(pair.0.as_str());
        if chars_eq_str(&k, key) && !pair.1.as_str().is_empty() {
            return true;
        }
        i = i + 1;
    }
    false
}

} // verus!
