//! Access to the project lists of the IoT platforms: request URLs, the
//! parts of an edge login URL, and the projects that were fetched.
use vstd::prelude::*;

use crate::models::ProjectResp;
use crate::text::{push_str, str_eq, string_from};

verus! {

/// Credentials for a platform speaking the general API.
#[derive(Clone, PartialEq, Eq, Debug)]
pub struct GeneralAuthInfo {
    pub endpoint: String,
    pub x_api_key: String,
}

/// Credentials for a platform speaking the edge API.
#[derive(Clone, PartialEq, Eq, Debug)]
pub struct EdgeAuthInfo {
    pub url: String,
    pub digest: String,
}

/// Credentials for one platform, by API flavour.
#[derive(Clone, PartialEq, Eq, Debug)]
pub enum AuthInfo {
    General(GeneralAuthInfo),
    Edge(EdgeAuthInfo),
}

/// The parts of a parsed URL that the edge login reads.
#[derive(Clone, Debug)]
pub struct UrlParts {
    pub scheme: String,
    pub host: Option<String>,
    /// The decoded `key=value` pairs of the query, in order.
    pub query: Vec<(String, String)>,
}

/// The view of one decoded query pair.
pub open spec fn pair_view(p: (String, String)) -> (Seq<char>, Seq<char>) {
    (p.0@, p.1@)
}

impl View for UrlParts {
    type V = (Seq<char>, Option<Seq<char>>, Seq<(Seq<char>, Seq<char>)>);

    open spec fn view(&self) -> (Seq<char>, Option<Seq<char>>, Seq<(Seq<char>, Seq<char>)>) {
        (
            self.scheme@,
            match self.host {
                Some(h) => Some(h@),
                None => None,
            },
            self.query@.map_values(|p: (String, String)| pair_view(p)),
        )
    }
}

/// What the URL parser of the `url` crate (re-exported by reqwest) yields
/// for `text`: its scheme, its host, and its decoded query pairs; `None`
/// where it refuses the text.
pub uninterp spec fn url_parts_of(text: Seq<char>) -> Option<
    (Seq<char>, Option<Seq<char>>, Seq<(Seq<char>, Seq<char>)>),
>;

/// `reqwest::Url::parse`, then `Url::scheme`, `Url::host_str` and
/// `Url::query_pairs` on the result.  The contract claims only that the
/// outcome is determined by the text alone (it is named `url_parts_of`); it
/// says nothing of how URLs are parsed or decoded.
#[verifier::external_body]
fn parse_url_parts(text: &str) -> (r: Option<UrlParts>)
    ensures
        match r {
            Some(parts) => url_parts_of(text@) == Some(parts@),
            None => url_parts_of(text@) is None,
        },
{
    match reqwest::Url::parse(text) {
        Ok(url) => Some(UrlParts {
            scheme: url.scheme().to_string(),
            host: url.host_str().map(|h| h.to_string()),
            query: url.query_pairs().map(|(k, v)| (k.into_owned(), v.into_owned())).collect(),
        }),
        Err(_) => None,
    }
}

/// Why the login target of an edge platform cannot be found.
#[derive(Clone, Copy, PartialEq, Eq, Debug)]
pub enum EdgeUrlError {
    /// The configured URL does not parse.
    InvalidUrl,
    /// The configured URL has no host.
    MissingHost,
    /// The configured URL has no `username` query parameter.
    MissingUsername,
}

/// Where and as whom an edge platform is logged in to.
#[derive(Clone, PartialEq, Eq, Debug)]
pub struct EdgeAuthTarget {
    /// `scheme://host` of the configured URL.
    pub base_url: String,
    /// The value of the first `username` query parameter.
    pub username: String,
}

/// The value of the first pair in `query` whose key is `key`.
pub open spec fn first_value(query: Seq<(Seq<char>, Seq<char>)>, key: Seq<char>) -> Option<Seq<char>>
    decreases query.len(),
{
    if query.len() == 0 {
        None
    } else if query[0].0 == key {
        Some(query[0].1)
    } else {
        first_value(query.drop_first(), key)
    }
}

/// The value found for a key is that of the earliest pair with the key,
/// and none is found only when no pair has the key.
pub proof fn lemma_first_value_is_the_earliest(query: Seq<(Seq<char>, Seq<char>)>, key: Seq<char>)
    ensures
        first_value(query, key) is None <==> forall|i: int|
            0 <= i < query.len() ==> (#[trigger] query[i]).0 != key,
        first_value(query, key) matches Some(v) ==> exists|i: int|
            0 <= i < query.len() && #[trigger] query[i] == (key, v) && forall|j: int|
                0 <= j < i ==> (#[trigger] query[j]).0 != key,
    decreases query.len(),
{
    if query.len() > 0 {
        let rest = query.drop_first();
        lemma_first_value_is_the_earliest(rest, key);
        if query[0].0 == key {
            assert(query[0] == (key, query[0].1));
        } else {
            if forall|k: int| 0 <= k < query.len() ==> (#[trigger] query[k]).0 != key {
                assert forall|i: int| 0 <= i < rest.len() implies (#[trigger] rest[i]).0 != key by {
                    assert(rest[i] == query[i + 1]);
                }
            }
            if !(forall|i: int| 0 <= i < query.len() ==> (#[trigger] query[i]).0 != key) {
                let k = choose|k: int| 0 <= k < query.len() && (#[trigger] query[k]).0 == key;
                assert(rest[k - 1] == query[k]);
            }
            if let Some(v) = first_value(rest, key) {
                let i = choose|i: int|
                    0 <= i < rest.len() && #[trigger] rest[i] == (key, v) && forall|j: int|
                        0 <= j < i ==> (#[trigger] rest[j]).0 != key;
                assert(query[i + 1] == (key, v));
                assert forall|j: int| 0 <= j < i + 1 implies (#[trigger] query[j]).0 != key by {
                    if j > 0 {
                        assert(query[j] == rest[j - 1]);
                    }
                }
            }
        }
    }
}

/// The login target read from parsed URL parts: `scheme://host` and the
/// first `username` parameter; the host is checked first.
pub open spec fn edge_target_of(parts: (Seq<char>, Option<Seq<char>>, Seq<(Seq<char>, Seq<char>)>)) -> Result<(Seq<char>, Seq<char>), EdgeUrlError> {
    match parts.1 {
        None => Err(EdgeUrlError::MissingHost),
        Some(host) => match first_value(parts.2, "username"@) {
            None => Err(EdgeUrlError::MissingUsername),
            Some(user) => Ok((parts.0 + "://"@ + host, user)),
        },
    }
}

/// The view of a login target.
pub open spec fn target_view(r: Result<EdgeAuthTarget, EdgeUrlError>) -> Result<(Seq<char>, Seq<char>), EdgeUrlError> {
    match r {
        Ok(t) => Ok((t.base_url@, t.username@)),
        Err(e) => Err(e),
    }
}

fn find_first_value(query: &Vec<(String, String)>, key: &str) -> (r: Option<String>)
    ensures
        match r {
            Some(v) => first_value(
                query@.map_values(|p: (String, String)| pair_view(p)),
                key@,
            ) == Some(v@),
            None => first_value(query@.map_values(|p: (String, String)| pair_view(p)), key@) is None,
        },
{
    let ghost all = query@.map_values(|p: (String, String)| pair_view(p));
    assert(all.subrange(0, all.len() as int) =~= all);
    let mut i: usize = 0;
    while i < query.len()
        invariant
            i <= query@.len(),
            all == query@.map_values(|p: (String, String)| pair_view(p)),
            first_value(all, key@) == first_value(all.subrange(i as int, all.len() as int), key@),
        decreases query@.len() - i,
    {
        let ghost rest = all.subrange(i as int, all.len() as int);
        assert(rest.drop_first() =~= all.subrange(i + 1, all.len() as int));
        assert(rest[0] == pair_view(query@[i as int]));
        if str_eq(query[i].0.as_str(), key) {
            return Some(query[i].1.clone());
        }
        i = i + 1;
    }
    None
}

/// The login target of parsed URL parts.
pub fn edge_target_from_parts(parts: &UrlParts) -> (r: Result<EdgeAuthTarget, EdgeUrlError>)
    ensures
        target_view(r) == edge_target_of(parts@),
{
    match &parts.host {
        None => Err(EdgeUrlError::MissingHost),
        Some(host) => match find_first_value(&parts.query, "username") {
            None => Err(EdgeUrlError::MissingUsername),
            Some(username) => {
                let mut base_url = parts.scheme.clone();
                push_str(&mut base_url, "://");
                push_str(&mut base_url, host.as_str());
                Ok(EdgeAuthTarget { base_url, username })
            },
        },
    }
}

/// A login target read from URL text: `InvalidUrl` where the URL parser
/// refuses it, else the target of its parts.
pub open spec fn edge_target_of_text(text: Seq<char>) -> Result<(Seq<char>, Seq<char>), EdgeUrlError> {
    match url_parts_of(text) {
        None => Err(EdgeUrlError::InvalidUrl),
        Some(parts) => edge_target_of(parts),
    }
}

impl GeneralAuthInfo {
    /// Credentials from an endpoint URL and an API key.
    pub fn new(endpoint: &str, x_api_key: &str) -> (r: Self)
        ensures
            r.endpoint@ == endpoint@,
            r.x_api_key@ == x_api_key@,
    {
        Self { endpoint: string_from(endpoint), x_api_key: string_from(x_api_key) }
    }

    /// The URL listing the projects of a general platform.
    pub fn projects_url(base_url: &str) -> (url: String)
        ensures
            url@ == base_url@ + "/project"@,
    {
        let mut url = string_from(base_url);
        push_str(&mut url, "/project");
        url
    }

    /// The URL of one project of a general platform.
    pub fn project_detail_url(base_url: &str, project_id: &str) -> (url: String)
        ensures
            url@ == base_url@ + "/project/"@ + project_id@,
    {
        let mut url = string_from(base_url);
        push_str(&mut url, "/project/");
        push_str(&mut url, project_id);
        url
    }
}

/// The projects among the fetch results that arrived, in order.
pub open spec fn fetched_projects<E>(results: Seq<Result<ProjectResp, E>>) -> Seq<ProjectResp>
    decreases results.len(),
{
    if results.len() == 0 {
        Seq::empty()
    } else {
        let rest = fetched_projects(results.drop_last());
        match results.last() {
            Ok(p) => rest.push(p),
            Err(_) => rest,
        }
    }
}

/// The project of a fetch that succeeded, and none for one that failed.
pub open spec fn fetched_project<E>(r: Result<ProjectResp, E>) -> Option<ProjectResp> {
    match r {
        Ok(p) => Some(p),
        Err(_) => None,
    }
}

/// Whether a fetch succeeded.
pub open spec fn fetch_succeeded<E>() -> spec_fn(Result<ProjectResp, E>) -> bool {
    |r: Result<ProjectResp, E>| r is Ok
}

/// The projects kept are exactly the projects of the fetches that
/// succeeded, in the order of the fetches: as many as there are successful
/// fetches, wherever they stand.
pub proof fn lemma_fetched_projects_are_the_successes<E>(results: Seq<Result<ProjectResp, E>>)
    ensures
        fetched_projects(results) == results.filter_map(|r: Result<ProjectResp, E>| fetched_project(r)),
        fetched_projects(results).len() == results.filter(fetch_succeeded::<E>()).len(),
    decreases results.len(),
{
    reveal(Seq::filter);
    if results.len() > 0 {
        lemma_fetched_projects_are_the_successes(results.drop_last());
        let rest = fetched_projects(results.drop_last());
        match results.last() {
            Ok(p) => {
                assert(rest.push(p) =~= rest + seq![p]);
            },
            Err(_) => {},
        }
    }
}

/// Keeps the projects whose detail fetch succeeded, in order; failed
/// fetches are dropped.
pub fn keep_fetched<E>(results: Vec<Result<ProjectResp, E>>) -> (projects: Vec<ProjectResp>)
    ensures
        projects@ == fetched_projects(results@),
{
    let ghost all = results@;
    let ghost n = all.len();
    let mut projects: Vec<ProjectResp> = Vec::new();
    let mut remaining = results;
    assert(all.subrange(0, 0) =~= Seq::<Result<ProjectResp, E>>::empty());
    assert(all.subrange(0, n as int) =~= all);
    while remaining.len() > 0
        invariant
            n == all.len(),
            remaining@.len() <= n,
            remaining@ == all.subrange(n - remaining@.len(), n as int),
            projects@ == fetched_projects(all.subrange(0, n - remaining@.len())),
        decreases remaining@.len(),
    {
        let ghost k = n - remaining@.len();
        let item = remaining.remove(0);
        proof {
            assert(item == all[k]);
            assert(all.subrange(0, k + 1).drop_last() =~= all.subrange(0, k));
            assert(all.subrange(0, k + 1).last() == all[k]);
            assert(remaining@ =~= all.subrange(n - remaining@.len(), n as int));
        }
        match item {
            Ok(p) => projects.push(p),
            Err(_) => {},
        }
    }
    assert(all.subrange(0, n as int) =~= all);
    projects
}

impl EdgeAuthInfo {
    /// Credentials from a login URL and a digest.
    pub fn new(url: &str, digest: &str) -> (r: Self)
        ensures
            r.url@ == url@,
            r.digest@ == digest@,
    {
        Self { url: string_from(url), digest: string_from(digest) }
    }

    /// Where and as whom to log in: `scheme://host` of the configured URL
    /// and its first `username` query parameter.
    pub fn auth_target(&self) -> (r: Result<EdgeAuthTarget, EdgeUrlError>)
        ensures
            target_view(r) == edge_target_of_text(self.url@),
    {
        match parse_url_parts(self.url.as_str()) {
            None => Err(EdgeUrlError::InvalidUrl),
            Some(parts) => edge_target_from_parts(&parts),
        }
    }

    /// The login URL of an edge platform.
    pub fn auth_url(base_url: &str) -> (url: String)
        ensures
            url@ == base_url@ + "/iot/v1/auth"@,
    {
        let mut url = string_from(base_url);
        push_str(&mut url, "/iot/v1/auth");
        url
    }

    /// The URL listing the projects of an edge platform.
    pub fn project_url(base_url: &str) -> (url: String)
        ensures
            url@ == base_url@ + "/iot/v1/project"@,
    {
        let mut url = string_from(base_url);
        push_str(&mut url, "/iot/v1/project");
        url
    }
}

} // verus!
