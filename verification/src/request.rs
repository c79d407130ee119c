//! What goes into a request: the credential, chosen from an ordered list of
//! sources, and the headers of the registry query and of the download.

use vstd::prelude::*;
use vstd::string::StringExecFns;

verus! {

/// One request header.
#[derive(Debug, Clone, PartialEq, Eq)]
pub struct Header {
    pub name: String,
    pub value: String,
}

/// A request for the host to send.
#[derive(Debug, Clone, PartialEq, Eq)]
pub struct RequestPlan {
    pub url: String,
    pub headers: Vec<Header>,
    /// Whether an `Authorization` header is among the headers.
    pub credential_attached: bool,
}

/// The headers of a list, each as its name and value.
pub open spec fn header_views(headers: Seq<Header>) -> Seq<(Seq<char>, Seq<char>)> {
    Seq::new(headers.len(), |i: int| (headers[i].name@, headers[i].value@))
}

/// The texts of a list of strings.
pub open spec fn text_views(texts: Seq<String>) -> Seq<Seq<char>> {
    Seq::new(texts.len(), |i: int| texts[i]@)
}

/// What each source of a list yielded, by its text.
pub open spec fn lookup_views(found: Seq<Option<String>>) -> Seq<Option<Seq<char>>> {
    Seq::new(
        found.len(),
        |i: int|
            match found[i] {
                Some(token) => Some(token@),
                None => None,
            },
    )
}

/// The first value present, in list order.
pub open spec fn first_present(found: Seq<Option<Seq<char>>>) -> Option<Seq<char>>
    decreases found.len(),
{
    if found.len() == 0 {
        None
    } else if found[0] is Some {
        found[0]
    } else {
        first_present(found.drop_first())
    }
}

/// The headers that carry a credential: one `Authorization` header with a
/// bearer token, or none.
pub open spec fn authorization_headers(credential: Option<Seq<char>>) -> Seq<
    (Seq<char>, Seq<char>),
> {
    match credential {
        Some(token) => seq![("Authorization"@, "Bearer "@ + token)],
        None => Seq::empty(),
    }
}

/// The headers that identify the client to the registry.
pub open spec fn identity_headers() -> Seq<(Seq<char>, Seq<char>)> {
    seq![
        ("User-Agent"@, "CHADD-Updater"@),
        ("Accept"@, "application/vnd.github.v3+json"@),
    ]
}

/// The view of an optional credential.
pub open spec fn credential_view(credential: Option<String>) -> Option<Seq<char>> {
    match credential {
        Some(token) => Some(token@),
        None => None,
    }
}

/// The names under which a credential is looked up, in priority order.
pub fn credential_sources() -> (names: Vec<String>)
    ensures
        text_views(names@) == seq!["GITHUB_TOKEN"@, "GITHUB_ACCESS_TOKEN"@],
{
    let mut names: Vec<String> = Vec::new();
    names.push("GITHUB_TOKEN".to_owned());
    names.push("GITHUB_ACCESS_TOKEN".to_owned());
    assert(text_views(names@) =~= seq!["GITHUB_TOKEN"@, "GITHUB_ACCESS_TOKEN"@]);
    names
}

/// The override files that may define the credential sources, in priority
/// order: the local override first, the generic file second. The first one
/// that loads is the only one used.
pub fn override_files() -> (names: Vec<String>)
    ensures
        text_views(names@) == seq![".env.local"@, ".env"@],
{
    let mut names: Vec<String> = Vec::new();
    names.push(".env.local".to_owned());
    names.push(".env".to_owned());
    assert(text_views(names@) =~= seq![".env.local"@, ".env"@]);
    names
}

/// Picks the credential: `found` holds, for each source in priority
/// order, what the lookup yielded. The first value present wins; with none
/// present there is no credential, which is no error.
pub fn select_credential(found: &Vec<Option<String>>) -> (credential: Option<String>)
    ensures
        credential_view(credential) == first_present(lookup_views(found@)),
{
    let ghost views = lookup_views(found@);
    let mut i: usize = 0;
    assert(views.skip(0) =~= views);
    while i < found.len()
        invariant
            i <= found.len(),
            views == lookup_views(found@),
            first_present(views) == first_present(views.skip(i as int)),
        decreases found.len() - i,
    {
        assert(views.skip(i as int)[0] == views[i as int]);
        assert(views.skip(i as int).drop_first() =~= views.skip(i + 1));
        match &found[i] {
            Some(token) => {
                return Some(token.clone());
            },
            None => {},
        }
        i += 1;
    }
    None
}

/// The `Authorization` header for a credential, if there is one.
fn push_authorization(headers: &mut Vec<Header>, credential: &Option<String>)
    ensures
        header_views(final(headers)@) == header_views(old(headers)@) + authorization_headers(
            credential_view(*credential),
        ),
{
    let ghost before = headers@;
    match credential {
        Some(token) => {
            let mut value = "Bearer ".to_owned();
            value.append(token.as_str());
            headers.push(Header { name: "Authorization".to_owned(), value });
            assert(header_views(headers@) =~= header_views(before) + authorization_headers(
                credential_view(*credential),
            ));
        },
        None => {
            assert(header_views(headers@) =~= header_views(before) + authorization_headers(
                credential_view(*credential),
            ));
        },
    }
}

/// The query for the latest release: a GET to `endpoint` with the client's
/// identity headers, and the credential as a bearer token where there is one.
pub fn release_request(endpoint: &str, credential: &Option<String>) -> (plan: RequestPlan)
    ensures
        plan.url@ == endpoint@,
        header_views(plan.headers@) == identity_headers() + authorization_headers(
            credential_view(*credential),
        ),
        plan.credential_attached == credential is Some,
{
    let mut headers: Vec<Header> = Vec::new();
    headers.push(Header { name: "User-Agent".to_owned(), value: "CHADD-Updater".to_owned() });
    headers.push(
        Header { name: "Accept".to_owned(), value: "application/vnd.github.v3+json".to_owned() },
    );
    assert(header_views(headers@) =~= identity_headers());
    push_authorization(&mut headers, credential);
    RequestPlan { url: endpoint.to_owned(), headers, credential_attached: credential.is_some() }
}

/// The request for an asset: a GET to `url` that carries nothing but the
/// credential, where there is one.
pub fn download_request(url: &str, credential: &Option<String>) -> (plan: RequestPlan)
    ensures
        plan.url@ == url@,
        header_views(plan.headers@) == authorization_headers(credential_view(*credential)),
        plan.credential_attached == credential is Some,
{
    let mut headers: Vec<Header> = Vec::new();
    assert(header_views(headers@) =~= Seq::empty());
    push_authorization(&mut headers, credential);
    assert(header_views(headers@) =~= authorization_headers(credential_view(*credential)));
    RequestPlan { url: url.to_owned(), headers, credential_attached: credential.is_some() }
}

} // verus!
