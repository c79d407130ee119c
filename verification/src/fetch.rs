//! The release resolver: how a registry query is put together and how its
//! answer is classified. Sending the request is the host's business; this
//! module decides what is sent and what each answer means.

use vstd::prelude::*;
use vstd::string::StringExecFns;
use crate::release::GitHubRelease;

verus! {

/// An HTTP status code, always in `100..=999`.
#[derive(Debug, Clone, Copy, PartialEq, Eq)]
pub struct HttpStatus {
    code: u16,
}

impl View for HttpStatus {
    type V = u16;

    closed spec fn view(&self) -> u16 {
        self.code
    }
}

impl HttpStatus {
    #[verifier::type_invariant]
    spec fn in_range(self) -> bool {
        100 <= self.code <= 999
    }

    /// The status with the given code, if the code is one a response can carry.
    pub fn from_u16(code: u16) -> (status: Option<HttpStatus>)
        ensures
            status is Some <==> 100 <= code <= 999,
            status matches Some(s) ==> s@ == code,
    {
        if 100 <= code && code <= 999 {
            Some(HttpStatus { code })
        } else {
            None
        }
    }

    /// The code of this status.
    pub fn as_u16(&self) -> (code: u16)
        ensures
            code == self@,
            100 <= code <= 999,
    {
        proof {
            use_type_invariant(self);
        }
        self.code
    }

    /// Whether the status is within 200-299.
    pub fn is_success(&self) -> (success: bool)
        ensures
            success == (200 <= self@ < 300),
    {
        200 <= self.code && self.code < 300
    }
}

/// The text that `reqwest::StatusCode` displays for the status with this
/// code: the number and the reason phrase that the crate knows for it.
pub uninterp spec fn status_line(code: u16) -> Seq<char>;

/// Renders a status through `reqwest::StatusCode`: `from_u16`, which accepts
/// exactly the codes in `100..=999`, then the type's `Display`. The text is
/// named by `status_line`; nothing is claimed of what it holds.
#[verifier::external_body]
fn render_status(code: u16) -> (line: String)
    requires
        100 <= code <= 999,
    ensures
        line@ == status_line(code),
{
    match reqwest::StatusCode::from_u16(code) {
        Ok(status) => status.to_string(),
        Err(_) => String::new(),
    }
}

/// Why the latest release could not be resolved.
#[derive(Debug, Clone, PartialEq, Eq)]
pub enum FetchError {
    /// 404 and no credential was attached: the expected steady state of a
    /// repository with no releases yet, or of a private one.
    NotFoundOrPrivate,
    /// 404 although a credential was attached.
    NotFoundOrMissingReleases,
    /// 401 or 403.
    AuthFailed,
    /// Any other status outside 200-299, with the body text.
    Http(HttpStatus, String),
    /// The body of a successful response was no release descriptor.
    Decode(String),
    /// No response arrived at all.
    Network(String),
}

/// A fetch error, its status as a number and its texts as characters.
pub enum FetchErrorView {
    NotFoundOrPrivate,
    NotFoundOrMissingReleases,
    AuthFailed,
    Http(u16, Seq<char>),
    Decode(Seq<char>),
    Network(Seq<char>),
}

impl View for FetchError {
    type V = FetchErrorView;

    open spec fn view(&self) -> FetchErrorView {
        match self {
            FetchError::NotFoundOrPrivate => FetchErrorView::NotFoundOrPrivate,
            FetchError::NotFoundOrMissingReleases => FetchErrorView::NotFoundOrMissingReleases,
            FetchError::AuthFailed => FetchErrorView::AuthFailed,
            FetchError::Http(status, body) => FetchErrorView::Http(status@, body@),
            FetchError::Decode(message) => FetchErrorView::Decode(message@),
            FetchError::Network(message) => FetchErrorView::Network(message@),
        }
    }
}

/// The human-readable text of each error.
pub open spec fn fetch_error_text(error: FetchErrorView) -> Seq<char> {
    match error {
        FetchErrorView::NotFoundOrPrivate =>
            "Repository not found or releases are private. This is normal if you haven't created any releases yet, or if releases are private and no token is configured."@,
        FetchErrorView::NotFoundOrMissingReleases =>
            "Repository not found or no releases available. Check repository URL and ensure releases exist."@,
        FetchErrorView::AuthFailed =>
            "Authentication failed. Check your GitHub token permissions for private repositories."@,
        FetchErrorView::Http(code, body) => "HTTP error "@ + status_line(code) + ": "@ + body,
        FetchErrorView::Decode(message) => message,
        FetchErrorView::Network(message) => message,
    }
}

impl FetchError {
    /// The text shown for this error.
    pub fn message(&self) -> (text: String)
        ensures
            text@ == fetch_error_text(self@),
    {
        match self {
            FetchError::NotFoundOrPrivate =>
                "Repository not found or releases are private. This is normal if you haven't created any releases yet, or if releases are private and no token is configured.".to_owned(),
            FetchError::NotFoundOrMissingReleases =>
                "Repository not found or no releases available. Check repository URL and ensure releases exist.".to_owned(),
            FetchError::AuthFailed =>
                "Authentication failed. Check your GitHub token permissions for private repositories.".to_owned(),
            FetchError::Http(status, body) => {
                let line = render_status(status.as_u16());
                let mut text = "HTTP error ".to_owned();
                text.append(line.as_str());
                text.append(": ");
                text.append(body.as_str());
                text
            },
            FetchError::Decode(message) => message.clone(),
            FetchError::Network(message) => message.clone(),
        }
    }
}

/// The error that a status outside 200-299 stands for.
pub open spec fn failure_for(code: u16, credential_attached: bool, body: Seq<char>)
    -> FetchErrorView {
    if code == 404 && !credential_attached {
        FetchErrorView::NotFoundOrPrivate
    } else if code == 404 {
        FetchErrorView::NotFoundOrMissingReleases
    } else if code == 401 || code == 403 {
        FetchErrorView::AuthFailed
    } else {
        FetchErrorView::Http(code, body)
    }
}

/// Classifies a response whose status is outside 200-299. `body` is the
/// text of the response body.
pub fn classify_failure(status: HttpStatus, credential_attached: bool, body: String) -> (error:
    FetchError)
    ensures
        error@ == failure_for(status@, credential_attached, body@),
{
    let code = status.as_u16();
    if code == 404 && !credential_attached {
        FetchError::NotFoundOrPrivate
    } else if code == 404 {
        FetchError::NotFoundOrMissingReleases
    } else if code == 401 || code == 403 {
        FetchError::AuthFailed
    } else {
        FetchError::Http(status, body)
    }
}

/// What came back from one query to the registry.
#[derive(Debug, Clone, PartialEq, Eq)]
pub enum FetchReply {
    /// The request could not be sent, or no response arrived.
    NoResponse(String),
    /// A status in 200-299 and a body that decoded to a release.
    Release(GitHubRelease),
    /// A status in 200-299 and a body that did not decode; the text says why.
    Undecodable(String),
    /// A status outside 200-299, with the body text where it could be read.
    Failure(HttpStatus, Option<String>),
}

/// The body text assumed for a failed response whose body could not be read.
pub open spec fn body_or_unknown(body: Option<String>) -> Seq<char> {
    match body {
        Some(text) => text@,
        None => "Unknown error"@,
    }
}

/// What a reply amounts to: the release, or the error it stands for.
pub open spec fn fetch_outcome(reply: FetchReply, credential_attached: bool) -> Result<
    GitHubRelease,
    FetchErrorView,
> {
    match reply {
        FetchReply::NoResponse(message) => Err(FetchErrorView::Network(message@)),
        FetchReply::Release(release) => Ok(release),
        FetchReply::Undecodable(message) => Err(FetchErrorView::Decode(message@)),
        FetchReply::Failure(status, body) => Err(
            failure_for(status@, credential_attached, body_or_unknown(body)),
        ),
    }
}

/// Turns the reply to a registry query into the release or the error.
pub fn fetch_result(reply: FetchReply, credential_attached: bool) -> (result: Result<
    GitHubRelease,
    FetchError,
>)
    ensures
        match fetch_outcome(reply, credential_attached) {
            Ok(release) => result == Ok::<GitHubRelease, FetchError>(release),
            Err(error) => result matches Err(e) && e@ == error,
        },
{
    match reply {
        FetchReply::NoResponse(message) => Err(FetchError::Network(message)),
        FetchReply::Release(release) => Ok(release),
        FetchReply::Undecodable(message) => Err(FetchError::Decode(message)),
        FetchReply::Failure(status, body) => {
            let text = match body {
                Some(text) => text,
                None => "Unknown error".to_owned(),
            };
            Err(classify_failure(status, credential_attached, text))
        },
    }
}

} // verus!
