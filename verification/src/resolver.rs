//! The release resolver: which request asks the release index for a release,
//! and what its answer means.
//!
//! The resolver itself performs no call. Its caller looks up the credential,
//! hands the result to `release_request`, sends the request that comes back,
//! and hands what came of it to `get_release_info`.

use crate::error::{Failure, ResolveError};
use crate::json::json_text_members;
use crate::release::{
    outcome_of, parsed_release, text_of, Outcome, ReleaseInfo, ReleaseInfoView,
};
use crate::text::same_text;
use vstd::prelude::*;

verus! {

/// The two routes of the endpoint.
#[derive(Debug, Clone, PartialEq, Eq)]
pub enum Route {
    /// `GET /version`: the latest stable release.
    GetLatest,
    /// `GET /version/{channel}`: the release of a named channel.
    GetByChannel(String),
}

/// A `Route` with its channel as a sequence of characters.
pub enum RouteView {
    GetLatest,
    GetByChannel(Seq<char>),
}

impl View for Route {
    type V = RouteView;

    open spec fn view(&self) -> RouteView {
        match self {
            Route::GetLatest => RouteView::GetLatest,
            Route::GetByChannel(channel) => RouteView::GetByChannel(channel@),
        }
    }
}

/// One header of a request.
#[derive(Debug, Clone, PartialEq, Eq)]
pub struct Header {
    pub name: String,
    pub value: String,
}

impl View for Header {
    type V = (Seq<char>, Seq<char>);

    open spec fn view(&self) -> (Seq<char>, Seq<char>) {
        (self.name@, self.value@)
    }
}

/// An outbound `GET` request without a body.
#[derive(Debug, Clone, PartialEq, Eq)]
pub struct GetRequest {
    pub url: String,
    /// The headers, in the order in which they are to be set.
    pub headers: Vec<Header>,
}

/// A `GetRequest` as plain sequences.
pub struct GetRequestView {
    pub url: Seq<char>,
    pub headers: Seq<(Seq<char>, Seq<char>)>,
}

impl View for GetRequest {
    type V = GetRequestView;

    open spec fn view(&self) -> GetRequestView {
        GetRequestView { url: self.url@, headers: self.headers@.map_values(|h: Header| h@) }
    }
}

/// The answer of the release index: its status and the bytes of its body.
/// An answer without a body has an empty `body`.
#[derive(Debug, Clone, PartialEq, Eq)]
pub struct UpstreamResponse {
    pub status: u16,
    pub body: Vec<u8>,
}

/// What came of the outbound call, as plain values: the status and body of
/// the answer, or what the transport said when the call failed.
pub type SentView = Result<(u16, Seq<u8>), Seq<char>>;

/// The channel that a route names, if it names one.
pub open spec fn channel_of(route: RouteView) -> Option<Seq<char>> {
    match route {
        RouteView::GetLatest => None,
        RouteView::GetByChannel(channel) => Some(channel),
    }
}

/// Where the release index keeps the release tagged `canary`.
pub open spec fn canary_url() -> Seq<char> {
    "https://api.github.com/repos/fermyon/spin/releases/tags/canary"@
}

/// Where the release index keeps the latest release.
pub open spec fn latest_url() -> Seq<char> {
    "https://api.github.com/repos/fermyon/spin/releases/latest"@
}

/// The URL to ask for a channel: the canary release for the channel
/// `canary`, the latest release for any other channel and for none.
pub open spec fn url_of(channel: Option<Seq<char>>) -> Seq<char> {
    if channel == Some("canary"@) {
        canary_url()
    } else {
        latest_url()
    }
}

/// The value of the `Authorization` header for a token.
pub open spec fn authorization_of(token: Seq<char>) -> Seq<char> {
    "token "@ + token
}

/// The headers of the request to the release index, in the order in which
/// they are set.
pub open spec fn headers_of(token: Seq<char>) -> Seq<(Seq<char>, Seq<char>)> {
    seq![
        ("Accept"@, "application/vnd.github+json"@),
        ("X-GitHub-Api-Version"@, "2022-11-28"@),
        ("User-Agent"@, "spin-cli-version-checker"@),
        ("Authorization"@, authorization_of(token)),
    ]
}

/// The request that asks the release index for the release of a channel.
pub open spec fn request_of(channel: Option<Seq<char>>, token: Seq<char>) -> GetRequestView {
    GetRequestView { url: url_of(channel), headers: headers_of(token) }
}

/// The view of what came of the outbound call.
pub open spec fn sent_of(sent: Result<UpstreamResponse, String>) -> SentView {
    match sent {
        Ok(answer) => Ok((answer.status, answer.body@)),
        Err(detail) => Err(detail@),
    }
}

/// What an answer of the release index means: a failure for any status but
/// 200, whatever the body holds; else what reading the body gives.
pub open spec fn answered(status: u16, body: Seq<u8>) -> Outcome {
    if status != 200 {
        Err(Failure::UpstreamStatus(status))
    } else {
        parsed_release(body)
    }
}

/// The release that the outbound call resolved to: a failure where the call
/// itself failed, else what the answer means.
pub open spec fn resolved(sent: SentView) -> Outcome {
    match sent {
        Ok((status, body)) => answered(status, body),
        Err(detail) => Err(Failure::Transport(detail)),
    }
}

/// Only the channel `canary` selects the canary release, which is not where
/// the latest release is kept: every other channel, and no channel, selects
/// the latest release.
pub proof fn lemma_channel_selects_url(channel: Option<Seq<char>>)
    ensures
        canary_url() != latest_url(),
        url_of(channel) == canary_url() <==> channel == Some("canary"@),
        url_of(channel) == latest_url() <==> channel != Some("canary"@),
{
    reveal_strlit("https://api.github.com/repos/fermyon/spin/releases/tags/canary");
    reveal_strlit("https://api.github.com/repos/fermyon/spin/releases/latest");
    assert(canary_url().len() != latest_url().len());
}

/// The route `GET /version/canary` asks for the canary release; the route
/// `GET /version` and the routes of all other channels ask for the latest.
pub proof fn lemma_route_selects_url(route: RouteView, token: Seq<char>)
    ensures
        route == RouteView::GetByChannel("canary"@) ==> request_of(channel_of(route), token).url
            == canary_url(),
        route != RouteView::GetByChannel("canary"@) ==> request_of(channel_of(route), token).url
            == latest_url(),
{
}

/// An answer with a status other than 200 is a failure that carries the
/// status, and the body plays no part in it.
pub proof fn lemma_status_decides_before_body(status: u16, body: Seq<u8>, other: Seq<u8>)
    requires
        status != 200,
    ensures
        answered(status, body) == Err::<ReleaseInfoView, Failure>(Failure::UpstreamStatus(status)),
        answered(status, body) == answered(status, other),
{
}

/// Which outcome comes of which answer. Once the request is on its way,
/// resolving fails in exactly four ways: the call fails, the status is not
/// 200, the body is empty, or the body is not JSON. Otherwise it gives a
/// release.
pub proof fn lemma_resolved_cases(sent: SentView)
    ensures
        (resolved(sent) matches Err(Failure::Transport(_))) <==> sent is Err,
        (resolved(sent) matches Err(Failure::UpstreamStatus(_))) <==> (sent matches Ok(answer)
            && answer.0 != 200),
        (resolved(sent) matches Err(Failure::EmptyBody)) <==> (sent matches Ok(answer) && answer.0
            == 200 && answer.1.len() == 0),
        (resolved(sent) matches Err(Failure::Parse)) <==> (sent matches Ok(answer) && answer.0
            == 200 && answer.1.len() > 0 && json_text_members(answer.1) is None),
        resolved(sent) is Ok <==> (sent matches Ok(answer) && answer.0 == 200 && answer.1.len() > 0
            && json_text_members(answer.1) is Some),
        !(resolved(sent) matches Err(Failure::Configuration(_))),
{
}

impl Route {
    /// The channel that this route names, if it names one.
    pub fn channel(&self) -> (r: Option<&str>)
        ensures
            text_of(r) == channel_of(self@),
    {
        match self {
            Route::GetLatest => None,
            Route::GetByChannel(channel) => Some(channel.as_str()),
        }
    }
}

/// The name under which the configuration holds the credential.
pub fn credential_name() -> (r: &'static str)
    ensures
        r@ == "github_token"@,
{
    "github_token"
}

/// The URL to ask for a channel. Only the channel `canary` has a URL of its
/// own: any other channel falls back to the latest release.
pub fn release_url(channel: Option<&str>) -> (r: &'static str)
    ensures
        r@ == url_of(text_of(channel)),
{
    match channel {
        Some(name) => {
            if same_text(name, "canary") {
                "https://api.github.com/repos/fermyon/spin/releases/tags/canary"
            } else {
                "https://api.github.com/repos/fermyon/spin/releases/latest"
            }
        },
        None => "https://api.github.com/repos/fermyon/spin/releases/latest",
    }
}

/// The value of the `Authorization` header, made of the credential that the
/// configuration gave, or the failure where it gave none. `credential` is
/// what the lookup returned: the token, or what the configuration said.
pub fn get_authorization_header_value(credential: Result<String, String>) -> (r: Result<
    String,
    ResolveError,
>)
    ensures
        match credential {
            Ok(token) => r matches Ok(value) && value@ == authorization_of(token@),
            Err(detail) => r matches Err(error) && error@ == Failure::Configuration(detail@),
        },
{
    match credential {
        Ok(token) => {
            let mut value = "token ".to_owned();
            value.append(token.as_str());
            Ok(value)
        },
        Err(detail) => Err(ResolveError::Configuration(detail)),
    }
}

fn header(name: &str, value: String) -> (r: Header)
    ensures
        r@ == (name@, value@),
{
    Header { name: name.to_owned(), value }
}

/// The one request that resolving a route sends: a `GET` to the URL of the
/// route's channel, with the four headers that the release index asks for.
/// Without a credential no request is made.
pub fn release_request(route: &Route, credential: Result<String, String>) -> (r: Result<
    GetRequest,
    ResolveError,
>)
    ensures
        match credential {
            Ok(token) => r matches Ok(request) && request@ == request_of(
                channel_of(route@),
                token@,
            ),
            Err(detail) => r matches Err(error) && error@ == Failure::Configuration(detail@),
        },
{
    let url = release_url(route.channel());
    match get_authorization_header_value(credential) {
        Ok(authorization) => {
            let mut headers: Vec<Header> = Vec::new();
            headers.push(header("Accept", "application/vnd.github+json".to_owned()));
            headers.push(header("X-GitHub-Api-Version", "2022-11-28".to_owned()));
            headers.push(header("User-Agent", "spin-cli-version-checker".to_owned()));
            headers.push(header("Authorization", authorization));
            let request = GetRequest { url: url.to_owned(), headers };
            proof {
                assert(request@.headers =~= headers_of(credential->Ok_0@));
            }
            Ok(request)
        },
        Err(error) => Err(error),
    }
}

/// The release that the outbound call resolved to. `sent` is what came of
/// the call: the answer, or what the transport said when the call failed.
/// A status other than 200 is a failure, and the body is then not read.
pub fn get_release_info(sent: Result<UpstreamResponse, String>) -> (r: Result<
    ReleaseInfo,
    ResolveError,
>)
    ensures
        outcome_of(r) == resolved(sent_of(sent)),
{
    match sent {
        Err(detail) => Err(ResolveError::Transport(detail)),
        Ok(answer) => {
            if answer.status != 200 {
                Err(ResolveError::UpstreamStatus(answer.status))
            } else {
                ReleaseInfo::try_from(answer.body.as_slice())
            }
        },
    }
}

} // verus!
