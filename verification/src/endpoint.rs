//! The endpoint: what is sent back on each route.

use crate::error::{failure_message, Failure, ResolveError};
use crate::json::json_text_members;
use crate::release::{release_json, release_of_members, text_of, ReleaseInfoView};
use crate::resolver::{
    get_release_info, resolved, sent_of, Route, RouteView, SentView, UpstreamResponse,
};
use vstd::prelude::*;

verus! {

/// What the endpoint sends back: a status, the `Content-Type` header and the
/// body.
#[derive(Debug, Clone, PartialEq, Eq)]
pub struct HttpReply {
    pub status: u16,
    pub content_type: String,
    pub body: String,
}

/// An `HttpReply` with its texts as sequences of characters.
pub struct HttpReplyView {
    pub status: u16,
    pub content_type: Seq<char>,
    pub body: Seq<char>,
}

impl View for HttpReply {
    type V = HttpReplyView;

    open spec fn view(&self) -> HttpReplyView {
        HttpReplyView {
            status: self.status,
            content_type: self.content_type@,
            body: self.body@,
        }
    }
}

/// The reply to `GET /version`: the bare version, as plain text.
pub open spec fn version_reply(release: ReleaseInfoView) -> HttpReplyView {
    HttpReplyView { status: 200, content_type: "text/plain"@, body: release.version }
}

/// The reply to `GET /version/{channel}`: the whole record, as JSON.
pub open spec fn release_reply(release: ReleaseInfoView) -> HttpReplyView {
    HttpReplyView {
        status: 200,
        content_type: "application/json"@,
        body: release_json(release),
    }
}

/// The reply that reports a failure: a server error whose body is the line
/// of text that describes the failure.
pub open spec fn failure_reply(failure: Failure) -> HttpReplyView {
    HttpReplyView { status: 500, content_type: "text/plain"@, body: failure_message(failure) }
}

/// The line that a reply leaves in the log: the body of a server error, and
/// nothing for a success.
pub open spec fn log_line_of(reply: HttpReplyView) -> Option<Seq<char>> {
    if reply.status == 200 {
        None
    } else {
        Some(reply.body)
    }
}

/// The reply of the endpoint on a route, given what came of the outbound
/// call.
pub open spec fn reply_of(route: RouteView, sent: SentView) -> HttpReplyView {
    match resolved(sent) {
        Ok(release) => match route {
            RouteView::GetLatest => version_reply(release),
            RouteView::GetByChannel(_) => release_reply(release),
        },
        Err(failure) => failure_reply(failure),
    }
}

/// The view of a handler's result.
pub open spec fn handled_of(r: Result<HttpReply, ResolveError>) -> Result<HttpReplyView, Failure> {
    match r {
        Ok(reply) => Ok(reply@),
        Err(error) => Err(error@),
    }
}

/// What `GET /version` comes to: the reply with the version, or the failure.
pub open spec fn latest_handled(sent: SentView) -> Result<HttpReplyView, Failure> {
    match resolved(sent) {
        Ok(release) => Ok(version_reply(release)),
        Err(failure) => Err(failure),
    }
}

/// What `GET /version/{channel}` comes to: the reply with the record, or the
/// failure.
pub open spec fn channel_handled(sent: SentView) -> Result<HttpReplyView, Failure> {
    match resolved(sent) {
        Ok(release) => Ok(release_reply(release)),
        Err(failure) => Err(failure),
    }
}

/// Whatever the release index answers with a status other than 200, on
/// either route the endpoint replies with a server error that names the
/// status, and the body of the answer plays no part in the reply.
pub proof fn lemma_upstream_status_is_server_error(
    route: RouteView,
    status: u16,
    body: Seq<u8>,
    other: Seq<u8>,
)
    requires
        status != 200,
    ensures
        reply_of(route, Ok((status, body))) == failure_reply(Failure::UpstreamStatus(status)),
        reply_of(route, Ok((status, body))).status == 500,
        reply_of(route, Ok((status, body))) == reply_of(route, Ok((status, other))),
{
}

/// Where the outbound call itself fails, on either route the endpoint
/// replies with a server error that says what the transport said.
pub proof fn lemma_transport_failure_is_server_error(route: RouteView, detail: Seq<char>)
    ensures
        reply_of(route, Err(detail)) == failure_reply(Failure::Transport(detail)),
        reply_of(route, Err(detail)).status == 500,
{
}

/// Every reply is either a success with status 200 or a server error with
/// status 500. It is a success exactly where the release resolved; a server
/// error is plain text and its body is the message of the failure.
pub proof fn lemma_reply_status(route: RouteView, sent: SentView)
    ensures
        resolved(sent) is Ok <==> reply_of(route, sent).status == 200,
        resolved(sent) is Err <==> reply_of(route, sent).status == 500,
        resolved(sent) matches Err(failure) ==> reply_of(route, sent).content_type == "text/plain"@
            && reply_of(route, sent).body == failure_message(failure),
{
}

/// Every failure is logged, with its message, and a success is not.
pub proof fn lemma_failures_are_logged(route: RouteView, sent: SentView)
    ensures
        resolved(sent) is Ok ==> log_line_of(reply_of(route, sent)) is None,
        resolved(sent) matches Err(failure) ==> log_line_of(reply_of(route, sent)) == Some(
            failure_message(failure),
        ),
        forall|failure: Failure| log_line_of(#[trigger] failure_reply(failure)) == Some(failure_message(failure)),
{
}

/// Where the release resolves, `GET /version` replies with status 200, as
/// plain text, and its body is the version of the release and nothing else.
pub proof fn lemma_latest_reply(sent: SentView)
    ensures
        resolved(sent) is Ok ==> {
            &&& reply_of(RouteView::GetLatest, sent).status == 200
            &&& reply_of(RouteView::GetLatest, sent).content_type == "text/plain"@
            &&& reply_of(RouteView::GetLatest, sent).body == resolved(sent)->Ok_0.version
        },
{
}

/// Where the release resolves, `GET /version/{channel}` replies with status
/// 200, as JSON, whatever the channel, and its body is the document that
/// stands for the whole record.
pub proof fn lemma_channel_reply(channel: Seq<char>, sent: SentView)
    ensures
        resolved(sent) is Ok ==> {
            &&& reply_of(RouteView::GetByChannel(channel), sent).status == 200
            &&& reply_of(RouteView::GetByChannel(channel), sent).content_type
                == "application/json"@
            &&& reply_of(RouteView::GetByChannel(channel), sent).body == release_json(
                resolved(sent)->Ok_0,
            )
        },
{
}

/// Where the release index answers 200 with a body that is a JSON document,
/// the release resolves to the record of that document, so that both routes
/// reply with success: `GET /version` with the document's version, and
/// `GET /version/{channel}` with the whole record.
pub proof fn lemma_successful_replies(channel: Seq<char>, body: Seq<u8>)
    ensures
        body.len() > 0 && json_text_members(body) is Some ==> {
            let release = release_of_members(json_text_members(body)->0);
            &&& resolved(Ok((200, body))) == Ok::<ReleaseInfoView, Failure>(release)
            &&& reply_of(RouteView::GetLatest, Ok((200, body))) == version_reply(release)
            &&& reply_of(RouteView::GetByChannel(channel), Ok((200, body))) == release_reply(
                release,
            )
        },
{
}

/// Handles `GET /version`: resolves the release and replies with its
/// version alone.
pub fn get_latest_stable_version(sent: Result<UpstreamResponse, String>) -> (r: Result<
    HttpReply,
    ResolveError,
>)
    ensures
        handled_of(r) == latest_handled(sent_of(sent)),
{
    match get_release_info(sent) {
        Ok(release) => Ok(
            HttpReply {
                status: 200,
                content_type: "text/plain".to_owned(),
                body: release.version,
            },
        ),
        Err(error) => Err(error),
    }
}

/// Handles `GET /version/{channel}`: resolves the release and replies with
/// the whole record as JSON.
pub fn get_version_by_channel(sent: Result<UpstreamResponse, String>) -> (r: Result<
    HttpReply,
    ResolveError,
>)
    ensures
        handled_of(r) == channel_handled(sent_of(sent)),
{
    match get_release_info(sent) {
        Ok(release) => Ok(
            HttpReply {
                status: 200,
                content_type: "application/json".to_owned(),
                body: release.to_json(),
            },
        ),
        Err(error) => Err(error),
    }
}

/// The reply that reports a failure: a server error with the failure's
/// message as its body.
pub fn error_reply(error: &ResolveError) -> (r: HttpReply)
    ensures
        r@ == failure_reply(error@),
{
    HttpReply { status: 500, content_type: "text/plain".to_owned(), body: error.message() }
}

/// The line to write to the log for a reply, if there is one: the message of
/// a failure.
pub fn log_line(reply: &HttpReply) -> (r: Option<&str>)
    ensures
        text_of(r) == log_line_of(reply@),
{
    if reply.status == 200 {
        None
    } else {
        Some(reply.body.as_str())
    }
}

/// The endpoint: dispatches on the route, and turns a handler's failure
/// into a server error. `sent` is what came of the outbound call.
pub fn handle_check_spin_cli_version(route: &Route, sent: Result<UpstreamResponse, String>) -> (r:
    HttpReply)
    ensures
        r@ == reply_of(route@, sent_of(sent)),
{
    let handled = match route {
        Route::GetLatest => get_latest_stable_version(sent),
        Route::GetByChannel(_) => get_version_by_channel(sent),
    };
    match handled {
        Ok(reply) => reply,
        Err(error) => error_reply(&error),
    }
}

} // verus!
